//! Scope generators: grouped routes under a shared path prefix, built from
//! an annotated constant's block, an annotated `impl` block, or a derived
//! aggregate.

pub mod attr;
pub mod derive;
