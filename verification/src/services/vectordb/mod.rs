//! Vector database services.

pub mod qdrant;
