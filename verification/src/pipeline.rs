//! The rendering pipelines: the shared per-instance parameter capability,
//! and the shader cores and parameter types of each pipeline.

pub mod conduit;
pub mod instance;
pub mod light;
