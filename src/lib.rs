//! Layered agent configuration: settings model, merging, validation,
//! provider selection and hash-based drift detection.
pub mod names;
pub mod settings;
pub mod layers;
pub mod cache;
pub mod effective;
pub mod laws;
pub mod builder;
pub mod templates;
pub mod artifacts;
pub mod seed;
