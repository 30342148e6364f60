//! Typed endpoints, one module per API resource.

pub mod llm;
