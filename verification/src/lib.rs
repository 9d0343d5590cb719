//! Core pipeline of an LLM-backed note-augmentation service: configuration
//! and credential resolution, request normalization, instruction templates,
//! strict parsing of structured model output, and error classification.

pub mod errors;
pub mod laws;
pub mod models;
pub mod normalize;
pub mod prompts;
pub mod service;
pub mod strings;
pub mod structured;
