//! Core logic for a small greeting-page service: name normalization,
//! validation, slug canonicalization, and uniform response envelopes.

pub mod envelope;
pub mod handlers;
pub mod name;
pub mod render;
pub mod slugger;
pub mod text;
