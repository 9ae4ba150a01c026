//! What the marketplace reads of a token.

pub mod metadata;
