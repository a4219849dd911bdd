//! Typing-test statistics and practice-text generation.

pub mod text;
pub mod stats;
pub mod word_gen;
pub mod session;
pub mod screens;
