//! Sakura Script, the markup of what a ghost says.
pub mod tokenizer;
