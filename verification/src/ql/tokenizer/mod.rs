pub mod errors;
pub mod token;
pub mod tokenizer;
