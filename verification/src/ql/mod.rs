pub mod parser;
pub mod tokenizer;
