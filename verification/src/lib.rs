//! A small database management system: a query language tokenizer and parser,
//! the on-disk framing and migration of database schemas, and the page layout
//! of an on-disk B+ tree.
pub mod cli;
pub mod dbms;
pub mod ql;
pub mod repl;
pub mod row;
pub mod table;
pub mod util;
