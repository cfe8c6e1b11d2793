pub mod ast;
pub mod pattern;
pub mod parser;
