//! Request codes and request records of the Krabcake Valgrind tool.
//!
//! A program talks to the tool through Valgrind client requests: a record of
//! a request code and five arguments, whose address is handed to Valgrind by
//! a special instruction sequence. This crate holds the codes that the tool
//! understands and the construction of the records; the instruction sequence
//! itself is issued by the program around it.

pub mod tool_base;
pub mod test_dependencies;
pub mod krabcake;
