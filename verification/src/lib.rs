//! A short report, built line by line as values: a greeting, two numbers, the
//! size of a number, a count, and a greeting by name. Nothing here prints;
//! every function returns the text that it stands for.

pub mod decimal;
pub mod lines;
pub mod program;
