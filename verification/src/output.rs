//! What is shown of the warnings of a file: the rows of a table and the
//! records of a structured report. Drawing and printing are left to the
//! caller.

pub mod json;
pub mod table;
