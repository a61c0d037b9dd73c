//! Checks source comments for TODO/FIXME annotations and classifies them.

pub mod annotation;
pub mod cli;
pub mod config;
pub mod date;
pub mod error;
pub mod languages;
pub mod laws;
pub mod output;
pub mod syntax;
pub mod text;
pub mod todo_analyzer;
