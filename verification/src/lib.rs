//! Naming and layout conventions for Solidity projects.
//!
//! The library classifies the files of a project, reads the declarations of
//! each file's parse tree, and holds them to four conventions: constants are
//! written in capitals, test functions follow a fixed name pattern, internal
//! and private members start with an underscore, and an executable script
//! exposes a single `run` method. Every breach is recorded in a report with
//! its file and line.
pub mod check;
pub mod constants;
pub mod declarations;
pub mod files;
pub mod lines;
pub mod parse;
pub mod report;
pub mod scripts;
pub mod src_names_internal;
pub mod test_names;
pub mod text;
pub mod tree;
