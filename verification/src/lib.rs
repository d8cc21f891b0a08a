//! A compiler for a small declarative schema language: enum and table
//! declarations with typed columns, defaults and key constraints are parsed
//! into a schema model and rendered as DDL for several SQL dialects or as
//! native data-structure declarations.

pub mod diagnostic;
pub mod error;
pub mod generator;
pub mod grammar;
pub mod models;
pub mod mysql;
pub mod parser;
pub mod postgresql;
pub mod rust;
pub mod sql;
pub mod sqlite;
pub mod text;
pub mod tree;
