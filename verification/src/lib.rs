//! A command-line front-end for the Lang interpreter engine: it classifies
//! the argument vector into one of the driver's modes (help, token dump, AST
//! dump, file execution, inline-code execution, or a usage error), parses the
//! execution-time flags and the delimited program arguments, renders the help
//! page and every diagnostic message, and drives the engine's lexer, parser
//! and interpreter.
//!
//! The argument classification, the flag parsing and the text the driver
//! emits are specified and verified here; reading files, printing and exiting
//! belong to the surrounding binary, and the engine is reached only through
//! narrow trusted seams.
pub mod diagnostics;
pub mod engine;
pub mod help;
pub mod invocation;
pub mod options;
pub mod text;
