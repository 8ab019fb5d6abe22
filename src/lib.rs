//! The core of a small interactive command shell: splitting an input line
//! into words, and deciding what each command line asks the shell to do.
//! Performing that work (changing directory, reading files, starting
//! programs) is left to the program that drives the library.

pub mod tokenize;
pub mod builtin;
pub mod dispatch;
