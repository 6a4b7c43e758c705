//! A small verified task-list library: a line-oriented record codec with
//! corruption detection, whole-file store encoding and decoding, resolution
//! of command tokens into validated actions, and the executor that applies
//! each action to the stored item list.
//!
//! File, console and environment access stay outside the library: the
//! executor reaches them only through the `Database`, `Logger` and
//! `InputReader` capabilities that callers supply.

pub mod error;

pub mod text;

pub mod todo;

pub mod action;

pub mod validator;

pub mod error_logger;

pub mod log_wrapper;

pub mod input;
