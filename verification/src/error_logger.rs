//! A minimal line logger over a single output sink.

use vstd::prelude::*;

use crate::log_wrapper::LogSink;

verus! {

/// A single-channel logging capability: one message per line.
pub trait Logger {
    /// Write `msg` and a line break.
    fn log(&mut self, msg: &str) -> Result<(), ()>;
}

/// A line logger over any sink.
pub struct ErrorLogger<W> {
    write: W,
}

impl<W> ErrorLogger<W> {
    /// Wrap the sink.
    pub fn new(writer: W) -> Self {
        ErrorLogger { write: writer }
    }
}

impl<W: LogSink> Logger for ErrorLogger<W> {
    fn log(&mut self, msg: &str) -> Result<(), ()> {
        self.write.write_line(msg)
    }
}

} // verus!
