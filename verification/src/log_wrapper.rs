//! The diagnostic-output capability and its standard implementation over a
//! pair of output sinks. Nothing is assumed of a logger: the library's
//! guarantees hold whatever an implementation does with the messages.

use vstd::prelude::*;
use vstd::string::StrSliceExecFns;
use std::io::Write;

verus! {

/// The diagnostic-output capability the executor and the validator write
/// through: error and ordinary output, each with and without a trailing
/// line break. An implementation reports a failed write through the
/// result; the library treats logging as best-effort and never fails an
/// action over it.
pub trait Logger {
    /// Write `msg` and a line break to the error channel.
    fn log_errln(&mut self, msg: &str) -> Result<(), ()>;

    /// Write `msg` and a line break to the ordinary channel.
    fn log_stdln(&mut self, msg: &str) -> Result<(), ()>;

    /// Write `msg` to the error channel.
    fn log_err(&mut self, msg: &str) -> Result<(), ()>;

    /// Write `msg` to the ordinary channel.
    fn log_std(&mut self, msg: &str) -> Result<(), ()>;
}

/// An output sink a logger can be built over: a byte buffer, or one of
/// the process's standard streams.
pub trait LogSink {
    /// Write `msg` followed by a line break.
    fn write_line(&mut self, msg: &str) -> Result<(), ()>;

    /// Write `msg` as it stands.
    fn write_text(&mut self, msg: &str) -> Result<(), ()>;
}

/// A byte buffer collects the UTF-8 bytes of everything written.
impl LogSink for Vec<u8> {
    fn write_line(&mut self, msg: &str) -> Result<(), ()> {
        let mut bytes = msg.as_bytes_vec();
        self.append(&mut bytes);
        self.push(10);
        Ok(())
    }

    fn write_text(&mut self, msg: &str) -> Result<(), ()> {
        let mut bytes = msg.as_bytes_vec();
        self.append(&mut bytes);
        Ok(())
    }
}

/// Declares std's standard error stream so sinks over it can stand in
/// verified signatures; the type stays opaque.
#[verifier::external_type_specification]
#[verifier::external_body]
pub struct ExStderr(std::io::Stderr);

/// Declares std's standard output stream so sinks over it can stand in
/// verified signatures; the type stays opaque.
#[verifier::external_type_specification]
#[verifier::external_body]
pub struct ExStdout(std::io::Stdout);

/// Relies on std's `writeln!` to the standard error stream.
#[verifier::external_body]
fn stderr_line(w: &mut std::io::Stderr, msg: &str) -> Result<(), ()> {
    match writeln!(w, "{}", msg) {
        Ok(_) => Ok(()),
        Err(_) => Err(()),
    }
}

/// Relies on std's `write!` to the standard error stream.
#[verifier::external_body]
fn stderr_text(w: &mut std::io::Stderr, msg: &str) -> Result<(), ()> {
    match write!(w, "{}", msg) {
        Ok(_) => Ok(()),
        Err(_) => Err(()),
    }
}

/// Relies on std's `writeln!` to the standard output stream.
#[verifier::external_body]
fn stdout_line(w: &mut std::io::Stdout, msg: &str) -> Result<(), ()> {
    match writeln!(w, "{}", msg) {
        Ok(_) => Ok(()),
        Err(_) => Err(()),
    }
}

/// Relies on std's `write!` to the standard output stream.
#[verifier::external_body]
fn stdout_text(w: &mut std::io::Stdout, msg: &str) -> Result<(), ()> {
    match write!(w, "{}", msg) {
        Ok(_) => Ok(()),
        Err(_) => Err(()),
    }
}

impl LogSink for std::io::Stderr {
    fn write_line(&mut self, msg: &str) -> Result<(), ()> {
        stderr_line(self, msg)
    }

    fn write_text(&mut self, msg: &str) -> Result<(), ()> {
        stderr_text(self, msg)
    }
}

impl LogSink for std::io::Stdout {
    fn write_line(&mut self, msg: &str) -> Result<(), ()> {
        stdout_line(self, msg)
    }

    fn write_text(&mut self, msg: &str) -> Result<(), ()> {
        stdout_text(self, msg)
    }
}

/// A logger over any two sinks: one carries the error channel, one the
/// ordinary channel.
#[derive(Debug, PartialEq)]
pub struct LogWrapper<ERRW, STDW> {
    pub err_writer: ERRW,
    pub std_writer: STDW,
}

impl<ERRW, STDW> LogWrapper<ERRW, STDW> {
    /// Wrap the two sinks.
    pub fn new(err_writer: ERRW, std_writer: STDW) -> (r: Self)
        ensures
            r.err_writer == err_writer,
            r.std_writer == std_writer,
    {
        LogWrapper { err_writer, std_writer }
    }
}

impl<ERRW: LogSink, STDW: LogSink> Logger for LogWrapper<ERRW, STDW> {
    fn log_errln(&mut self, msg: &str) -> Result<(), ()> {
        self.err_writer.write_line(msg)
    }

    fn log_stdln(&mut self, msg: &str) -> Result<(), ()> {
        self.std_writer.write_line(msg)
    }

    fn log_err(&mut self, msg: &str) -> Result<(), ()> {
        self.err_writer.write_text(msg)
    }

    fn log_std(&mut self, msg: &str) -> Result<(), ()> {
        self.std_writer.write_text(msg)
    }
}

} // verus!
