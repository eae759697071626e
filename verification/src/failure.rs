//! The faults that the server reports, and what each one means for it.

use crate::request::Classification;
use vstd::prelude::*;

verus! {

/// A fault on the listening socket or on a connection. None is retried, and
/// none reaches the client.
#[derive(Clone, Copy, Debug, PartialEq, Eq, Structural)]
pub enum Failure {
    /// The listening socket could not be bound.
    Bind,
    /// An incoming connection could not be accepted.
    Accept,
    /// The single read of a request failed.
    Read,
    /// The response to a request of the given class could not be written.
    Write(Classification),
    /// The final flush of a connection failed.
    Flush,
}

impl Failure {
    /// True for the one fault that ends the server: a failed bind. Every
    /// other fault is reported and the server goes on.
    pub open spec fn fatal(self) -> bool {
        self is Bind
    }

    /// The line that reports the fault, without the cause that follows it.
    pub open spec fn line(self) -> Seq<char> {
        match self {
            Failure::Bind => "Failed to bind to port 8080"@,
            Failure::Accept => "Connection failed"@,
            Failure::Read => "Failed to read from stream"@,
            Failure::Write(Classification::Match) => "Failed to write response"@,
            Failure::Write(Classification::NoMatch) => "Failed to write 404 response"@,
            Failure::Flush => "Failed to flush stream"@,
        }
    }

    /// Whether the fault ends the server.
    pub fn is_fatal(&self) -> (fatal: bool)
        ensures
            fatal == self.fatal(),
    {
        match self {
            Failure::Bind => true,
            _ => false,
        }
    }

    /// The text that reports the fault on the diagnostic channel; the driver
    /// appends the cause.
    pub fn message(&self) -> (text: &'static str)
        ensures
            text@ == self.line(),
    {
        match self {
            Failure::Bind => "Failed to bind to port 8080",
            Failure::Accept => "Connection failed",
            Failure::Read => "Failed to read from stream",
            Failure::Write(Classification::Match) => "Failed to write response",
            Failure::Write(Classification::NoMatch) => "Failed to write 404 response",
            Failure::Flush => "Failed to flush stream",
        }
    }
}

} // verus!
