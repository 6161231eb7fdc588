//! What happens on one connection, between the bytes read and the bytes
//! written.
//!
//! Reading and writing are the caller's. The caller reads into a buffer,
//! asking [`ReadRetry`] after each attempt how to go on, hands the buffer to
//! [`RouteTable::respond`], and writes out what comes back.

use vstd::prelude::*;
use crate::response::{response_bytes, HTTPResponse, ResponseModel};
use crate::route::{best_match, has_match, RouteTable};

verus! {

/// `std::io::Error`: the error of a handle, and of the reads and writes of
/// the caller. It is carried through as it is: nothing is claimed of what it
/// holds.
#[verifier::external_type_specification]
#[verifier::external_body]
pub struct ExIoError(std::io::Error);

/// The body of the response to a request that no route matches.
pub const HTTP_CONTENT_404: &'static str =
    "<!DOCTYPE html>\n<html lang=\"en\">\n  <head>\n    <meta charset=\"utf-8\">\n    <title>Hello!</title>\n  </head>\n  <body>\n    <h1>Oops!</h1>\n    <p>Sorry, I don't know what you're asking for.</p>\n  </body>\n</html>\n";

/// How often a read is attempted before the buffer is taken as it is.
pub const READ_ATTEMPTS: u32 = 16;

/// How long to wait, in milliseconds, before a read is attempted again.
pub const RETRY_DELAY_MILLIS: u64 = 50;

/// The number of bytes of a request that are read and looked at.
pub const REQUEST_BUFFER_SIZE: usize = 1024;

/// Why a connection was given up without a response.
#[derive(Debug)]
pub enum ConnectionError {
    /// Nothing was read: the request is empty or holds zero bytes only.
    InvalidInput,
    /// The handle of the matching route failed with this error.
    Io(std::io::Error),
}

/// The response to a request that no route matches.
pub open spec fn not_found_model() -> ResponseModel {
    ResponseModel { status: 404, content: Some(HTTP_CONTENT_404@) }
}

/// The response to a request that no route matches: status 404 with
/// [`HTTP_CONTENT_404`] as its body.
pub fn not_found() -> (r: HTTPResponse)
    ensures
        r@ == not_found_model(),
{
    HTTPResponse::new(404).with_content(HTTP_CONTENT_404)
}

/// Whether a request holds nothing: no byte of it differs from zero.
pub open spec fn blank(request: Seq<u8>) -> bool {
    forall|i: int| 0 <= i < request.len() ==> request[i] == 0
}

/// Whether `request` holds nothing.
pub fn is_blank(request: &[u8]) -> (b: bool)
    ensures
        b == blank(request@),
{
    let mut i: usize = 0;
    while i < request.len()
        invariant
            i <= request.len(),
            forall|k: int| 0 <= k < i ==> request@[k] == 0,
        decreases request.len() - i,
    {
        if request[i] != 0 {
            return false;
        }
        i += 1;
    }
    true
}

/// What is sent for the outcome of a handle: the bytes of its response, or no
/// bytes and its error.
pub open spec fn reply_for(outcome: Result<HTTPResponse, std::io::Error>) -> Result<
    Seq<u8>,
    ConnectionError,
> {
    match outcome {
        Ok(response) => Ok(response_bytes(response@)),
        Err(e) => Err(ConnectionError::Io(e)),
    }
}

/// What a connection ends with, the bytes to write taken as a sequence.
pub open spec fn sent(out: Result<Vec<u8>, ConnectionError>) -> Result<Seq<u8>, ConnectionError> {
    match out {
        Ok(bytes) => Ok(bytes@),
        Err(e) => Err(e),
    }
}

/// Turns the outcome of a handle into the bytes to write, or into the error
/// that ends the connection.
pub fn reply(outcome: Result<HTTPResponse, std::io::Error>) -> (out: Result<
    Vec<u8>,
    ConnectionError,
>)
    ensures
        sent(out) == reply_for(outcome),
{
    match outcome {
        Ok(response) => Ok(response.to_bytes()),
        Err(e) => Err(ConnectionError::Io(e)),
    }
}

impl<H: Fn() -> Result<HTTPResponse, std::io::Error>> RouteTable<H> {
    /// Whether every registered handle may be called.
    pub open spec fn callable(&self) -> bool {
        forall|pattern: Seq<char>| #[trigger]
            self@.dom().contains(pattern) ==> call_requires(self@[pattern], ())
    }

    /// Answers one request.
    ///
    /// A blank request is refused. Any other is routed by the longest
    /// registered pattern that it begins with: the handle of that route is
    /// called once, and its response is sent, or its error ends the
    /// connection. Where no pattern matches, the 404 response is sent and no
    /// handle is called.
    pub fn respond(&self, request: &[u8]) -> (out: Result<Vec<u8>, ConnectionError>)
        requires
            self.callable(),
        ensures
            blank(request@) ==> sent(out) == Err::<Seq<u8>, ConnectionError>(
                ConnectionError::InvalidInput,
            ),
            !blank(request@) && !has_match(self@, request@) ==> sent(out) == Ok::<
                Seq<u8>,
                ConnectionError,
            >(response_bytes(not_found_model())),
            !blank(request@) && has_match(self@, request@) ==> exists|
                outcome: Result<HTTPResponse, std::io::Error>,
            |
                call_ensures(self@[best_match(self@, request@)], (), outcome) && sent(out)
                    == reply_for(outcome),
    {
        if is_blank(request) {
            return Err(ConnectionError::InvalidInput);
        }
        match self.route(request) {
            Some(handle) => {
                let outcome = handle();
                let out = reply(outcome);
                assert(call_ensures(self@[best_match(self@, request@)], (), outcome) && sent(out)
                    == reply_for(outcome));
                out
            },
            None => Ok(not_found().to_bytes()),
        }
    }
}

/// How an attempt to read the request ended.
#[derive(Clone, Copy, Debug, PartialEq, Eq, Structural)]
pub enum ReadEvent {
    /// The read returned.
    Data,
    /// Nothing can be read yet.
    WouldBlock,
    /// The read was interrupted before anything was read.
    Interrupted,
    /// The read failed for good.
    Failed,
}

/// What to do after an attempt to read the request.
#[derive(Clone, Copy, Debug, PartialEq, Eq, Structural)]
pub enum ReadStep {
    /// Go on with the buffer as it is.
    Proceed,
    /// Wait for [`RETRY_DELAY_MILLIS`] and read again.
    Retry,
    /// Give the connection up with the error of the read.
    Abort,
}

/// Whether a read that ended so may succeed when it is attempted again.
pub open spec fn transient(event: ReadEvent) -> bool {
    event == ReadEvent::WouldBlock || event == ReadEvent::Interrupted
}

/// What to do after an attempt to read, `made` attempts having gone before.
///
/// A read that returned ends the reading, and so does one that failed for
/// good. A transient condition is waited out, unless this was the last of the
/// [`READ_ATTEMPTS`]: the buffer is then taken as it is.
pub open spec fn read_step(made: nat, event: ReadEvent) -> ReadStep {
    match event {
        ReadEvent::Data => ReadStep::Proceed,
        ReadEvent::Failed => ReadStep::Abort,
        _ => if made + 1 < READ_ATTEMPTS {
            ReadStep::Retry
        } else {
            ReadStep::Proceed
        },
    }
}

/// Counts the attempts to read one request.
pub struct ReadRetry {
    made: u32,
}

impl ReadRetry {
    /// The number of attempts made so far, up to [`READ_ATTEMPTS`].
    pub closed spec fn attempts(&self) -> nat {
        self.made as nat
    }

    #[verifier::type_invariant]
    spec fn bounded(self) -> bool {
        self.made <= READ_ATTEMPTS
    }

    /// Before the first attempt.
    pub fn new() -> (r: ReadRetry)
        ensures
            r.attempts() == 0,
    {
        ReadRetry { made: 0 }
    }

    /// Takes note of an attempt and says how to go on.
    pub fn next(&mut self, event: ReadEvent) -> (step: ReadStep)
        ensures
            step == read_step(old(self).attempts(), event),
            final(self).attempts() == if old(self).attempts() < READ_ATTEMPTS {
                old(self).attempts() + 1
            } else {
                old(self).attempts()
            },
            step == ReadStep::Retry ==> final(self).attempts() < READ_ATTEMPTS,
    {
        proof {
            use_type_invariant(&*self);
        }
        let made = self.made;
        if made < READ_ATTEMPTS {
            self.made = made + 1;
        }
        match event {
            ReadEvent::Data => ReadStep::Proceed,
            ReadEvent::Failed => ReadStep::Abort,
            _ => if made + 1 < READ_ATTEMPTS {
                ReadStep::Retry
            } else {
                ReadStep::Proceed
            },
        }
    }
}

} // verus!
