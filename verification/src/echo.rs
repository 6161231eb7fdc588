//! An echo service: its routes, and what it does to the bytes it is sent.
//!
//! The service answers a `GET` of `/` with a hint, and a `POST` below
//! `/echo` with the body it was sent: as it is, in upper case, or reversed.

use vstd::prelude::*;
use crate::text::same;

verus! {

/// What the service answers a `GET` of `/` with.
pub const ECHO_HINT: &'static str = "Try POSTing data to /echo";

/// What a request to the service asks for.
#[derive(Clone, Copy, Debug, PartialEq, Eq, Structural)]
pub enum EchoRoute {
    /// The hint.
    Hint,
    /// The body as it was sent.
    Echo,
    /// The body in upper case.
    Uppercase,
    /// The body with its bytes in reverse order.
    Reverse,
    /// Nothing that the service has.
    NotFound,
}

/// What a request with this method and path asks for. Method and path are
/// taken as they are: the case of letters counts, and so does every
/// character of the path.
pub open spec fn route_of(method: Seq<char>, path: Seq<char>) -> EchoRoute {
    if method == "GET"@ && path == "/"@ {
        EchoRoute::Hint
    } else if method == "POST"@ && path == "/echo"@ {
        EchoRoute::Echo
    } else if method == "POST"@ && path == "/echo/uppercase"@ {
        EchoRoute::Uppercase
    } else if method == "POST"@ && path == "/echo/reverse"@ {
        EchoRoute::Reverse
    } else {
        EchoRoute::NotFound
    }
}

/// What a request with this method and path asks for.
pub fn echo_route(method: &str, path: &str) -> (route: EchoRoute)
    ensures
        route == route_of(method@, path@),
{
    if same(method, "GET") && same(path, "/") {
        EchoRoute::Hint
    } else if same(method, "POST") && same(path, "/echo") {
        EchoRoute::Echo
    } else if same(method, "POST") && same(path, "/echo/uppercase") {
        EchoRoute::Uppercase
    } else if same(method, "POST") && same(path, "/echo/reverse") {
        EchoRoute::Reverse
    } else {
        EchoRoute::NotFound
    }
}

/// A byte in upper case: the ASCII letters `a` to `z` become `A` to `Z`, and
/// every other byte stays as it is.
pub open spec fn upper(byte: u8) -> u8 {
    if 97 <= byte <= 122 {
        (byte - 32) as u8
    } else {
        byte
    }
}

/// The bytes of `chunk` in upper case, each at its place.
pub fn uppercase(chunk: &[u8]) -> (out: Vec<u8>)
    ensures
        out@ == chunk@.map_values(|byte: u8| upper(byte)),
{
    let mut out: Vec<u8> = Vec::new();
    let mut i: usize = 0;
    while i < chunk.len()
        invariant
            i <= chunk.len(),
            out.len() == i,
            forall|k: int| 0 <= k < i ==> out[k] == upper(chunk[k]),
        decreases chunk.len() - i,
    {
        let byte = chunk[i];
        if 97 <= byte && byte <= 122 {
            out.push(byte - 32);
        } else {
            out.push(byte);
        }
        i += 1;
    }
    assert(out@ =~= chunk@.map_values(|byte: u8| upper(byte)));
    out
}

/// The bytes of `body` in reverse order.
pub fn reversed(body: &[u8]) -> (out: Vec<u8>)
    ensures
        out@ == body@.reverse(),
{
    let mut out: Vec<u8> = Vec::new();
    let mut i: usize = body.len();
    while i > 0
        invariant
            i <= body.len(),
            out.len() == body.len() - i,
            forall|k: int| 0 <= k < out.len() ==> out[k] == body[body.len() - 1 - k],
        decreases i,
    {
        i -= 1;
        out.push(body[i]);
    }
    assert(out@ =~= body@.reverse());
    out
}

/// Upper case of upper case is upper case: no byte changes twice.
pub proof fn uppercase_is_idempotent(bytes: Seq<u8>)
    ensures
        bytes.map_values(|byte: u8| upper(byte)).map_values(|byte: u8| upper(byte))
            == bytes.map_values(|byte: u8| upper(byte)),
{
    assert(bytes.map_values(|byte: u8| upper(byte)).map_values(|byte: u8| upper(byte))
        =~= bytes.map_values(|byte: u8| upper(byte)));
}

/// Reversing twice gives the bytes back.
pub proof fn reverse_is_an_involution(bytes: Seq<u8>)
    ensures
        bytes.reverse().reverse() == bytes,
{
    assert(bytes.reverse().reverse() =~= bytes);
}

} // verus!
