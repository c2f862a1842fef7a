//! One-shot capture of an OAuth authorization-code redirect.
//!
//! A browser is sent to `127.0.0.1:<port>` after the user authorizes the
//! application; the request line of the connection it opens carries the
//! callback path with the authorization code as query parameters.  The
//! listener itself (bind, accept, read, write) lives outside this crate;
//! this module holds the decision taken on each connection's bytes and the
//! listener's state machine: it answers every connection, but only the
//! first one that yields a parseable path ends the listening.

use vstd::prelude::*;

use crate::request_line::second_token;
use vstd::utf8::decode_utf8;
use vstd::utf8::valid_utf8;

verus! {

/// What one intercepted connection's bytes call for: a captured path to
/// hand to the caller (answer 200 and stop listening), or one of the two
/// defects (answer 400 and keep listening).
#[derive(PartialEq, Eq, Debug)]
pub enum RequestOutcome {
    /// The request decoded and carried a path: the capture is complete.
    Captured(String),
    /// The request decoded but had no second whitespace-delimited token.
    MalformedRequest,
    /// The bytes were not valid UTF-8.
    InvalidUtf8,
}

/// The path carried by a request's bytes: the second whitespace-delimited
/// token of their UTF-8 decoding, or nothing when the bytes do not decode
/// or the token is missing.
pub open spec fn path_of_request(bytes: Seq<u8>) -> Option<Seq<char>> {
    if valid_utf8(bytes) {
        second_token(decode_utf8(bytes))
    } else {
        None
    }
}

/// Relies on `std::str::from_utf8`: it succeeds on exactly the valid UTF-8
/// byte sequences, and the `str` it returns holds their decoded characters,
/// which `str::chars` hands out in order.
#[verifier::external_body]
fn decode_request_bytes(buffer: &[u8]) -> (r: Option<Vec<char>>)
    ensures
        r is Some <==> valid_utf8(buffer@),
        r matches Some(cs) ==> cs@ == decode_utf8(buffer@),
{
    match std::str::from_utf8(buffer) {
        Ok(request) => Some(request.chars().collect()),
        Err(_) => None,
    }
}

/// Relies on `String`'s `FromIterator`: collecting characters yields the
/// string made of exactly those characters, in order.
#[verifier::external_body]
fn string_of_chars(cs: &Vec<char>) -> (r: String)
    ensures
        r@ == cs@,
{
    cs.iter().collect()
}

/// Classifies one connection's bytes: the path a well-formed request
/// carries, or which of the two defects the bytes have.
pub fn parse_request(buffer: &[u8]) -> (r: RequestOutcome)
    ensures
        r is Captured <==> path_of_request(buffer@) is Some,
        r matches RequestOutcome::Captured(p) ==> path_of_request(buffer@) == Some(p@),
        r is InvalidUtf8 <==> !valid_utf8(buffer@),
        r is MalformedRequest <==> valid_utf8(buffer@) && second_token(decode_utf8(buffer@))
            is None,
{
    match decode_request_bytes(buffer) {
        None => RequestOutcome::InvalidUtf8,
        Some(chars) => match crate::request_line::find_second_token(&chars) {
            None => RequestOutcome::MalformedRequest,
            Some(token) => RequestOutcome::Captured(string_of_chars(&token)),
        },
    }
}

/// The status line owed on the connection that produced `outcome`: a
/// capture is confirmed with 200, either defect is answered with 400.
pub fn status_line(outcome: &RequestOutcome) -> (r: &'static str)
    ensures
        outcome is Captured ==> r@ == "HTTP/1.1 200 OK"@,
        !(outcome is Captured) ==> r@ == "HTTP/1.1 400 Bad Request"@,
{
    match outcome {
        RequestOutcome::Captured(_) => "HTTP/1.1 200 OK",
        RequestOutcome::MalformedRequest => "HTTP/1.1 400 Bad Request",
        RequestOutcome::InvalidUtf8 => "HTTP/1.1 400 Bad Request",
    }
}

/// The one-shot listener's state: `None` while it is still listening,
/// `Some(path)` once a connection has yielded a parseable path and the
/// listening has ended.
pub struct RedirectCapture {
    captured: Option<String>,
}

impl View for RedirectCapture {
    type V = Option<Seq<char>>;

    closed spec fn view(&self) -> Option<Seq<char>> {
        match self.captured {
            Some(p) => Some(p@),
            None => None,
        }
    }
}

/// The listener state after handling one connection carrying `bytes` while
/// in state `state`: the machine leaves `Listening` exactly when the
/// request yields a path, and every other connection is a self-loop.
pub open spec fn state_after_connection(state: Option<Seq<char>>, bytes: Seq<u8>) -> Option<
    Seq<char>,
>
    recommends
        state is None,
{
    path_of_request(bytes)
}

/// Capturing on two fresh listener instances with the same request bytes
/// ends in the same state, and so yields the same extracted path both
/// times: the outcome depends on the request alone.
pub proof fn lemma_capture_idempotent(
    state1: Option<Seq<char>>,
    state2: Option<Seq<char>>,
    bytes: Seq<u8>,
)
    requires
        state1 is None,
        state2 is None,
    ensures
        state_after_connection(state1, bytes) == state_after_connection(state2, bytes),
{
}

impl RedirectCapture {
    /// A fresh listener, still waiting for its first usable connection.
    pub fn new() -> (r: Self)
        ensures
            r@ is None,
    {
        RedirectCapture { captured: None }
    }

    /// Whether the listener is still waiting for a usable connection.
    pub fn is_listening(&self) -> (r: bool)
        ensures
            r == (self@ is None),
    {
        match self.captured {
            None => true,
            Some(_) => false,
        }
    }

    /// Handles the bytes read from one accepted connection.  The returned
    /// outcome says what to answer on that connection (200 for a capture,
    /// 400 for either defect); the listener stops listening exactly when a
    /// path was captured, and keeps listening on a defective request.
    pub fn on_connection(&mut self, buffer: &[u8]) -> (r: RequestOutcome)
        requires
            old(self)@ is None,
        ensures
            final(self)@ == state_after_connection(old(self)@, buffer@),
            r is Captured <==> final(self)@ is Some,
            r matches RequestOutcome::Captured(p) ==> final(self)@ == Some(p@),
            r is InvalidUtf8 <==> !valid_utf8(buffer@),
            r is MalformedRequest <==> valid_utf8(buffer@) && second_token(decode_utf8(buffer@))
                is None,
    {
        let outcome = parse_request(buffer);
        match &outcome {
            RequestOutcome::Captured(path) => {
                self.captured = Some(path.clone());
            },
            RequestOutcome::MalformedRequest => {},
            RequestOutcome::InvalidUtf8 => {},
        }
        outcome
    }

    /// Hands the captured path to the caller, once listening has ended.
    pub fn result(self) -> (r: Option<String>)
        ensures
            r is Some <==> self@ is Some,
            r matches Some(p) ==> self@ == Some(p@),
    {
        self.captured
    }
}

} // verus!
