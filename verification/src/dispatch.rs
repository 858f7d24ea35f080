use vstd::prelude::*;
use vstd::utf8::valid_utf8;
use crate::relay::RelayState;
use crate::response::Response;
use crate::text::ascii_bytes;
use crate::text::bytes_of_chars;
use crate::text::spec_starts_with;
use crate::text::starts_with_bytes;

verus! {

/// What one received buffer asks for, as decided by prefix matching its
/// first bytes against the recognized request lines.
#[derive(Clone, Copy, Debug, PartialEq, Eq, Structural)]
pub enum RequestKind {
    /// `POST /on HTTP/1.1`: switch the relay on.
    TurnOn,
    /// `POST /off HTTP/1.1`: switch the relay off.
    TurnOff,
    /// `POST /status HTTP/1.1`: report the relay state.
    QueryStatus,
    /// `GET / HTTP/1.1`: the static page.
    Index,
    /// Anything else, including buffers that are not valid UTF-8.
    Unknown,
}

pub open spec fn prefix_on() -> Seq<u8> {
    bytes_of_chars("POST /on HTTP/1.1"@)
}

pub open spec fn prefix_off() -> Seq<u8> {
    bytes_of_chars("POST /off HTTP/1.1"@)
}

pub open spec fn prefix_status() -> Seq<u8> {
    bytes_of_chars("POST /status HTTP/1.1"@)
}

pub open spec fn prefix_index() -> Seq<u8> {
    bytes_of_chars("GET / HTTP/1.1"@)
}

/// The request a buffer is taken to carry.
///
/// A buffer that is not valid UTF-8 is never matched: the received text is
/// decoded before matching, and an undecodable buffer degrades to the
/// unrecognized case rather than failing.
pub open spec fn spec_classify(b: Seq<u8>) -> RequestKind {
    if !valid_utf8(b) {
        RequestKind::Unknown
    } else if spec_starts_with(b, prefix_on()) {
        RequestKind::TurnOn
    } else if spec_starts_with(b, prefix_off()) {
        RequestKind::TurnOff
    } else if spec_starts_with(b, prefix_status()) {
        RequestKind::QueryStatus
    } else if spec_starts_with(b, prefix_index()) {
        RequestKind::Index
    } else {
        RequestKind::Unknown
    }
}

/// Relies on core::str::from_utf8, which accepts a byte slice exactly when
/// the bytes are valid UTF-8.
#[verifier::external_body]
fn utf8_ok(b: &[u8]) -> (r: bool)
    ensures
        r == valid_utf8(b@),
{
    core::str::from_utf8(b).is_ok()
}

/// Classifies one received buffer against the recognized request lines.
pub fn classify(req: &[u8]) -> (k: RequestKind)
    ensures
        k == spec_classify(req@),
{
    if !utf8_ok(req) {
        return RequestKind::Unknown;
    }
    proof {
        reveal_strlit("POST /on HTTP/1.1");
        reveal_strlit("POST /off HTTP/1.1");
        reveal_strlit("POST /status HTTP/1.1");
        reveal_strlit("GET / HTTP/1.1");
    }
    let p = ascii_bytes("POST /on HTTP/1.1");
    if starts_with_bytes(req, p.as_slice()) {
        return RequestKind::TurnOn;
    }
    let p = ascii_bytes("POST /off HTTP/1.1");
    if starts_with_bytes(req, p.as_slice()) {
        return RequestKind::TurnOff;
    }
    let p = ascii_bytes("POST /status HTTP/1.1");
    if starts_with_bytes(req, p.as_slice()) {
        return RequestKind::QueryStatus;
    }
    let p = ascii_bytes("GET / HTTP/1.1");
    if starts_with_bytes(req, p.as_slice()) {
        return RequestKind::Index;
    }
    RequestKind::Unknown
}

/// The relay state after acting on a request: a switch command forces the
/// commanded level, everything else leaves the relay alone.
pub open spec fn spec_relay_after(on: bool, k: RequestKind) -> bool {
    match k {
        RequestKind::TurnOn => true,
        RequestKind::TurnOff => false,
        _ => on,
    }
}

/// The status line for a request: recognized lines answer `200 OK`,
/// everything else `404 Not Found`.
pub open spec fn spec_status(k: RequestKind) -> Seq<u8> {
    if k == RequestKind::Unknown {
        bytes_of_chars("404 Not Found"@)
    } else {
        bytes_of_chars("200 OK"@)
    }
}

/// The content type for a request: the static page is HTML, everything
/// else plain text.
pub open spec fn spec_content_type(k: RequestKind) -> Seq<u8> {
    if k == RequestKind::Index {
        bytes_of_chars("text/html"@)
    } else {
        bytes_of_chars("text/plain"@)
    }
}

/// The static page served for the root path.
pub open spec fn spec_index_page() -> Seq<u8> {
    bytes_of_chars(
        "<!DOCTYPE html><html><head><title>Relay</title></head><body><h1>Relay control</h1><p>POST /on, /off or /status.</p></body></html>"@,
    )
}

/// The body for a request, given the relay state at dispatch time (for a
/// switch command, the state after the switch).
pub open spec fn spec_body(k: RequestKind, on: bool) -> Seq<u8> {
    match k {
        RequestKind::TurnOn => bytes_of_chars("Powered on!"@),
        RequestKind::TurnOff => bytes_of_chars("Powered off!"@),
        RequestKind::QueryStatus => if on {
            bytes_of_chars("1"@)
        } else {
            bytes_of_chars("0"@)
        },
        RequestKind::Index => spec_index_page(),
        RequestKind::Unknown => bytes_of_chars("POST /on, /off, /status."@),
    }
}

/// Acts on one received buffer: switches the relay as commanded and picks
/// the canned response row for the matched request line, or the not-found
/// row with a usage hint when nothing matches.
pub fn dispatch(relay: &mut RelayState, req: &[u8]) -> (r: Response)
    ensures
        final(relay).is_on() == spec_relay_after(old(relay).is_on(), spec_classify(req@)),
        r.status@ == spec_status(spec_classify(req@)),
        r.content_type@ == spec_content_type(spec_classify(req@)),
        r.body@ == spec_body(spec_classify(req@), final(relay).is_on()),
{
    let k = classify(req);
    proof {
        reveal_strlit("200 OK");
        reveal_strlit("404 Not Found");
        reveal_strlit("text/plain");
        reveal_strlit("text/html");
        reveal_strlit("Powered on!");
        reveal_strlit("Powered off!");
        reveal_strlit("1");
        reveal_strlit("0");
        reveal_strlit("POST /on, /off, /status.");
        reveal_strlit(
            "<!DOCTYPE html><html><head><title>Relay</title></head><body><h1>Relay control</h1><p>POST /on, /off or /status.</p></body></html>",
        );
    }
    match k {
        RequestKind::TurnOn => {
            relay.set(true);
            Response {
                status: ascii_bytes("200 OK"),
                content_type: ascii_bytes("text/plain"),
                body: ascii_bytes("Powered on!"),
            }
        },
        RequestKind::TurnOff => {
            relay.set(false);
            Response {
                status: ascii_bytes("200 OK"),
                content_type: ascii_bytes("text/plain"),
                body: ascii_bytes("Powered off!"),
            }
        },
        RequestKind::QueryStatus => {
            let body = if relay.get() {
                ascii_bytes("1")
            } else {
                ascii_bytes("0")
            };
            Response {
                status: ascii_bytes("200 OK"),
                content_type: ascii_bytes("text/plain"),
                body,
            }
        },
        RequestKind::Index => {
            Response {
                status: ascii_bytes("200 OK"),
                content_type: ascii_bytes("text/html"),
                body: ascii_bytes(
                    "<!DOCTYPE html><html><head><title>Relay</title></head><body><h1>Relay control</h1><p>POST /on, /off or /status.</p></body></html>",
                ),
            }
        },
        RequestKind::Unknown => {
            Response {
                status: ascii_bytes("404 Not Found"),
                content_type: ascii_bytes("text/plain"),
                body: ascii_bytes("POST /on, /off, /status."),
            }
        },
    }
}

/// An empty buffer, and any buffer that is not valid UTF-8, matches no
/// request line: both take the not-found row.
pub proof fn lemma_unmatched_is_unknown(b: Seq<u8>)
    requires
        b.len() == 0 || !valid_utf8(b),
    ensures
        spec_classify(b) == RequestKind::Unknown,
{
    reveal_strlit("POST /on HTTP/1.1");
    reveal_strlit("POST /off HTTP/1.1");
    reveal_strlit("POST /status HTTP/1.1");
    reveal_strlit("GET / HTTP/1.1");
}

/// Switch commands are idempotent and a status query is read-only: a
/// power-on always leaves the relay ON, a power-off always leaves it OFF,
/// repeating either changes nothing more, and a query keeps the state.
pub proof fn lemma_dispatch_idempotent(on: bool)
    ensures
        spec_relay_after(on, RequestKind::TurnOn) == true,
        spec_relay_after(
            spec_relay_after(on, RequestKind::TurnOn),
            RequestKind::TurnOn,
        ) == spec_relay_after(on, RequestKind::TurnOn),
        spec_relay_after(on, RequestKind::TurnOff) == false,
        spec_relay_after(
            spec_relay_after(on, RequestKind::TurnOff),
            RequestKind::TurnOff,
        ) == spec_relay_after(on, RequestKind::TurnOff),
        spec_relay_after(on, RequestKind::QueryStatus) == on,
{
}

/// A status query right after a power command reports that command: `1`
/// after power-on, `0` after power-off, whatever the state before.
pub proof fn lemma_status_reports_last_command(on: bool)
    ensures
        spec_body(
            RequestKind::QueryStatus,
            spec_relay_after(on, RequestKind::TurnOn),
        ) == bytes_of_chars("1"@),
        spec_body(
            RequestKind::QueryStatus,
            spec_relay_after(on, RequestKind::TurnOff),
        ) == bytes_of_chars("0"@),
{
}

} // verus!
