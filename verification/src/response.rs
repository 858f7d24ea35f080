use vstd::prelude::*;
use crate::text::ascii_bytes;
use crate::text::bytes_of_chars;
use crate::text::push_all;

verus! {

/// The decimal digits of `n`, most significant first, with no sign and no
/// leading zero (except for `n == 0`, which is the single digit `0`).
pub open spec fn spec_decimal(n: nat) -> Seq<u8>
    decreases n,
{
    if n < 10 {
        seq![(48 + n) as u8]
    } else {
        spec_decimal(n / 10) + seq![(48 + n % 10) as u8]
    }
}

/// Every byte of a decimal rendering is an ASCII digit, and there is at
/// least one of them.
pub proof fn lemma_decimal_digits(n: nat)
    ensures
        spec_decimal(n).len() >= 1,
        forall|i: int| 0 <= i < spec_decimal(n).len() ==> 48 <= #[trigger] spec_decimal(n)[i] <= 57,
    decreases n,
{
    if n >= 10 {
        lemma_decimal_digits(n / 10);
    }
}

/// Relies on itoa::Buffer::format, which prints exactly the decimal digits
/// of its argument, most significant first, with no leading zero.
#[verifier::external_body]
fn decimal_digits(n: usize) -> (r: Vec<u8>)
    ensures
        r@ == spec_decimal(n as nat),
{
    let mut buffer = itoa::Buffer::new();
    buffer.format(n).as_bytes().to_vec()
}

/// A canned response: status line text, content type, and body bytes.
///
/// The renderer frames these as a minimal HTTP/1.1 response with an exact
/// `Content-Length` and `Connection: close`.
pub struct Response {
    pub status: Vec<u8>,
    pub content_type: Vec<u8>,
    pub body: Vec<u8>,
}

/// The fixed text in front of the status.
pub open spec fn version_prefix() -> Seq<u8> {
    bytes_of_chars("HTTP/1.1 "@)
}

/// The fixed text between status and content type.
pub open spec fn content_type_prefix() -> Seq<u8> {
    bytes_of_chars("\r\nContent-Type: "@)
}

/// The fixed text between content type and the body length.
pub open spec fn content_length_prefix() -> Seq<u8> {
    bytes_of_chars("\r\nContent-Length: "@)
}

/// The fixed text between the body length and the body.
pub open spec fn header_end() -> Seq<u8> {
    bytes_of_chars("\r\nConnection: close\r\n\r\n"@)
}

/// The full wire form of a response: status line, `Content-Type`,
/// `Content-Length` equal to the body's exact byte count,
/// `Connection: close`, a blank line, then the body.
pub open spec fn spec_render(status: Seq<u8>, content_type: Seq<u8>, body: Seq<u8>) -> Seq<u8> {
    version_prefix() + status + content_type_prefix() + content_type + content_length_prefix()
        + spec_decimal(body.len()) + header_end() + body
}

impl Response {
    /// Serializes the response; the declared `Content-Length` is computed
    /// from the body itself, so it is exact by construction.
    pub fn render(&self) -> (r: Vec<u8>)
        ensures
            r@ == spec_render(self.status@, self.content_type@, self.body@),
    {
        let mut r: Vec<u8> = Vec::new();
        proof {
            reveal_strlit("HTTP/1.1 ");
            reveal_strlit("\r\nContent-Type: ");
            reveal_strlit("\r\nContent-Length: ");
            reveal_strlit("\r\nConnection: close\r\n\r\n");
        }
        let part = ascii_bytes("HTTP/1.1 ");
        push_all(&mut r, part.as_slice());
        push_all(&mut r, self.status.as_slice());
        let part = ascii_bytes("\r\nContent-Type: ");
        push_all(&mut r, part.as_slice());
        push_all(&mut r, self.content_type.as_slice());
        let part = ascii_bytes("\r\nContent-Length: ");
        push_all(&mut r, part.as_slice());
        let digits = decimal_digits(self.body.len());
        push_all(&mut r, digits.as_slice());
        let part = ascii_bytes("\r\nConnection: close\r\n\r\n");
        push_all(&mut r, part.as_slice());
        push_all(&mut r, self.body.as_slice());
        proof {
            assert(r@ =~= spec_render(self.status@, self.content_type@, self.body@));
        }
        r
    }
}

} // verus!
