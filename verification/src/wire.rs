use vstd::prelude::*;
use vstd::seq_lib::lemma_concat_associative;
use crate::dispatch::spec_body;
use crate::dispatch::spec_content_type;
use crate::dispatch::spec_status;
use crate::dispatch::RequestKind;
use crate::response::content_length_prefix;
use crate::response::content_type_prefix;
use crate::response::header_end;
use crate::response::lemma_decimal_digits;
use crate::response::spec_decimal;
use crate::response::spec_render;
use crate::response::version_prefix;
use crate::text::spec_starts_with;

verus! {

/// The two-byte line break used between response lines.
pub open spec fn crlf() -> Seq<u8> {
    seq![13u8, 10u8]
}

/// The index of the first carriage-return/line-feed pair in `b`, or -1
/// when there is none.
pub open spec fn find_crlf(b: Seq<u8>) -> int
    decreases b.len(),
{
    if b.len() < 2 {
        -1
    } else if b[0] == 13 && b[1] == 10 {
        0
    } else if find_crlf(b.drop_first()) < 0 {
        -1
    } else {
        1 + find_crlf(b.drop_first())
    }
}

/// In a sequence that is a carriage-return-free piece, then a line break,
/// then anything, the first line break stands right after the piece.
proof fn lemma_find_crlf_after(a: Seq<u8>, rest: Seq<u8>)
    requires
        forall|i: int| 0 <= i < a.len() ==> a[i] != 13,
    ensures
        find_crlf(a + crlf() + rest) == a.len(),
    decreases a.len(),
{
    let b = a + crlf() + rest;
    if a.len() == 0 {
        assert(b[0] == 13 && b[1] == 10);
    } else {
        assert(b[0] == a[0]);
        lemma_find_crlf_after(a.drop_first(), rest);
        assert(b.drop_first() =~= a.drop_first() + crlf() + rest);
    }
}

/// Splitting a concatenation at the seam returns its two parts.
proof fn lemma_split_concat(a: Seq<u8>, b: Seq<u8>)
    ensures
        spec_starts_with(a + b, a),
        (a + b).subrange(0, a.len() as int) =~= a,
        (a + b).skip(a.len() as int) =~= b,
{
    assert((a + b).subrange(0, a.len() as int) =~= a);
    assert((a + b).skip(a.len() as int) =~= b);
}

/// Reads a rendered response back: status text, content type, and body.
///
/// The declared `Content-Length` must be exactly the decimal rendering of
/// the byte count of what follows the blank line; a response that
/// declares anything else is rejected.
pub open spec fn spec_parse(r: Seq<u8>) -> Option<(Seq<u8>, Seq<u8>, Seq<u8>)> {
    if !spec_starts_with(r, version_prefix()) {
        None
    } else {
        let r1 = r.skip(version_prefix().len() as int);
        let i = find_crlf(r1);
        if i < 0 {
            None
        } else {
            let status = r1.subrange(0, i);
            let r2 = r1.skip(i);
            if !spec_starts_with(r2, content_type_prefix()) {
                None
            } else {
                let r3 = r2.skip(content_type_prefix().len() as int);
                let j = find_crlf(r3);
                if j < 0 {
                    None
                } else {
                    let content_type = r3.subrange(0, j);
                    let r4 = r3.skip(j);
                    if !spec_starts_with(r4, content_length_prefix()) {
                        None
                    } else {
                        let r5 = r4.skip(content_length_prefix().len() as int);
                        let k = find_crlf(r5);
                        if k < 0 {
                            None
                        } else {
                            let digits = r5.subrange(0, k);
                            let r6 = r5.skip(k);
                            if !spec_starts_with(r6, header_end()) {
                                None
                            } else {
                                let body = r6.skip(header_end().len() as int);
                                if digits == spec_decimal(body.len()) {
                                    Some((status, content_type, body))
                                } else {
                                    None
                                }
                            }
                        }
                    }
                }
            }
        }
    }
}

/// A carriage-return-free piece followed by a header that opens with a
/// line break parses as one line: the first line break stands right after
/// the piece, and splitting there returns the piece and the remainder.
proof fn lemma_parse_step(a: Seq<u8>, header: Seq<u8>, rest: Seq<u8>)
    requires
        forall|i: int| 0 <= i < a.len() ==> a[i] != 13,
        header.len() >= 2,
        header[0] == 13,
        header[1] == 10,
    ensures
        find_crlf(a + header + rest) == a.len(),
        (a + header + rest).subrange(0, a.len() as int) =~= a,
        (a + header + rest).skip(a.len() as int) =~= header + rest,
{
    assert(a + header + rest =~= a + crlf() + (header.skip(2) + rest));
    lemma_find_crlf_after(a, header.skip(2) + rest);
    assert((a + header + rest).subrange(0, a.len() as int) =~= a);
    assert((a + header + rest).skip(a.len() as int) =~= header + rest);
}

/// Each fixed header piece opens with a line break.
proof fn lemma_header_shapes()
    ensures
        content_type_prefix().len() >= 2,
        content_type_prefix()[0] == 13,
        content_type_prefix()[1] == 10,
        content_length_prefix().len() >= 2,
        content_length_prefix()[0] == 13,
        content_length_prefix()[1] == 10,
        header_end().len() >= 2,
        header_end()[0] == 13,
        header_end()[1] == 10,
{
    reveal_strlit("\r\nContent-Type: ");
    reveal_strlit("\r\nContent-Length: ");
    reveal_strlit("\r\nConnection: close\r\n\r\n");
}

/// A rendered response, reassociated to the right around each seam.
proof fn lemma_render_assoc(status: Seq<u8>, content_type: Seq<u8>, body: Seq<u8>)
    ensures
        spec_render(status, content_type, body) == version_prefix() + (status
            + (content_type_prefix() + (content_type + (content_length_prefix() + (spec_decimal(
            body.len(),
        ) + (header_end() + body)))))),
{
    let vp = version_prefix();
    let ctp = content_type_prefix();
    let clp = content_length_prefix();
    let he = header_end();
    let dec = spec_decimal(body.len());
    let a = vp + status;
    let b = a + ctp;
    let c = b + content_type;
    let d = c + clp;
    let e = d + dec;
    lemma_concat_associative(e, he, body);
    lemma_concat_associative(d, dec, he + body);
    lemma_concat_associative(c, clp, dec + (he + body));
    lemma_concat_associative(b, content_type, clp + (dec + (he + body)));
    lemma_concat_associative(a, ctp, content_type + (clp + (dec + (he + body))));
    lemma_concat_associative(vp, status, ctp + (content_type + (clp + (dec + (he + body)))));
}

/// Rendering then parsing gives back exactly the status text, content
/// type, and body that went in, for every body and every status and
/// content type free of carriage returns; in particular the declared
/// `Content-Length` always equals the exact byte count of the body sent.
#[verifier::rlimit(100)]
pub proof fn lemma_render_parse_round_trip(status: Seq<u8>, content_type: Seq<u8>, body: Seq<u8>)
    requires
        forall|i: int| 0 <= i < status.len() ==> status[i] != 13,
        forall|i: int| 0 <= i < content_type.len() ==> content_type[i] != 13,
    ensures
        spec_parse(spec_render(status, content_type, body)) == Some((status, content_type, body)),
{
    lemma_header_shapes();
    let vp = version_prefix();
    let ctp = content_type_prefix();
    let clp = content_length_prefix();
    let he = header_end();
    let dec = spec_decimal(body.len());
    let r = spec_render(status, content_type, body);

    let s6 = he + body;
    let s5 = dec + s6;
    let s4 = clp + s5;
    let s3 = content_type + s4;
    let s2 = ctp + s3;
    let s1 = status + s2;
    lemma_render_assoc(status, content_type, body);
    assert(r == vp + s1);
    lemma_split_concat(vp, s1);

    lemma_concat_associative(status, ctp, s3);
    lemma_parse_step(status, ctp, s3);
    assert(find_crlf(s1) == status.len());
    assert(s1.subrange(0, status.len() as int) == status);
    assert(s1.skip(status.len() as int) == s2);
    lemma_split_concat(ctp, s3);

    lemma_concat_associative(content_type, clp, s5);
    lemma_parse_step(content_type, clp, s5);
    assert(find_crlf(s3) == content_type.len());
    assert(s3.subrange(0, content_type.len() as int) == content_type);
    assert(s3.skip(content_type.len() as int) == s4);
    lemma_split_concat(clp, s5);

    lemma_decimal_digits(body.len());
    lemma_concat_associative(dec, he, body);
    lemma_parse_step(dec, he, body);
    assert(find_crlf(s5) == dec.len());
    assert(s5.subrange(0, dec.len() as int) == dec);
    assert(s5.skip(dec.len() as int) == s6);
    lemma_split_concat(he, body);
}

/// Every row of the response table survives the wire round trip: for any
/// request and any relay state, rendering the chosen status, content type,
/// and body and parsing the result back returns exactly the three values
/// that were sent.
pub proof fn lemma_table_round_trip(k: RequestKind, on: bool)
    ensures
        spec_parse(
            spec_render(spec_status(k), spec_content_type(k), spec_body(k, on)),
        ) == Some((spec_status(k), spec_content_type(k), spec_body(k, on))),
{
    reveal_strlit("200 OK");
    reveal_strlit("404 Not Found");
    reveal_strlit("text/plain");
    reveal_strlit("text/html");
    let status = spec_status(k);
    let content_type = spec_content_type(k);
    assert(forall|i: int| 0 <= i < status.len() ==> status[i] != 13);
    assert(forall|i: int| 0 <= i < content_type.len() ==> content_type[i] != 13);
    lemma_render_parse_round_trip(status, content_type, spec_body(k, on));
}

} // verus!
