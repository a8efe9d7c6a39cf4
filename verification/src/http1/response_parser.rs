//! The client-side response parser: status line, header lines, body.
use super::headers::header_insert;
use super::text::{
    crlf, header_name_from_bytes, header_value_from_bytes, header_value_valid, http11,
    spec_header_name, status_code_from_bytes, status_of,
};
use super::{HTTP1Response, HeaderList};
use crate::wire::{find, lemma_find, take_expect, take_until};
use vstd::prelude::*;
use vstd::slice::slice_to_vec;

verus! {

/// ` `.
pub open spec fn space() -> Seq<u8> {
    seq![0x20u8]
}

/// `: `.
pub open spec fn colon_space() -> Seq<u8> {
    seq![0x3au8, 0x20]
}

/// The header lines of a response, set one after the other onto `list`,
/// up to the empty line; and the body after it.
pub open spec fn response_headers_result(b: Seq<u8>, list: Seq<(Seq<u8>, Seq<u8>)>) -> Result<
    (Seq<(Seq<u8>, Seq<u8>)>, Seq<u8>),
    &'static str,
>
    decreases b.len(),
{
    match find(b, crlf()) {
        None => Err("Expected new line"),
        Some(i) => {
            proof {
                lemma_find(b, crlf());
            }
            let line = b.take(i);
            let next = b.skip(i + 2);
            if line.len() == 0 {
                Ok((list, next))
            } else {
                match find(line, colon_space()) {
                    None => Err("Expected header name before colon space"),
                    Some(c) => match spec_header_name(line.take(c)) {
                        None => Err("Expected header name to be deserializable"),
                        Some(n) => if !header_value_valid(line.skip(c + 2)) {
                            Err("Expected header value to be deserializable")
                        } else {
                            response_headers_result(next, header_insert(list, n, line.skip(c + 2)))
                        },
                    },
                }
            }
        },
    }
}

/// What a response says: the status code, the header list and the body.
pub open spec fn response_result(b: Seq<u8>) -> Result<(u16, Seq<(Seq<u8>, Seq<u8>)>, Seq<u8>), &'static str> {
    match find(b, space()) {
        None => Err("Expected a space in response"),
        Some(i) => if b.take(i) != http11() {
            Err("Expected HTTP/1.1")
        } else {
            let b1 = b.skip(i + 1);
            match find(b1, crlf()) {
                None => Err("Expected new line"),
                Some(j) => {
                    let sd = b1.take(j);
                    match find(sd, space()) {
                        None => Err("Expected space in status"),
                        Some(k) => match status_of(sd.take(k)) {
                            None => Err("Expected status code deserializable"),
                            Some(status) => match response_headers_result(b1.skip(j + 2), Seq::empty()) {
                                Err(e) => Err(e),
                                Ok((list, body)) => Ok((status, list, body)),
                            },
                        },
                    }
                },
            }
        },
    }
}

/// Parses an HTTP/1.1 response: the status line, the header lines up to
/// the empty line, and the rest as the body.
pub fn parse_http1_response(buff: &[u8]) -> (r: Result<HTTP1Response, &'static str>)
    ensures
        match response_result(buff@) {
            Ok((status, list, body)) => r matches Ok(resp) && resp.status == status && resp.headers@
                == list && resp.body@ == body,
            Err(e) => r matches Err(e2) && e2 == e,
        },
{
    let sp: [u8; 1] = [0x20u8];
    assert(sp@ =~= space());
    let nl: [u8; 2] = [0x0du8, 0x0a];
    assert(nl@ =~= crlf());
    let cs: [u8; 2] = [0x3au8, 0x20];
    assert(cs@ =~= colon_space());
    let version: [u8; 8] = [0x48u8, 0x54, 0x54, 0x50, 0x2f, 0x31, 0x2e, 0x31];
    assert(version@ =~= http11());
    proof {
        lemma_find(buff@, space());
    }
    let (http_version, rest) = take_until(buff, sp.as_slice(), "Expected a space in response")?;
    if !super::text::bytes_equal(http_version, version.as_slice()) {
        return Err("Expected HTTP/1.1");
    }
    let ghost i = http_version@.len() as int;
    assert(rest@.take(1) =~= buff@.subrange(i, i + 1));
    let (_space, rest) = take_expect(rest, sp.as_slice(), "Expected space")?;
    assert(rest@ =~= buff@.skip(i + 1));
    let ghost b1 = rest@;
    proof {
        lemma_find(b1, crlf());
    }
    let (status_and_description, rest) = take_until(rest, nl.as_slice(), "Expected new line")?;
    proof {
        lemma_find(status_and_description@, space());
    }
    let (status, _description) = take_until(
        status_and_description,
        sp.as_slice(),
        "Expected space in status",
    )?;
    let status = match status_code_from_bytes(status) {
        Some(s) => s,
        None => return Err("Expected status code deserializable"),
    };
    let ghost j = status_and_description@.len() as int;
    assert(rest@.take(2) =~= b1.subrange(j, j + 2));
    let (_new_line, rest) = take_expect(rest, nl.as_slice(), "Expected new line")?;
    assert(rest@ =~= b1.skip(j + 2));
    let mut headers = HeaderList::new();
    let mut block = rest;
    assert(response_result(buff@) == match response_headers_result(block@, headers@) {
        Err(e) => Err(e),
        Ok((list, body)) => Ok((status, list, body)),
    });
    loop
        invariant_except_break
            response_result(buff@) == match response_headers_result(block@, headers@) {
                Err(e) => Err(e),
                Ok((list, body)) => Ok((status, list, body)),
            },
        invariant
            nl@ == crlf(),
            cs@ == colon_space(),
        ensures
            response_result(buff@) == Ok::<(u16, Seq<(Seq<u8>, Seq<u8>)>, Seq<u8>), &'static str>(
                (status, headers@, block@),
            ),
        decreases block@.len(),
    {
        proof {
            lemma_find(block@, crlf());
        }
        let (next_header, new_block) = take_until(block, nl.as_slice(), "Expected new line")?;
        let ghost k = next_header@.len() as int;
        assert(new_block@.take(2) =~= block@.subrange(k, k + 2));
        let (_new_line, new_block) = take_expect(new_block, nl.as_slice(), "Expected new line")?;
        assert(new_block@ =~= block@.skip(k + 2));
        block = new_block;
        if next_header.len() == 0 {
            break;
        }
        proof {
            lemma_find(next_header@, colon_space());
        }
        let (header_name, rest_of_line) = take_until(
            next_header,
            cs.as_slice(),
            "Expected header name before colon space",
        )?;
        let ghost c = header_name@.len() as int;
        assert(rest_of_line@.take(2) =~= next_header@.subrange(c, c + 2));
        let (_colon_space, header_value) = take_expect(
            rest_of_line,
            cs.as_slice(),
            "Expected colon space in headers",
        )?;
        assert(header_value@ =~= next_header@.skip(c + 2));
        let header_name = match header_name_from_bytes(header_name) {
            Some(n) => n,
            None => return Err("Expected header name to be deserializable"),
        };
        if !header_value_from_bytes(header_value) {
            return Err("Expected header value to be deserializable");
        }
        headers.insert(header_name, slice_to_vec(header_value));
    }
    let body = slice_to_vec(block);
    Ok(HTTP1Response { status, headers, body })
}

} // verus!
