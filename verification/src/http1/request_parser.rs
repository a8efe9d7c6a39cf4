//! The first request parser: request line, then a header block that is
//! skipped, then the body.
use super::server_parser::{read_request_start, request_start_result};
use super::text::{ascii_chars, crlf_crlf};
use super::{HTTP1Request, HeaderList, Http1ParseError, Method};
use crate::wire::{find, lemma_find, starts_with, take_expect, take_until};
use vstd::prelude::*;
use vstd::slice::slice_to_vec;

verus! {

/// `HTTP/1.1\r\n`.
pub open spec fn version_line() -> Seq<u8> {
    seq![0x48u8, 0x54, 0x54, 0x50, 0x2f, 0x31, 0x2e, 0x31, 0x0d, 0x0a]
}

/// What a request says to this parser: method, path and body. The version
/// must follow the path with its CRLF, and a header block ended by an
/// empty line must come before the body; the header lines themselves are
/// not read.
pub open spec fn first_parse_result(input: Seq<u8>) -> Result<(Method, Seq<u8>, Seq<u8>), &'static str> {
    match request_start_result(input) {
        Err(e) => Err(e),
        Ok((m, path, s5)) => if !starts_with(s5, version_line()) {
            Err("Expected version to be HTTP/1.1 with \\r\\n after")
        } else {
            let s6 = s5.skip(10);
            match find(s6, crlf_crlf()) {
                None => Err("Expected header block to end with \\r\\n\\r\\n"),
                Some(i) => Ok((m, path, s6.skip(i + 4))),
            }
        },
    }
}

/// Parse request input, returning either a full error or the successful
/// result or partial error. The headers of the result are empty. The
/// input must not be empty.
pub fn parse_request(input: &[u8]) -> (r: Result<
    Result<HTTP1Request, (HTTP1Request, Vec<Http1ParseError>)>,
    &'static str,
>)
    requires
        input@.len() > 0,
    ensures
        match first_parse_result(input@) {
            Ok((m, path, body)) => r matches Ok(Ok(req)) && req.method == m && req.path@
                == ascii_chars(path) && req.headers@.len() == 0 && req.body@ == body,
            Err(e) => r matches Err(e2) && e2 == e,
        },
{
    let (method, path, rest) = read_request_start(input)?;
    let version: [u8; 10] = [0x48u8, 0x54, 0x54, 0x50, 0x2f, 0x31, 0x2e, 0x31, 0x0d, 0x0a];
    assert(version@ =~= version_line());
    let (_version, rest) = take_expect(
        rest,
        version.as_slice(),
        "Expected version to be HTTP/1.1 with \\r\\n after",
    )?;
    proof {
        lemma_find(rest@, crlf_crlf());
    }
    let sep: [u8; 4] = [0x0du8, 0x0a, 0x0d, 0x0a];
    assert(sep@ =~= crlf_crlf());
    let (_header_block, rest) = take_until(
        rest,
        sep.as_slice(),
        "Expected header block to end with \\r\\n\\r\\n",
    )?;
    let ghost before = rest@;
    assert(rest@.take(4) =~= sep@);
    let (_separator, body_block) = take_expect(
        rest,
        sep.as_slice(),
        "Expected body block to start with \\r\\n",
    )?;
    let body = slice_to_vec(body_block);
    Ok(Ok(HTTP1Request { path, method, headers: HeaderList::new(), body }))
}

} // verus!
