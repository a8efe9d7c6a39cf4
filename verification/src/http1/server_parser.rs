//! The server-side request parser: request line, header fields, body.
use super::headers::{header_insert, names_distinct, lemma_header_insert};
use super::text::{
    all_in, ascii_chars, colon_whitespace, colon_whitespace_bytes, crlf, crlf_crlf, get_method,
    header_name_from_bytes, header_value_from_bytes, header_value_valid, http11, largest_prefix,
    lemma_largest_prefix, lemma_leading_count, lemma_path_charset_ascii, method_name, path_charset,
    path_charset_bytes, request_method, spec_from_utf8, spec_header_name, spec_uri_valid,
    take_largest_charset, uri_valid, utf8_to_string, whitespace, whitespace_bytes,
};
use super::{HTTP1Request, HeaderList, Http1ParseError, Method};
use crate::wire::{find, lemma_find, maybe_expect, starts_with, take_expect, take_until};
use vstd::prelude::*;
use vstd::slice::slice_to_vec;

verus! {

/// What the start of a request line says: the method and the path
/// bytes, each followed by spaces or tabs; and what comes after them.
pub open spec fn request_start_result(hb: Seq<u8>) -> Result<(Method, Seq<u8>, Seq<u8>), &'static str> {
    let n0 = largest_prefix(hb, whitespace(), 0)->Some_0;
    let s1 = hb.skip(n0 as int);
    match request_method(s1) {
        None => Err("Expected a block-capital method"),
        Some(m) => {
            let s2 = s1.skip(method_name(m).len() as int);
            match largest_prefix(s2, whitespace(), 1) {
                None => Err("Expected whitespace after method"),
                Some(n2) => {
                    let s3 = s2.skip(n2 as int);
                    match largest_prefix(s3, path_charset(), 1) {
                        None => Err("We expected at least one character for the path"),
                        Some(np) => {
                            let path = s3.take(np as int);
                            let s4 = s3.skip(np as int);
                            if !spec_uri_valid(ascii_chars(path)) {
                                Err("Failed to parse path")
                            } else {
                                match largest_prefix(s4, whitespace(), 1) {
                                    None => Err("Expected whitespace after path"),
                                    Some(n4) => Ok((m, path, s4.skip(n4 as int))),
                                }
                            }
                        },
                    }
                },
            }
        },
    }
}

/// What the request line says: the method, the path bytes, and what
/// follows the line (the CRLF that ends it is dropped when present).
pub open spec fn request_line_result(hb: Seq<u8>) -> Result<(Method, Seq<u8>, Seq<u8>), &'static str> {
    match request_start_result(hb) {
        Err(e) => Err(e),
        Ok((m, path, s5)) => if !starts_with(s5, http11()) {
            Err("Expected version to be HTTP/1.1 with \\r\\n after")
        } else {
            let s6 = s5.skip(8);
            if starts_with(s6, crlf()) {
                Ok((m, path, s6.skip(2)))
            } else {
                Ok((m, path, s6))
            }
        },
    }
}

/// Splits off the longest run of `charset` bytes that [`largest_prefix`]
/// allows, or hands back `err`.
pub fn take_run<'a>(input: &'a [u8], charset: &[u8], min: usize, err: &'static str) -> (r: Result<
    (&'a [u8], &'a [u8]),
    &'static str,
>)
    ensures
        match largest_prefix(input@, charset@, min as nat) {
            Some(n) => r matches Ok((head, tail)) && head@ == input@.take(n as int) && tail@
                == input@.skip(n as int),
            None => r == Err::<(&[u8], &[u8]), &'static str>(err),
        },
{
    proof {
        lemma_largest_prefix(input@, charset@, min as nat);
    }
    take_largest_charset(input, charset, min, err)
}

/// Reads the method, the path and the whitespace after each, from the
/// start of a request line.
pub fn read_request_start(header_block: &[u8]) -> (r: Result<(Method, String, &[u8]), &'static str>)
    requires
        header_block@.len() > 0,
    ensures
        match request_start_result(header_block@) {
            Ok((m, path, rest)) => r matches Ok((m2, p, rest2)) && m2 == m && p@ == ascii_chars(path)
                && rest2@ == rest,
            Err(e) => r == Err::<(Method, String, &[u8]), &'static str>(e),
        },
{
    let ws = whitespace_bytes();
    let path_chars = path_charset_bytes();
    let (_whitespace, rest) = match take_run(
        header_block,
        ws.as_slice(),
        0,
        "Failed reading whitespace before method - should never happen",
    ) {
        Ok(split) => split,
        Err(e) => return Err(e),
    };
    let (method, rest) = get_method(rest)?;
    let (_whitespace, rest) = take_run(rest, ws.as_slice(), 1, "Expected whitespace after method")?;
    let rest3 = rest;
    let (path, rest) = take_run(
        rest3,
        path_chars.as_slice(),
        1,
        "We expected at least one character for the path",
    )?;
    proof {
        lemma_leading_count(rest3@, path_charset(), path@.len() as int);
        lemma_leading_count(header_block@, whitespace(), 0);
        assert(all_in(path@, path_charset()));
        lemma_path_charset_ascii(path@);
    }
    let path = match utf8_to_string(path) {
        Some(p) => p,
        None => return Err("Failed to parse path"),
    };
    if !uri_valid(path.as_str()) {
        return Err("Failed to parse path");
    }
    let (_whitespace, rest) = take_run(rest, ws.as_slice(), 1, "Expected whitespace after path")?;
    Ok((method, path, rest))
}

/// Get the first request line of an HTTP request.
pub fn get_request_line(header_block: &[u8]) -> (r: Result<((Method, String, &[u8]), &[u8]), &'static str>)
    requires
        header_block@.len() > 0,
    ensures
        match request_line_result(header_block@) {
            Ok((m, path, rest)) => r matches Ok(((m2, p, version), rest2)) && m2 == m && p@
                == ascii_chars(path) && version@ == http11() && rest2@ == rest,
            Err(e) => r == Err::<((Method, String, &[u8]), &[u8]), &'static str>(e),
        },
{
    let (method, path, rest) = read_request_start(header_block)?;
    let version_bytes: [u8; 8] = [0x48u8, 0x54, 0x54, 0x50, 0x2f, 0x31, 0x2e, 0x31];
    assert(version_bytes@ =~= http11());
    let (version, rest) = take_expect(
        rest,
        version_bytes.as_slice(),
        "Expected version to be HTTP/1.1 with \\r\\n after",
    )?;
    let crlf_bytes: [u8; 2] = [0x0du8, 0x0a];
    assert(crlf_bytes@ =~= crlf());
    let (_crlf, rest) = maybe_expect(rest, crlf_bytes.as_slice());
    Ok(((method, path, version), rest))
}

/// What a header line says: a name before the first colon, the colon and
/// the spaces or tabs after it, and the value.
pub open spec fn header_entry_result(line: Seq<u8>) -> Result<(Seq<u8>, Seq<u8>), &'static str> {
    match find(line, seq![0x3au8]) {
        None => Err("Expected a colon in the header line"),
        Some(i) => {
            let header = line.take(i);
            let rest = line.skip(i);
            match largest_prefix(rest, colon_whitespace(), 1) {
                None => Err("Expected whitespace after colon"),
                Some(n) => {
                    let value = rest.skip(n as int);
                    match spec_header_name(header) {
                        None => Err("Failed to parse header name"),
                        Some(name) => if spec_from_utf8(value) is None {
                            Err("Failed to parse header value as string")
                        } else if !header_value_valid(value) {
                            Err("Failed to parse header value as struct")
                        } else {
                            Ok((name, value))
                        },
                    }
                },
            }
        },
    }
}

/// Given a slice of just the bytes of a single header line, return a
/// header entry: the name in normal form, and the value.
pub fn get_header_entry(header_line: &[u8]) -> (r: Result<(Vec<u8>, Vec<u8>), &'static str>)
    ensures
        match header_entry_result(header_line@) {
            Ok((name, value)) => r matches Ok((n, v)) && n@ == name && v@ == value,
            Err(e) => r == Err::<(Vec<u8>, Vec<u8>), &'static str>(e),
        },
{
    proof {
        lemma_find(header_line@, seq![0x3au8]);
    }
    let colon: [u8; 1] = [0x3au8];
    assert(colon@ =~= seq![0x3au8]);
    let (header, rest) = take_until(header_line, colon.as_slice(), "Expected a colon in the header line")?;
    let cws = colon_whitespace_bytes();
    let (_colon_whitespace, value) = take_run(rest, cws.as_slice(), 1, "Expected whitespace after colon")?;
    let name = match header_name_from_bytes(header) {
        Some(name) => name,
        None => return Err("Failed to parse header name"),
    };
    match utf8_to_string(value) {
        Some(_) => {},
        None => return Err("Failed to parse header value as string"),
    }
    if !header_value_from_bytes(value) {
        return Err("Failed to parse header value as struct");
    }
    Ok((name, slice_to_vec(value)))
}

/// The header list that the lines of a header block give, set one after
/// the other onto `list`, and what is left of the block: the last line
/// when it has no CRLF, or nothing.
pub open spec fn header_map_result(hb: Seq<u8>, list: Seq<(Seq<u8>, Seq<u8>)>) -> Result<
    (Seq<(Seq<u8>, Seq<u8>)>, Seq<u8>),
    &'static str,
>
    decreases hb.len(),
{
    match find(hb, crlf()) {
        Some(i) => {
            proof {
                lemma_find(hb, crlf());
            }
            match header_entry_result(hb.take(i)) {
                Err(e) => Err(e),
                Ok((n, v)) => header_map_result(hb.skip(i + 2), header_insert(list, n, v)),
            }
        },
        None => if hb.len() == 0 {
            Ok((list, hb))
        } else {
            match header_entry_result(hb) {
                Err(e) => Err(e),
                Ok((n, v)) => Ok((header_insert(list, n, v), hb)),
            }
        },
    }
}

/// Given a slice of just the header bytes (without the request line and
/// the body), return a header list and what is left of the block.
pub fn get_header_map(header_block: &[u8]) -> (r: Result<(HeaderList, &[u8]), &'static str>)
    ensures
        match header_map_result(header_block@, Seq::empty()) {
            Ok((list, rest)) => r matches Ok((map, rest2)) && map@ == list && rest2@ == rest,
            Err(e) => r matches Err(e2) && e2 == e,
        },
{
    let mut header_map = HeaderList::new();
    let mut block = header_block;
    let crlf_bytes: [u8; 2] = [0x0du8, 0x0a];
    assert(crlf_bytes@ =~= crlf());
    loop
        invariant
            crlf_bytes@ == crlf(),
            header_map_result(header_block@, Seq::empty()) == header_map_result(block@, header_map@),
        decreases block@.len(),
    {
        proof {
            lemma_find(block@, crlf());
        }
        match take_until(block, crlf_bytes.as_slice(), "") {
            Ok((header_line, new_block)) => {
                let ghost i = header_line@.len() as int;
                assert(new_block@.take(2) =~= block@.subrange(i, i + 2));
                let (_crlf, new_block) = take_expect(
                    new_block,
                    crlf_bytes.as_slice(),
                    "Expected CRLF at the end of the header line",
                )?;
                assert(new_block@ =~= block@.skip(i + 2));
                block = new_block;
                let (h, v) = get_header_entry(header_line)?;
                header_map.insert(h, v);
            },
            Err(_) => {
                if block.len() != 0 {
                    let (h, v) = get_header_entry(block)?;
                    header_map.insert(h, v);
                }
                return Ok((header_map, block));
            },
        }
    }
}

/// What a whole request says: method, path, header list and body.
pub open spec fn parse_request_result(input: Seq<u8>) -> Result<
    (Method, Seq<u8>, Seq<(Seq<u8>, Seq<u8>)>, Seq<u8>),
    &'static str,
> {
    match find(input, crlf_crlf()) {
        None => Err("Expected header block to end with \\r\\n\\r\\n"),
        Some(i) => match request_line_result(input.take(i)) {
            Err(e) => Err(e),
            Ok((m, path, rest)) => match header_map_result(rest, Seq::empty()) {
                Err(e) => Err(e),
                Ok((list, _)) => Ok((m, path, list, input.skip(i + 4))),
            },
        },
    }
}

/// Parse request input, returning either a full error or the successful
/// result or partial error. The input must not begin with an empty line.
pub fn parse_request(input: &[u8]) -> (r: Result<
    Result<HTTP1Request, (HTTP1Request, Vec<Http1ParseError>)>,
    &'static str,
>)
    requires
        !starts_with(input@, crlf_crlf()),
    ensures
        match parse_request_result(input@) {
            Ok((m, path, list, body)) => r matches Ok(Ok(req)) && req.method == m && req.path@
                == ascii_chars(path) && req.headers@ == list && req.body@ == body,
            Err(e) => r matches Err(e2) && e2 == e,
        },
{
    proof {
        lemma_find(input@, crlf_crlf());
    }
    let sep: [u8; 4] = [0x0du8, 0x0a, 0x0d, 0x0a];
    assert(sep@ =~= crlf_crlf());
    let (header_block, body_block) = take_until(
        input,
        sep.as_slice(),
        "Expected header block to end with \\r\\n\\r\\n",
    )?;
    let ghost i = header_block@.len() as int;
    assert(body_block@.take(4) =~= input@.subrange(i, i + 4));
    let (_separator, body_block) = take_expect(
        body_block,
        sep.as_slice(),
        "Expected body block to start with \\r\\n",
    )?;
    proof {
        if header_block@.len() == 0 {
            assert(input@.take(4) =~= input@.subrange(0, 4));
        }
        assert(body_block@ =~= input@.skip(header_block@.len() + 4int));
    }
    let ((method, path, _version), header_block) = get_request_line(header_block)?;
    let (header_map, _should_be_empty) = get_header_map(header_block)?;
    let body = slice_to_vec(body_block);
    Ok(Ok(HTTP1Request { path, method, headers: header_map, body }))
}

} // verus!
