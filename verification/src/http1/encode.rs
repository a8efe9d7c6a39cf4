//! Writing requests and responses out as HTTP/1.1 bytes.
use super::text::{
    canonical_reason, crlf, http11, method_name, spec_canonical_reason, spec_uri_path, spec_uri_valid,
    uri_path, uri_valid,
};
use super::{HTTP1Request, HTTTP1Response, Method};
use crate::wire::push_all;
use vstd::prelude::*;
use vstd::utf8::encode_utf8;

verus! {

/// The decimal digits of `n`, most significant first, without leading
/// zeros (`0` is the single digit `0`).
pub open spec fn decimal(n: nat) -> Seq<u8>
    decreases n,
{
    if n < 10 {
        seq![(48 + n) as u8]
    } else {
        decimal(n / 10) + seq![(48 + n % 10) as u8]
    }
}

/// Appends the decimal digits of `n`.
pub fn push_decimal(out: &mut Vec<u8>, n: usize)
    ensures
        final(out)@ == old(out)@ + decimal(n as nat),
    decreases n,
{
    if n < 10 {
        out.push((48 + n) as u8);
    } else {
        push_decimal(out, n / 10);
        out.push((48 + n % 10) as u8);
    }
}

/// The three digits of a status code in `100..=999`.
pub open spec fn status_digits(status: u16) -> Seq<u8> {
    seq![(48 + status / 100) as u8, (48 + (status / 10) % 10) as u8, (48 + status % 10) as u8]
}

/// The header lines of a list: `name: value\r\n` for each entry, in order.
pub open spec fn headers_wire(list: Seq<(Seq<u8>, Seq<u8>)>) -> Seq<u8>
    decreases list.len(),
{
    if list.len() == 0 {
        Seq::empty()
    } else {
        headers_wire(list.drop_last()) + list.last().0 + seq![0x3au8, 0x20] + list.last().1 + crlf()
    }
}

/// Appends the header lines of the entries.
fn push_headers(out: &mut Vec<u8>, entries: &[super::HeaderEntry])
    ensures
        final(out)@ == old(out)@ + headers_wire(entries@.map_values(|e: super::HeaderEntry| (e.name@, e.value@))),
{
    let ghost list = entries@.map_values(|e: super::HeaderEntry| (e.name@, e.value@));
    let sep: [u8; 2] = [0x3au8, 0x20];
    let nl: [u8; 2] = [0x0du8, 0x0a];
    assert(nl@ =~= crlf());
    let mut i: usize = 0;
    while i < entries.len()
        invariant
            i <= entries@.len(),
            list == entries@.map_values(|e: super::HeaderEntry| (e.name@, e.value@)),
            sep@ == seq![0x3au8, 0x20],
            nl@ == crlf(),
            out@ == old(out)@ + headers_wire(list.take(i as int)),
        decreases entries@.len() - i,
    {
        push_all(out, entries[i].name.as_slice());
        push_all(out, sep.as_slice());
        push_all(out, entries[i].value.as_slice());
        push_all(out, nl.as_slice());
        i = i + 1;
        proof {
            let t = list.take(i as int);
            assert(t.drop_last() =~= list.take(i - 1));
            assert(t.last() == list[i - 1]);
            assert(old(out)@ + headers_wire(list.take(i as int)) =~= old(out)@ + headers_wire(
                list.take(i - 1),
            ) + entries@[i - 1].name@ + sep@ + entries@[i - 1].value@ + nl@);
        }
    }
    assert(list.take(i as int) =~= list);
}

/// The reason phrase that a response is written with.
pub open spec fn reason_bytes(status: u16) -> Seq<u8> {
    match spec_canonical_reason(status) {
        Some(reason) => encode_utf8(reason),
        None => encode_utf8("UNKNOWN REASON"@),
    }
}

/// The bytes of a response: status line, header lines, an empty line,
/// then the body.
pub open spec fn response_wire(status: u16, headers: Seq<(Seq<u8>, Seq<u8>)>, body: Seq<u8>) -> Seq<u8> {
    http11() + seq![0x20u8] + status_digits(status) + seq![0x20u8] + reason_bytes(status) + crlf()
        + headers_wire(headers) + crlf() + body
}

/// The bytes of a request: request line with the path part of the URI,
/// header lines, a `Content-Length` line, an empty line, then the body.
pub open spec fn request_wire(m: Method, path: Seq<char>, headers: Seq<(Seq<u8>, Seq<u8>)>, body: Seq<u8>) -> Seq<u8> {
    method_name(m) + seq![0x20u8] + encode_utf8(spec_uri_path(path)) + seq![0x20u8] + http11()
        + crlf() + headers_wire(headers) + content_length_name() + seq![0x3au8, 0x20] + decimal(
        body.len(),
    ) + crlf() + crlf() + body
}

/// `Content-Length`.
pub open spec fn content_length_name() -> Seq<u8> {
    seq![0x43u8, 0x6f, 0x6e, 0x74, 0x65, 0x6e, 0x74, 0x2d, 0x4c, 0x65, 0x6e, 0x67, 0x74, 0x68]
}

impl HTTTP1Response {
    /// Writes the response: `HTTP/1.1`, the status code and its reason
    /// phrase (`UNKNOWN REASON` when it has none), the header lines, an
    /// empty line and the body.
    pub fn write_onto(&self, writer: &mut Vec<u8>)
        requires
            100 <= self.status <= 999,
        ensures
            final(writer)@ == old(writer)@ + response_wire(self.status, self.headers@, self.body@),
    {
        let version: [u8; 8] = [0x48u8, 0x54, 0x54, 0x50, 0x2f, 0x31, 0x2e, 0x31];
        assert(version@ =~= http11());
        let sp: [u8; 1] = [0x20u8];
        let nl: [u8; 2] = [0x0du8, 0x0a];
        assert(nl@ =~= crlf());
        let digits: [u8; 3] = [
            (48 + self.status / 100) as u8,
            (48 + (self.status / 10) % 10) as u8,
            (48 + self.status % 10) as u8,
        ];
        assert(digits@ =~= status_digits(self.status));
        push_all(writer, version.as_slice());
        push_all(writer, sp.as_slice());
        push_all(writer, digits.as_slice());
        push_all(writer, sp.as_slice());
        match canonical_reason(self.status) {
            Some(reason) => push_all(writer, reason.as_bytes()),
            None => push_all(writer, "UNKNOWN REASON".as_bytes()),
        }
        push_all(writer, nl.as_slice());
        push_headers(writer, self.headers.entries());
        push_all(writer, nl.as_slice());
        push_all(writer, self.body.as_slice());
        assert(writer@ =~= old(writer)@ + response_wire(self.status, self.headers@, self.body@));
    }
}

impl HTTP1Request {
    /// Writes the request: method, the path part of the URI, `HTTP/1.1`,
    /// the header lines, a `Content-Length` line, an empty line and the
    /// body.
    /// Fails, writing nothing, when the path is not a valid URI.
    pub fn write_to(&self, writer: &mut Vec<u8>) -> (r: Result<(), ()>)
        ensures
            r is Ok <==> spec_uri_valid(self.path@),
            r is Ok ==> final(writer)@ == old(writer)@ + request_wire(
                self.method,
                self.path@,
                self.headers@,
                self.body@,
            ),
            r is Err ==> final(writer)@ == old(writer)@,
    {
        if !uri_valid(self.path.as_str()) {
            return Err(());
        }
        let sp: [u8; 1] = [0x20u8];
        let nl: [u8; 2] = [0x0du8, 0x0a];
        assert(nl@ =~= crlf());
        let version: [u8; 8] = [0x48u8, 0x54, 0x54, 0x50, 0x2f, 0x31, 0x2e, 0x31];
        assert(version@ =~= http11());
        let name: [u8; 14] = [
            0x43u8, 0x6f, 0x6e, 0x74, 0x65, 0x6e, 0x74, 0x2d, 0x4c, 0x65, 0x6e, 0x67, 0x74, 0x68,
        ];
        assert(name@ =~= content_length_name());
        let colon_space: [u8; 2] = [0x3au8, 0x20];
        push_all(writer, self.method.as_bytes());
        push_all(writer, sp.as_slice());
        let path = uri_path(self.path.as_str());
        push_all(writer, path.as_str().as_bytes());
        push_all(writer, sp.as_slice());
        push_all(writer, version.as_slice());
        push_all(writer, nl.as_slice());
        push_headers(writer, self.headers.entries());
        push_all(writer, name.as_slice());
        push_all(writer, colon_space.as_slice());
        push_decimal(writer, self.body.len());
        push_all(writer, nl.as_slice());
        push_all(writer, nl.as_slice());
        if self.body.len() != 0 {
            push_all(writer, self.body.as_slice());
        }
        assert(writer@ =~= old(writer)@ + request_wire(
            self.method,
            self.path@,
            self.headers@,
            self.body@,
        ));
        Ok(())
    }
}

} // verus!
