//! What holds of the HTTP/1.1 functions taken together: a response that is
//! written out reads back as the same status, headers and body.
use super::encode::{
    content_length_name, decimal, headers_wire, reason_bytes, request_wire, response_wire, status_digits,
};
use super::headers::{header_insert, lemma_name_index, name_index, names_distinct};
use super::response_parser::{colon_space, response_headers_result, response_result, space};
use super::server_parser::{
    header_entry_result, header_map_result, parse_request_result, request_line_result, request_start_result,
};
use super::text::{
    all_in, ascii_chars, colon_whitespace, crlf, crlf_crlf, header_value_byte, header_value_valid, http11,
    largest_prefix, leading_count, lemma_method_at_start, method_name, path_charset, request_method,
    spec_from_utf8, spec_header_name, spec_uri_valid, status_of, whitespace,
};
use super::Method;
use crate::wire::{find, first_occurrence, lemma_find, occurs, occurs_at, starts_with};
use vstd::prelude::*;
use vstd::utf8::encode_utf8;

verus! {

/// When `x` does not hold a one- or two-byte pattern whose bytes differ,
/// the first occurrence of the pattern after `x` is right after it.
pub proof fn lemma_find_after(x: Seq<u8>, p: Seq<u8>, rest: Seq<u8>)
    requires
        1 <= p.len() <= 2,
        p.len() == 2 ==> p[0] != p[1],
        !occurs(x, p),
    ensures
        find(x + p + rest, p) == Some(x.len() as int),
{
    let s = x + p + rest;
    lemma_find(s, p);
    assert(s.subrange(x.len() as int, x.len() + p.len() as int) =~= p);
    assert(occurs_at(s, p, x.len() as int));
    assert forall|j: int| 0 <= j < x.len() implies !occurs_at(s, p, j) by {
        if occurs_at(s, p, j) {
            if j + p.len() <= x.len() {
                assert(x.subrange(j, j + p.len()) =~= s.subrange(j, j + p.len()));
                assert(occurs_at(x, p, j));
            } else {
                assert(s.subrange(j, j + p.len())[1] == s[j + 1]);
                assert(s[j + 1] == p[0]);
            }
        }
    }
    match find(s, p) {
        Some(i) => {
            assert(first_occurrence(s, p, i));
            if i > x.len() {
                assert(!occurs_at(s, p, x.len() as int));
            }
        },
        None => {
            assert(!occurs(s, p));
        },
    }
}

/// A two-byte pattern is in `a + b` only if it is in `a`, in `b`, or spans
/// the last byte of `a` and the first of `b`.
pub proof fn lemma_no_occurs_concat(a: Seq<u8>, b: Seq<u8>, p: Seq<u8>)
    requires
        p.len() == 2,
        !occurs(a, p),
        !occurs(b, p),
        !(a.len() > 0 && b.len() > 0 && a.last() == p[0] && b[0] == p[1]),
    ensures
        !occurs(a + b, p),
{
    let s = a + b;
    assert forall|j: int| !occurs_at(s, p, j) by {
        if occurs_at(s, p, j) {
            if j + 2 <= a.len() {
                assert(a.subrange(j, j + 2) =~= s.subrange(j, j + 2));
                assert(occurs_at(a, p, j));
            } else if j >= a.len() {
                assert(b.subrange(j - a.len(), j - a.len() + 2) =~= s.subrange(j, j + 2));
                assert(occurs_at(b, p, j - a.len()));
            } else {
                assert(s.subrange(j, j + 2)[0] == a.last());
                assert(s.subrange(j, j + 2)[1] == b[0]);
            }
        }
    }
}

/// A pattern whose first byte the bytes never hold does not occur in them.
pub proof fn lemma_no_occurs_without_first(s: Seq<u8>, p: Seq<u8>)
    requires
        p.len() >= 1,
        forall|i: int| 0 <= i < s.len() ==> s[i] != p[0],
    ensures
        !occurs(s, p),
{
    assert forall|j: int| !occurs_at(s, p, j) by {
        if occurs_at(s, p, j) {
            assert(s.subrange(j, j + p.len())[0] == s[j]);
        }
    }
}

/// A header that reads back as it was written: `http` keeps its name as it
/// is, the name holds neither `: ` nor a line break, and the value is a
/// valid header value.
pub open spec fn header_round_trips(name: Seq<u8>, value: Seq<u8>) -> bool {
    &&& spec_header_name(name) == Some(name)
    &&& !occurs(name, colon_space())
    &&& !occurs(name, crlf())
    &&& header_value_valid(value)
}

/// The line of one header, without its line break.
pub open spec fn header_text(name: Seq<u8>, value: Seq<u8>) -> Seq<u8> {
    name + colon_space() + value
}

/// The header lines of a list, taken from the front.
proof fn lemma_headers_wire_front(h: Seq<(Seq<u8>, Seq<u8>)>)
    requires
        h.len() > 0,
    ensures
        headers_wire(h) == header_text(h[0].0, h[0].1) + crlf() + headers_wire(h.skip(1)),
    decreases h.len(),
{
    if h.len() == 1 {
        assert(h.drop_last() =~= Seq::<(Seq<u8>, Seq<u8>)>::empty());
        assert(h.skip(1) =~= Seq::<(Seq<u8>, Seq<u8>)>::empty());
        assert(headers_wire(h.drop_last()) =~= Seq::<u8>::empty());
        assert(h.last() == h[0]);
        assert(headers_wire(h) =~= header_text(h[0].0, h[0].1) + crlf());
    } else {
        lemma_headers_wire_front(h.drop_last());
        assert(h.skip(1).drop_last() =~= h.drop_last().skip(1));
        assert(h.skip(1).last() == h.last());
        assert(headers_wire(h) =~= header_text(h[0].0, h[0].1) + crlf() + headers_wire(h.skip(1)));
    }
}

/// The line of a header that reads back holds no line break.
proof fn lemma_header_text_no_crlf(name: Seq<u8>, value: Seq<u8>)
    requires
        header_round_trips(name, value),
    ensures
        !occurs(header_text(name, value), crlf()),
{
    assert forall|i: int| 0 <= i < value.len() implies value[i] != crlf()[0] by {
        assert(header_value_byte(value[i]));
    }
    lemma_no_occurs_without_first(value, crlf());
    lemma_no_occurs_without_first(colon_space(), crlf());
    lemma_no_occurs_concat(name, colon_space(), crlf());
    lemma_no_occurs_concat(name + colon_space(), value, crlf());
}

/// The header lines of `h` from the `k`-th on, then an empty line and a
/// body, read onto the first `k` headers give all of `h` and the body.
proof fn lemma_headers_parse(h: Seq<(Seq<u8>, Seq<u8>)>, k: int, body: Seq<u8>)
    requires
        names_distinct(h),
        0 <= k <= h.len(),
        forall|i: int| 0 <= i < h.len() ==> header_round_trips(#[trigger] h[i].0, h[i].1),
    ensures
        response_headers_result(headers_wire(h.skip(k)) + crlf() + body, h.take(k)) == Ok::<
            (Seq<(Seq<u8>, Seq<u8>)>, Seq<u8>),
            &'static str,
        >((h, body)),
    decreases h.len() - k,
{
    let b = headers_wire(h.skip(k)) + crlf() + body;
    if k == h.len() {
        assert(h.skip(k) =~= Seq::<(Seq<u8>, Seq<u8>)>::empty());
        assert(b =~= Seq::<u8>::empty() + crlf() + body);
        lemma_no_occurs_without_first(Seq::<u8>::empty(), crlf());
        lemma_find_after(Seq::<u8>::empty(), crlf(), body);
        assert(b.take(0) =~= Seq::<u8>::empty());
        assert(b.skip(2) =~= body);
        assert(h.take(k) =~= h);
    } else {
        let name = h[k].0;
        let value = h[k].1;
        let x = header_text(name, value);
        let next = headers_wire(h.skip(k + 1)) + crlf() + body;
        lemma_headers_wire_front(h.skip(k));
        assert(h.skip(k).skip(1) =~= h.skip(k + 1));
        assert(b =~= x + crlf() + next);
        assert(header_round_trips(name, value));
        lemma_header_text_no_crlf(name, value);
        lemma_find_after(x, crlf(), next);
        assert(b.take(x.len() as int) =~= x);
        assert(b.skip(x.len() + 2int) =~= next);
        lemma_find_after(name, colon_space(), value);
        assert(x.take(name.len() as int) =~= name);
        assert(x.skip(name.len() + 2int) =~= value);
        lemma_name_index(h.take(k), name);
        if let Some(i) = name_index(h.take(k), name) {
            assert(h[i as int].0 == h[k].0);
        }
        assert(header_insert(h.take(k), name, value) =~= h.take(k + 1));
        lemma_headers_parse(h, k + 1, body);
    }
}

/// A response written out reads back as the same status, headers and body:
/// what `write_onto` writes, `parse_http1_response` gives back. Holds when
/// the reason phrase holds no line break and every header reads back (see
/// `header_round_trips`); a header name that `http` writes otherwise (upper
/// case, say) comes back as `http` writes it.
pub proof fn lemma_response_roundtrip(
    status: u16,
    headers: Seq<(Seq<u8>, Seq<u8>)>,
    body: Seq<u8>,
)
    requires
        100 <= status <= 999,
        names_distinct(headers),
        forall|i: int| 0 <= i < headers.len() ==> header_round_trips(#[trigger] headers[i].0, headers[i].1),
        !occurs(reason_bytes(status), crlf()),
    ensures
        response_result(response_wire(status, headers, body)) == Ok::<
            (u16, Seq<(Seq<u8>, Seq<u8>)>, Seq<u8>),
            &'static str,
        >((status, headers, body)),
{
    let digits = status_digits(status);
    let reason = reason_bytes(status);
    let tail = headers_wire(headers) + crlf() + body;
    let b = response_wire(status, headers, body);
    let status_text = digits + space() + reason;
    let b1 = status_text + crlf() + tail;
    assert(b =~= http11() + space() + b1);
    lemma_no_occurs_without_first(http11(), space());
    lemma_find_after(http11(), space(), b1);
    assert(b.take(8) =~= http11());
    assert(b.skip(9) =~= b1);
    lemma_no_occurs_without_first(digits, crlf());
    lemma_no_occurs_without_first(space(), crlf());
    lemma_no_occurs_concat(digits, space(), crlf());
    lemma_no_occurs_concat(digits + space(), reason, crlf());
    lemma_find_after(status_text, crlf(), tail);
    assert(b1.take(status_text.len() as int) =~= status_text);
    assert(b1.skip(status_text.len() + 2int) =~= tail);
    lemma_no_occurs_without_first(digits, space());
    lemma_find_after(digits, space(), reason);
    assert(status_text.take(3) =~= digits);
    assert(status_of(digits) == Some(status));
    lemma_headers_parse(headers, 0, body);
    assert(headers.take(0) =~= Seq::<(Seq<u8>, Seq<u8>)>::empty());
    assert(headers.skip(0) =~= headers);
}

/// Every line feed of `s` but the last byte is followed by something other
/// than a carriage return: `s` holds no empty line inside it.
pub open spec fn no_blank_line(s: Seq<u8>) -> bool {
    forall|k: int| 0 <= k < s.len() - 1 && #[trigger] s[k] == 10 ==> s[k + 1] != 13
}

/// No byte of `s` is a carriage return or a line feed.
pub open spec fn no_line_break(s: Seq<u8>) -> bool {
    forall|i: int| 0 <= i < s.len() ==> #[trigger] s[i] != 10 && s[i] != 13
}

proof fn lemma_no_blank_line_concat(a: Seq<u8>, b: Seq<u8>)
    requires
        no_blank_line(a),
        no_blank_line(b),
        a.len() > 0 && a.last() == 10 && b.len() > 0 ==> b[0] != 13,
    ensures
        no_blank_line(a + b),
{
    let s = a + b;
    assert forall|k: int| 0 <= k < s.len() - 1 && #[trigger] s[k] == 10 implies s[k + 1] != 13 by {
        if k < a.len() - 1 {
            assert(a[k] == 10);
        } else if k == a.len() - 1 {
            assert(a.last() == 10);
        } else {
            assert(b[k - a.len()] == 10);
        }
    }
}

proof fn lemma_no_line_break(s: Seq<u8>)
    requires
        no_line_break(s),
    ensures
        no_blank_line(s),
        !occurs(s, crlf()),
{
    lemma_no_occurs_without_first(s, crlf());
}

/// When `a` holds no empty line and ends in neither a carriage return nor
/// a line feed, the first empty line after it is right after it.
proof fn lemma_find_blank_line(a: Seq<u8>, rest: Seq<u8>)
    requires
        a.len() > 0,
        no_blank_line(a),
        a.last() != 10,
        a.last() != 13,
    ensures
        find(a + crlf_crlf() + rest, crlf_crlf()) == Some(a.len() as int),
{
    let p = crlf_crlf();
    let s = a + p + rest;
    assert(s.subrange(a.len() as int, a.len() + 4int) =~= p);
    assert forall|j: int| 0 <= j < a.len() implies !occurs_at(s, p, j) by {
        if occurs_at(s, p, j) {
            let t = s.subrange(j, j + 4);
            assert(t[0] == 13 && t[1] == 10 && t[2] == 13);
            if j + 2 < a.len() {
                assert(a[j + 1] == t[1] && a[j + 2] == t[2]);
                assert(a[j + 1] == 10 ==> a[j + 2] != 13);
            } else if j + 2 == a.len() {
                assert(a.last() == t[1]);
            } else {
                assert(a.last() == t[0]);
            }
        }
    }
    lemma_find_first(s, p, a.len() as int);
}

/// A position where the pattern occurs with none before it is where `find`
/// finds it.
proof fn lemma_find_first(s: Seq<u8>, p: Seq<u8>, i: int)
    requires
        occurs_at(s, p, i),
        forall|j: int| 0 <= j < i ==> !occurs_at(s, p, j),
    ensures
        find(s, p) == Some(i),
{
    lemma_find(s, p);
    match find(s, p) {
        Some(k) => {
            assert(first_occurrence(s, p, k));
            if k > i {
                assert(!occurs_at(s, p, i));
            }
        },
        None => {
            assert(!occurs(s, p));
        },
    }
}

/// The leading run of `charset` bytes of `a + b` is `a`, when every byte of
/// `a` is in the set and the first byte of `b` is not.
proof fn lemma_leading_count_concat(a: Seq<u8>, b: Seq<u8>, charset: Seq<u8>)
    requires
        all_in(a, charset),
        b.len() > 0,
        !charset.contains(b[0]),
    ensures
        leading_count(a + b, charset) == a.len(),
    decreases a.len(),
{
    if a.len() == 0 {
        assert(a + b =~= b);
    } else {
        assert((a + b).drop_first() =~= a.drop_first() + b);
        assert(charset.contains(a[0]));
        lemma_leading_count_concat(a.drop_first(), b, charset);
    }
}

/// A header that the request parser reads back as it was written: `http`
/// keeps its name as it is, the name holds no colon and no line break, and
/// the value is a non-empty valid header value in UTF-8 that does not start
/// with a colon, a space or a tab.
pub open spec fn request_header_round_trips(name: Seq<u8>, value: Seq<u8>) -> bool {
    &&& spec_header_name(name) == Some(name)
    &&& !occurs(name, seq![0x3au8])
    &&& no_line_break(name)
    &&& value.len() > 0
    &&& !colon_whitespace().contains(value[0])
    &&& header_value_valid(value)
    &&& spec_from_utf8(value) is Some
}

/// A line with no line feed in it, ended by CRLF, holds no empty line.
proof fn lemma_line_no_blank(x: Seq<u8>)
    requires
        forall|i: int| 0 <= i < x.len() ==> #[trigger] x[i] != 10,
    ensures
        no_blank_line(x + crlf()),
        (x + crlf()).last() == 10,
{
    let s = x + crlf();
    assert forall|k: int| 0 <= k < s.len() - 1 && #[trigger] s[k] == 10 implies s[k + 1] != 13 by {
        if k < x.len() {
            assert(x[k] == 10);
        }
    }
}

/// The header lines of a list hold no empty line, end with a line feed,
/// and do not start with a carriage return.
proof fn lemma_headers_wire_no_blank(h: Seq<(Seq<u8>, Seq<u8>)>)
    requires
        forall|i: int| 0 <= i < h.len() ==> no_line_break(#[trigger] h[i].0) && header_value_valid(h[i].1),
    ensures
        no_blank_line(headers_wire(h)),
        headers_wire(h).len() > 0 ==> headers_wire(h).last() == 10 && headers_wire(h)[0] != 13,
    decreases h.len(),
{
    if h.len() > 0 {
        let h2 = h.drop_last();
        assert forall|i: int| 0 <= i < h2.len() implies no_line_break(#[trigger] h2[i].0)
            && header_value_valid(h2[i].1) by {
            assert(h2[i] == h[i]);
        }
        lemma_headers_wire_no_blank(h2);
        let name = h.last().0;
        let value = h.last().1;
        assert(no_line_break(h[h.len() - 1].0) && header_value_valid(h[h.len() - 1].1));
        let x = name + colon_space() + value;
        assert forall|i: int| 0 <= i < x.len() implies #[trigger] x[i] != 10 by {
            if i < name.len() {
                assert(x[i] == name[i]);
            } else if i >= name.len() + 2 {
                assert(x[i] == value[i - name.len() - 2]);
                assert(header_value_byte(value[i - name.len() - 2]));
            }
        }
        lemma_line_no_blank(x);
        let line = x + crlf();
        assert(line[0] != 13) by {
            if name.len() > 0 {
                assert(line[0] == name[0]);
            } else {
                assert(line[0] == 0x3a);
            }
        }
        lemma_no_blank_line_concat(headers_wire(h2), line);
        assert(headers_wire(h) =~= headers_wire(h2) + line);
    }
}

/// A header line as the request parser reads it: the name as `http` gives
/// it, and the value with the colon and the space before it dropped.
proof fn lemma_header_entry(name: Seq<u8>, value: Seq<u8>)
    requires
        spec_header_name(name) is Some,
        !occurs(name, seq![0x3au8]),
        value.len() > 0,
        !colon_whitespace().contains(value[0]),
        header_value_valid(value),
        spec_from_utf8(value) is Some,
    ensures
        header_entry_result(name + colon_space() + value) == Ok::<(Seq<u8>, Seq<u8>), &'static str>(
            (spec_header_name(name).unwrap(), value),
        ),
{
    let x = name + colon_space() + value;
    let colon = seq![0x3au8];
    assert(x =~= name + colon + (seq![0x20u8] + value));
    lemma_find_after(name, colon, seq![0x20u8] + value);
    let rest = x.skip(name.len() as int);
    assert(rest =~= colon_space() + value);
    assert(all_in(colon_space(), colon_whitespace())) by {
        assert(colon_whitespace()[0] == colon_space()[0]);
        assert(colon_whitespace()[1] == colon_space()[1]);
    }
    lemma_leading_count_concat(colon_space(), value, colon_whitespace());
    assert(largest_prefix(rest, colon_whitespace(), 1) == Some(2nat));
    assert(rest.skip(2) =~= value);
    assert(x.take(name.len() as int) =~= name);
}

/// The header lines of `h` from the `k`-th on, then a last line with no
/// line break that reads as a header, read onto the first `k` headers give
/// all of `h` with the last header set, and the last line is what is left.
proof fn lemma_header_map_parse(
    h: Seq<(Seq<u8>, Seq<u8>)>,
    k: int,
    last: Seq<u8>,
    last_name: Seq<u8>,
    last_value: Seq<u8>,
)
    requires
        names_distinct(h),
        0 <= k <= h.len(),
        forall|i: int| 0 <= i < h.len() ==> request_header_round_trips(#[trigger] h[i].0, h[i].1),
        last.len() > 0,
        !occurs(last, crlf()),
        header_entry_result(last) == Ok::<(Seq<u8>, Seq<u8>), &'static str>((last_name, last_value)),
    ensures
        header_map_result(headers_wire(h.skip(k)) + last, h.take(k)) == Ok::<
            (Seq<(Seq<u8>, Seq<u8>)>, Seq<u8>),
            &'static str,
        >((header_insert(h, last_name, last_value), last)),
    decreases h.len() - k,
{
    let b = headers_wire(h.skip(k)) + last;
    if k == h.len() {
        assert(h.skip(k) =~= Seq::<(Seq<u8>, Seq<u8>)>::empty());
        assert(b =~= last);
        lemma_find(last, crlf());
        assert(h.take(k) =~= h);
    } else {
        let name = h[k].0;
        let value = h[k].1;
        assert(request_header_round_trips(name, value));
        let x = header_text(name, value);
        let next = headers_wire(h.skip(k + 1)) + last;
        lemma_headers_wire_front(h.skip(k));
        assert(h.skip(k).skip(1) =~= h.skip(k + 1));
        assert(b =~= x + crlf() + next);
        assert forall|i: int| 0 <= i < name.len() implies name[i] != colon_space()[0] by {
            if name[i] == 0x3a {
                assert(name.subrange(i, i + 1) =~= seq![0x3au8]);
                assert(occurs_at(name, seq![0x3au8], i));
            }
        }
        lemma_no_occurs_without_first(name, colon_space());
        assert(!occurs(name, crlf())) by {
            assert forall|i: int| 0 <= i < name.len() implies name[i] != crlf()[0] by {
                assert(no_line_break(name));
            }
            lemma_no_occurs_without_first(name, crlf());
        }
        assert(header_round_trips(name, value));
        lemma_header_text_no_crlf(name, value);
        lemma_find_after(x, crlf(), next);
        assert(b.take(x.len() as int) =~= x);
        assert(b.skip(x.len() + 2int) =~= next);
        lemma_header_entry(name, value);
        lemma_name_index(h.take(k), name);
        if let Some(i) = name_index(h.take(k), name) {
            assert(h[i as int].0 == h[k].0);
        }
        assert(header_insert(h.take(k), name, value) =~= h.take(k + 1));
        lemma_header_map_parse(h, k + 1, last, last_name, last_value);
    }
}

/// No path byte is a space or a tab.
proof fn lemma_path_charset_no_whitespace(b: u8)
    requires
        path_charset().contains(b),
    ensures
        b > 0x20,
        !whitespace().contains(b),
{
    let k = choose|k: int| 0 <= k < path_charset().len() && path_charset()[k] == b;
    assert(path_charset()[k] > 0x20);
}

/// A space before a byte that is neither a space nor a tab is a run of one.
proof fn lemma_space_run(t: Seq<u8>)
    requires
        t.len() > 0,
        !whitespace().contains(t[0]),
    ensures
        largest_prefix(seq![0x20u8] + t, whitespace(), 1) == Some(1nat),
        (seq![0x20u8] + t).skip(1) == t,
{
    let sp = seq![0x20u8];
    assert(all_in(sp, whitespace())) by {
        assert(whitespace()[0] == sp[0]);
    }
    lemma_leading_count_concat(sp, t, whitespace());
    assert((sp + t).skip(1) =~= t);
}

/// Path bytes before a space are a run of the path bytes.
proof fn lemma_path_run(p: Seq<u8>, t: Seq<u8>)
    requires
        p.len() > 0,
        all_in(p, path_charset()),
        t.len() > 0,
        t[0] == 0x20,
    ensures
        largest_prefix(p + t, path_charset(), 1) == Some(p.len()),
        (p + t).take(p.len() as int) == p,
        (p + t).skip(p.len() as int) == t,
{
    assert(!path_charset().contains(0x20u8)) by {
        if path_charset().contains(0x20u8) {
            lemma_path_charset_no_whitespace(0x20u8);
        }
    }
    lemma_leading_count_concat(p, t, path_charset());
    assert((p + t).take(p.len() as int) =~= p);
    assert((p + t).skip(p.len() as int) =~= t);
}

/// The first path byte is neither a space nor a tab.
proof fn lemma_path_first(p: Seq<u8>)
    requires
        p.len() > 0,
        all_in(p, path_charset()),
    ensures
        !whitespace().contains(p[0]),
{
    assert(path_charset().contains(p[0]));
    lemma_path_charset_no_whitespace(p[0]);
}

/// A request line that starts with a method name starts with no
/// whitespace, and the method is read off it.
proof fn lemma_method_start(m: Method, rest: Seq<u8>)
    requires
        rest.len() > 0,
    ensures
        largest_prefix(method_name(m) + rest, whitespace(), 0) == Some(0nat),
        (method_name(m) + rest).skip(0) == method_name(m) + rest,
        request_method(method_name(m) + rest) == Some(m),
        (method_name(m) + rest).skip(method_name(m).len() as int) == rest,
{
    let hb = method_name(m) + rest;
    lemma_method_name_letters(m);
    assert(hb[0] == method_name(m)[0]);
    assert(!whitespace().contains(hb[0]));
    lemma_leading_count_concat(Seq::<u8>::empty(), hb, whitespace());
    assert(Seq::<u8>::empty() + hb =~= hb);
    assert(hb.skip(0) =~= hb);
    assert(hb.take(method_name(m).len() as int) =~= method_name(m));
    lemma_method_at_start(hb);
    assert(hb.skip(method_name(m).len() as int) =~= rest);
}

/// The start of a request line read step by step, from what each step
/// gives.
proof fn lemma_request_start_steps(
    m: Method,
    p: Seq<u8>,
    hb: Seq<u8>,
    s2: Seq<u8>,
    s3: Seq<u8>,
    s4: Seq<u8>,
    tail: Seq<u8>,
)
    requires
        largest_prefix(hb, whitespace(), 0) == Some(0nat),
        hb.skip(0) == hb,
        request_method(hb) == Some(m),
        hb.skip(method_name(m).len() as int) == s2,
        largest_prefix(s2, whitespace(), 1) == Some(1nat),
        s2.skip(1) == s3,
        largest_prefix(s3, path_charset(), 1) == Some(p.len()),
        s3.take(p.len() as int) == p,
        s3.skip(p.len() as int) == s4,
        spec_uri_valid(ascii_chars(p)),
        largest_prefix(s4, whitespace(), 1) == Some(1nat),
        s4.skip(1) == tail,
    ensures
        request_start_result(hb) == Ok::<(Method, Seq<u8>, Seq<u8>), &'static str>((m, p, tail)),
{
}

/// A request line written with a method, a path and `HTTP/1.1` reads back
/// as that method and that path.
proof fn lemma_request_line(m: Method, p: Seq<u8>, rest: Seq<u8>)
    requires
        p.len() > 0,
        all_in(p, path_charset()),
        spec_uri_valid(ascii_chars(p)),
    ensures
        request_line_result(
            method_name(m) + seq![0x20u8] + p + seq![0x20u8] + http11() + crlf() + rest,
        ) == Ok::<(Method, Seq<u8>, Seq<u8>), &'static str>((m, p, rest)),
{
    let sp = seq![0x20u8];
    let tail = http11() + crlf() + rest;
    let s4 = sp + tail;
    let s3 = p + s4;
    let s2 = sp + s3;
    let hb = method_name(m) + s2;
    lemma_request_line_parts(m, p, rest);
    lemma_method_start(m, s2);
    lemma_path_first(p);
    lemma_space_run(s3);
    lemma_path_run(p, s4);
    lemma_space_run(tail);
    lemma_request_start_steps(m, p, hb, s2, s3, s4, tail);
}

/// How a request line falls apart, and the bytes after the path.
proof fn lemma_request_line_parts(m: Method, p: Seq<u8>, rest: Seq<u8>)
    ensures
        ({
            let sp = seq![0x20u8];
            let tail = http11() + crlf() + rest;
            &&& method_name(m) + sp + p + sp + http11() + crlf() + rest == method_name(m) + (sp + (p + (
            sp + tail)))
            &&& !whitespace().contains(tail[0])
            &&& starts_with(tail, http11())
            &&& tail.skip(8) == crlf() + rest
            &&& starts_with(crlf() + rest, crlf())
            &&& (crlf() + rest).skip(2) == rest
        }),
{
    let sp = seq![0x20u8];
    let tail = http11() + crlf() + rest;
    assert(method_name(m) + sp + p + sp + http11() + crlf() + rest =~= method_name(m) + (sp + (p + (sp
        + tail))));
    assert(tail[0] == 0x48);
    assert(tail.take(8) =~= http11());
    assert(tail.skip(8) =~= crlf() + rest);
    assert((crlf() + rest).take(2) =~= crlf());
    assert((crlf() + rest).skip(2) =~= rest);
}

/// A request written out reads back, through the server's request parser,
/// as the same method, the bytes of the path part that was written, the
/// same headers with `Content-Length` set to the length of the body as
/// `http` names it, and the same body: what `write_to` writes,
/// `server_parser::parse_request` gives back. Holds when the path part is
/// non-empty, made of path bytes and a valid URI, when every header reads
/// back (see `request_header_round_trips`), and when `http` accepts the
/// name `Content-Length` and the digits of the length as text.
pub proof fn lemma_request_roundtrip(
    m: Method,
    path: Seq<char>,
    headers: Seq<(Seq<u8>, Seq<u8>)>,
    body: Seq<u8>,
)
    requires
        encode_utf8(super::text::spec_uri_path(path)).len() > 0,
        all_in(encode_utf8(super::text::spec_uri_path(path)), path_charset()),
        spec_uri_valid(ascii_chars(encode_utf8(super::text::spec_uri_path(path)))),
        names_distinct(headers),
        forall|i: int|
            0 <= i < headers.len() ==> request_header_round_trips(#[trigger] headers[i].0, headers[i].1),
        spec_header_name(content_length_name()) is Some,
        spec_from_utf8(decimal(body.len())) is Some,
    ensures
        parse_request_result(request_wire(m, path, headers, body)) == Ok::<
            (Method, Seq<u8>, Seq<(Seq<u8>, Seq<u8>)>, Seq<u8>),
            &'static str,
        >(
            (
                m,
                encode_utf8(super::text::spec_uri_path(path)),
                header_insert(
                    headers,
                    spec_header_name(content_length_name()).unwrap(),
                    decimal(body.len()),
                ),
                body,
            ),
        ),
{
    let sp = seq![0x20u8];
    let p = encode_utf8(super::text::spec_uri_path(path));
    let dec = decimal(body.len());
    let hw = headers_wire(headers);
    let cl = content_length_name();
    let x = method_name(m) + sp + p + sp + http11() + crlf();
    let a = x + hw + cl + seq![0x3au8, 0x20] + dec;
    let rest = hw + cl + seq![0x3au8, 0x20] + dec;
    let input = request_wire(m, path, headers, body);
    lemma_request_wire_parts(m, path, headers, body);
    assert forall|i: int| 0 <= i < headers.len() implies no_line_break(#[trigger] headers[i].0)
        && header_value_valid(headers[i].1) by {
        assert(request_header_round_trips(headers[i].0, headers[i].1));
    }
    lemma_decimal_digits(body.len());
    lemma_request_head_no_blank(m, p, headers, dec);
    lemma_find_blank_line(a, body);
    lemma_request_line(m, p, rest);
    lemma_request_headers(headers, body.len());
    lemma_parse_request_steps(
        input,
        a,
        body,
        m,
        p,
        rest,
        header_insert(headers, spec_header_name(cl).unwrap(), dec),
        cl + colon_space() + dec,
    );
}

/// How a written request falls apart: its head, the empty line, the body;
/// and in the head the request line and the header lines.
proof fn lemma_request_wire_parts(
    m: Method,
    path: Seq<char>,
    headers: Seq<(Seq<u8>, Seq<u8>)>,
    body: Seq<u8>,
)
    ensures
        ({
            let sp = seq![0x20u8];
            let p = encode_utf8(super::text::spec_uri_path(path));
            let dec = decimal(body.len());
            let hw = headers_wire(headers);
            let cl = content_length_name();
            let x = method_name(m) + sp + p + sp + http11() + crlf();
            let a = x + hw + cl + seq![0x3au8, 0x20] + dec;
            let rest = hw + cl + seq![0x3au8, 0x20] + dec;
            let input = request_wire(m, path, headers, body);
            &&& input == a + crlf_crlf() + body
            &&& input.take(a.len() as int) == a
            &&& input.skip(a.len() + 4int) == body
            &&& a == x + rest
            &&& rest == hw + (cl + colon_space() + dec)
        }),
{
    let sp = seq![0x20u8];
    let p = encode_utf8(super::text::spec_uri_path(path));
    let dec = decimal(body.len());
    let hw = headers_wire(headers);
    let cl = content_length_name();
    let x = method_name(m) + sp + p + sp + http11() + crlf();
    let a = x + hw + cl + seq![0x3au8, 0x20] + dec;
    let rest = hw + cl + seq![0x3au8, 0x20] + dec;
    let input = request_wire(m, path, headers, body);
    assert(a + crlf() + crlf() =~= a + crlf_crlf());
    assert(input =~= a + crlf_crlf() + body);
    assert(input.take(a.len() as int) =~= a);
    assert(input.skip(a.len() + 4int) =~= body);
    assert(x + hw + cl =~= x + (hw + cl));
    assert(x + hw + cl + seq![0x3au8, 0x20] =~= x + (hw + cl + seq![0x3au8, 0x20]));
    assert(a =~= x + rest);
    assert(rest =~= hw + (cl + colon_space() + dec));
}

/// A request read step by step, from what each step gives.
proof fn lemma_parse_request_steps(
    input: Seq<u8>,
    head: Seq<u8>,
    body: Seq<u8>,
    m: Method,
    p: Seq<u8>,
    rest: Seq<u8>,
    list: Seq<(Seq<u8>, Seq<u8>)>,
    left: Seq<u8>,
)
    requires
        find(input, crlf_crlf()) == Some(head.len() as int),
        input.take(head.len() as int) == head,
        input.skip(head.len() + 4int) == body,
        request_line_result(head) == Ok::<(Method, Seq<u8>, Seq<u8>), &'static str>((m, p, rest)),
        header_map_result(rest, Seq::empty()) == Ok::<(Seq<(Seq<u8>, Seq<u8>)>, Seq<u8>), &'static str>(
            (list, left),
        ),
    ensures
        parse_request_result(input) == Ok::<
            (Method, Seq<u8>, Seq<(Seq<u8>, Seq<u8>)>, Seq<u8>),
            &'static str,
        >((m, p, list, body)),
{
}

/// The header lines of a written request, then its `Content-Length` line,
/// read as the request parser reads them.
proof fn lemma_request_headers(headers: Seq<(Seq<u8>, Seq<u8>)>, len: nat)
    requires
        names_distinct(headers),
        forall|i: int|
            0 <= i < headers.len() ==> request_header_round_trips(#[trigger] headers[i].0, headers[i].1),
        spec_header_name(content_length_name()) is Some,
        spec_from_utf8(decimal(len)) is Some,
    ensures
        header_map_result(
            headers_wire(headers) + (content_length_name() + colon_space() + decimal(len)),
            Seq::empty(),
        ) == Ok::<(Seq<(Seq<u8>, Seq<u8>)>, Seq<u8>), &'static str>(
            (
                header_insert(headers, spec_header_name(content_length_name()).unwrap(), decimal(len)),
                content_length_name() + colon_space() + decimal(len),
            ),
        ),
{
    let cl = content_length_name();
    let dec = decimal(len);
    let last = cl + colon_space() + dec;
    lemma_decimal_digits(len);
    assert(!occurs(cl, seq![0x3au8])) by {
        lemma_no_occurs_without_first(cl, seq![0x3au8]);
    }
    assert(!colon_whitespace().contains(dec[0])) by {
        if colon_whitespace().contains(dec[0]) {
            let k = choose|k: int| 0 <= k < 3 && colon_whitespace()[k] == dec[0];
        }
    }
    assert(header_value_valid(dec));
    lemma_header_entry(cl, dec);
    assert(no_line_break(last)) by {
        assert forall|i: int| 0 <= i < last.len() implies #[trigger] last[i] != 10 && last[i] != 13 by {
            if i >= 16 {
                assert(last[i] == dec[i - 16]);
            }
        }
    }
    lemma_no_line_break(last);
    assert(headers.take(0) =~= Seq::<(Seq<u8>, Seq<u8>)>::empty());
    assert(headers.skip(0) =~= headers);
    lemma_header_map_parse(headers, 0, last, spec_header_name(cl).unwrap(), dec);
}

/// The head of a written request, up to the digits of its length, holds no
/// empty line and ends with a digit.
#[verifier::rlimit(50)]
proof fn lemma_request_head_no_blank(
    m: Method,
    p: Seq<u8>,
    headers: Seq<(Seq<u8>, Seq<u8>)>,
    dec: Seq<u8>,
)
    requires
        all_in(p, path_charset()),
        forall|i: int| 0 <= i < headers.len() ==> no_line_break(#[trigger] headers[i].0) && header_value_valid(
            headers[i].1,
        ),
        dec.len() > 0,
        forall|i: int| 0 <= i < dec.len() ==> 48 <= #[trigger] dec[i] <= 57,
    ensures
        ({
            let a = method_name(m) + seq![0x20u8] + p + seq![0x20u8] + http11() + crlf() + headers_wire(
                headers,
            ) + content_length_name() + seq![0x3au8, 0x20] + dec;
            &&& a.len() > 0
            &&& no_blank_line(a)
            &&& a.last() != 10
            &&& a.last() != 13
        }),
{
    let sp = seq![0x20u8];
    let hw = headers_wire(headers);
    let rl = method_name(m) + sp + p + sp + http11();
    let last = content_length_name() + seq![0x3au8, 0x20] + dec;
    lemma_method_name_letters(m);
    assert(no_line_break(rl)) by {
        assert forall|i: int| 0 <= i < rl.len() implies #[trigger] rl[i] != 10 && rl[i] != 13 by {
            let n = method_name(m).len() as int;
            if i < n {
                assert(rl[i] == method_name(m)[i]);
            } else if n + 1 <= i < n + 1 + p.len() {
                assert(rl[i] == p[i - n - 1]);
                assert(p.contains(p[i - n - 1]));
                lemma_path_charset_no_whitespace(p[i - n - 1]);
            }
        }
    }
    assert forall|i: int| 0 <= i < rl.len() implies #[trigger] rl[i] != 10 by {
        assert(no_line_break(rl));
    }
    lemma_line_no_blank(rl);
    lemma_headers_wire_no_blank(headers);
    lemma_no_blank_line_concat(rl + crlf(), hw);
    assert(no_line_break(last)) by {
        assert forall|i: int| 0 <= i < last.len() implies #[trigger] last[i] != 10 && last[i] != 13 by {
            if i >= 16 {
                assert(last[i] == dec[i - 16]);
            }
        }
    }
    lemma_no_line_break(last);
    let front = rl + crlf() + hw;
    assert(front.last() == 10) by {
        if hw.len() == 0 {
            assert(front =~= rl + crlf());
        } else {
            assert(front.last() == hw.last());
        }
    }
    lemma_no_blank_line_concat(front, last);
    let a = method_name(m) + sp + p + sp + http11() + crlf() + hw + content_length_name() + seq![0x3au8, 0x20] + dec;
    assert(a =~= front + last);
    assert(a.last() == dec.last());
}

/// Every byte of a method name is an upper case letter.
proof fn lemma_method_name_letters(m: Method)
    ensures
        forall|i: int| 0 <= i < method_name(m).len() ==> #[trigger] method_name(m)[i] >= 0x41,
        method_name(m).len() > 0,
{
}

/// The decimal digits of a number are at least one, each from `0` to `9`.
proof fn lemma_decimal_digits(n: nat)
    ensures
        decimal(n).len() > 0,
        forall|i: int| 0 <= i < decimal(n).len() ==> 48 <= #[trigger] decimal(n)[i] <= 57,
    decreases n,
{
    if n >= 10 {
        lemma_decimal_digits(n / 10);
        let d = decimal(n / 10);
        assert forall|i: int| 0 <= i < decimal(n).len() implies 48 <= #[trigger] decimal(n)[i] <= 57 by {
            if i < d.len() {
                assert(decimal(n)[i] == d[i]);
            }
        }
    }
}

/// The number that ASCII decimal digits spell, read most significant
/// first.
pub open spec fn digits_value(s: Seq<u8>) -> int
    decreases s.len(),
{
    if s.len() == 0 {
        0
    } else {
        digits_value(s.drop_last()) * 10 + (s.last() - 48)
    }
}

/// `decimal(n)` spells `n`: it is made of the digits `0` to `9`, read most
/// significant first they are worth `n`, and it starts with `0` only when
/// it is the single digit of `0`. So the `Content-Length` that a request
/// is written with is the length of its body.
pub proof fn lemma_decimal_value(n: nat)
    ensures
        decimal(n).len() > 0,
        forall|i: int| 0 <= i < decimal(n).len() ==> 48 <= #[trigger] decimal(n)[i] <= 57,
        digits_value(decimal(n)) == n,
        decimal(n)[0] == 48 ==> n == 0 && decimal(n).len() == 1,
    decreases n,
{
    lemma_decimal_digits(n);
    if n < 10 {
        assert(decimal(n).drop_last() =~= Seq::<u8>::empty());
        assert(digits_value(decimal(n).drop_last()) == 0);
        assert(decimal(n).last() as int == 48 + n);
    } else {
        lemma_decimal_value(n / 10);
        let d = decimal(n / 10);
        assert(decimal(n).drop_last() =~= d);
        assert(decimal(n).last() as int == 48 + n % 10);
        assert(decimal(n)[0] == d[0]);
        assert(n == (n / 10) * 10 + n % 10);
    }
}

/// The three digits of a status code spell it: read most significant
/// first, they are worth the code.
pub proof fn lemma_status_digits_value(status: u16)
    requires
        100 <= status <= 999,
    ensures
        forall|i: int| 0 <= i < 3 ==> 48 <= #[trigger] status_digits(status)[i] <= 57,
        digits_value(status_digits(status)) == status,
{
    let d = status_digits(status);
    assert(d.drop_last().drop_last().drop_last() =~= Seq::<u8>::empty());
    assert(d.drop_last().drop_last() =~= seq![d[0]]);
    assert(d.drop_last() =~= seq![d[0], d[1]]);
    reveal_with_fuel(digits_value, 4);
    assert(status as int == (status / 100) * 100 + ((status / 10) % 10) * 10 + status % 10);
}

/// The name of each request method, as RFC 9110 spells it.
pub open spec fn method_text(m: Method) -> Seq<char> {
    match m {
        Method::GET => "GET"@,
        Method::POST => "POST"@,
        Method::PUT => "PUT"@,
        Method::DELETE => "DELETE"@,
        Method::PATCH => "PATCH"@,
        Method::OPTIONS => "OPTIONS"@,
        Method::HEAD => "HEAD"@,
        Method::TRACE => "TRACE"@,
        Method::CONNECT => "CONNECT"@,
    }
}

/// A method is written, and recognised, by the ASCII bytes of its name.
pub proof fn lemma_method_name_text(m: Method)
    ensures
        ascii_chars(method_name(m)) == method_text(m),
{
    reveal_strlit("GET");
    reveal_strlit("POST");
    reveal_strlit("PUT");
    reveal_strlit("DELETE");
    reveal_strlit("PATCH");
    reveal_strlit("OPTIONS");
    reveal_strlit("HEAD");
    reveal_strlit("TRACE");
    reveal_strlit("CONNECT");
    assert(ascii_chars(method_name(m)) =~= method_text(m));
}

} // verus!
