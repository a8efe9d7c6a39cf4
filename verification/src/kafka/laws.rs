//! What holds of the Kafka functions taken together: frames written are
//! read back whole, request headers written by the client are read back by
//! the server, and the two-step response header takes the bytes that the
//! one-step decoder takes.
use super::frame::{announced_size, be16_bytes, be32_bytes, frame_complete, framed, lemma_be_i16_roundtrip, lemma_be_i32_roundtrip};
use super::header::{nullable_string_len, nullable_string_wire, request_header_len, request_header_wire, response_header_len, tagged_fields_from, tagged_section, varint, varint_from};
use super::api::{is_api_key, request_header_version_of};
use super::client::response_correlation_id;
use super::header::response_header_wire;
use super::server::{framed_api_key, framed_api_version, framed_correlation_id, framed_header_version, framed_request_body, request_header_accepted, response_frame};
use vstd::utf8::valid_utf8;
use vstd::prelude::*;

verus! {

/// A frame written by `frame_payload`, with anything after it, is complete
/// and announces the payload's length; `check_valid_packet` takes exactly
/// that frame and leaves what follows. Holds for payloads shorter than
/// `2^31` bytes (longer ones announce a wrapped size).
pub proof fn lemma_frame_roundtrip(payload: Seq<u8>, rest: Seq<u8>)
    requires
        payload.len() < 0x8000_0000,
    ensures
        announced_size(framed(payload) + rest) == payload.len(),
        frame_complete(framed(payload) + rest),
        (framed(payload) + rest).take(payload.len() + 4int) == framed(payload),
        (framed(payload) + rest).skip(payload.len() + 4int) == rest,
{
    let s = framed(payload) + rest;
    assert(s.take(4) =~= be32_bytes(payload.len() as int));
    lemma_be_i32_roundtrip(payload.len() as i32);
    assert(s.take(payload.len() + 4int) =~= framed(payload));
    assert(s.skip(payload.len() + 4int) =~= rest);
}

/// What the client writes as a request frame, the server reads back with
/// the same API key, API version and correlation id, whatever the header
/// version and the body. Holds for frames shorter than `2^31` bytes.
pub proof fn lemma_request_header_roundtrip(
    api_key: i16,
    api_version: i16,
    correlation_id: i32,
    client_id: Option<Seq<u8>>,
    header_version: i16,
    body: Seq<u8>,
)
    requires
        request_header_wire(api_key, api_version, correlation_id, client_id, header_version) is Some,
        request_header_wire(api_key, api_version, correlation_id, client_id, header_version).unwrap().len()
            + body.len() < 0x8000_0000,
    ensures
        ({
            let w = framed(
                request_header_wire(api_key, api_version, correlation_id, client_id, header_version).unwrap()
                    + body,
            );
            &&& frame_complete(w)
            &&& framed_api_key(w) == api_key
            &&& framed_api_version(w) == api_version
            &&& framed_correlation_id(w) == correlation_id
        }),
{
    let h = request_header_wire(api_key, api_version, correlation_id, client_id, header_version).unwrap();
    let p = h + body;
    let w = framed(p);
    lemma_frame_roundtrip(p, Seq::empty());
    assert(w + Seq::<u8>::empty() =~= w);
    assert(w.subrange(4, 6) =~= be16_bytes(api_key as int));
    assert(w.subrange(6, 8) =~= be16_bytes(api_version as int));
    assert(w.subrange(8, 12) =~= be32_bytes(correlation_id as int));
    lemma_be_i16_roundtrip(api_key);
    lemma_be_i16_roundtrip(api_version);
    lemma_be_i32_roundtrip(correlation_id);
}

/// The layout that a request header version picks: 0 (API key, API version
/// and correlation id), 1 (then the client id), 2 (then the tagged fields).
pub open spec fn request_header_layout(header_version: i16) -> int {
    if header_version < 1 {
        0
    } else if header_version < 2 {
        1
    } else {
        2
    }
}

/// A client id, where there is one, is UTF-8.
pub open spec fn client_id_valid(client_id: Option<Seq<u8>>) -> bool {
    client_id matches Some(b) ==> valid_utf8(b)
}

/// A nullable string written by the client reads back at its own length.
proof fn lemma_nullable_string_back(client_id: Option<Seq<u8>>, rest: Seq<u8>)
    requires
        client_id_valid(client_id),
        nullable_string_wire(client_id) is Some,
    ensures
        nullable_string_len(nullable_string_wire(client_id).unwrap() + rest) == Some(
            nullable_string_wire(client_id).unwrap().len(),
        ),
{
    let c = nullable_string_wire(client_id).unwrap();
    let q = c + rest;
    match client_id {
        None => {
            lemma_be_i16_roundtrip(-1i16);
            assert(q.take(2) =~= be16_bytes(-1));
        },
        Some(b) => {
            lemma_be_i16_roundtrip(b.len() as i16);
            assert(q.take(2) =~= be16_bytes(b.len() as int));
            assert(q.subrange(2, 2 + b.len() as int) =~= b);
        },
    }
}

/// An empty tagged-field section is the one byte 0.
proof fn lemma_empty_tagged_section(rest: Seq<u8>)
    ensures
        tagged_section(seq![0u8] + rest) == Some((Map::<i32, Seq<u8>>::empty(), 1nat)),
{
    let t = seq![0u8] + rest;
    assert(t[0] == 0u8);
    assert((0u32 | ((0u32 & 0x7f) << 0u32)) == 0u32) by (bit_vector);
    assert(varint_from(t, 0, 0) == Some((0u32, 1nat)));
}

/// The server hands its decoder exactly the body that the client encoded:
/// in a request frame written with the header laid out by the API version,
/// the header that the server reads, under the header version of the
/// frame's API key and version, ends where the client's header ends (and
/// the server accepts it, for a known API key), when that header version
/// picks the same layout. Holds for frames shorter than `2^31` bytes.
pub proof fn lemma_request_body_handover(
    api_key: i16,
    api_version: i16,
    correlation_id: i32,
    client_id: Option<Seq<u8>>,
    body: Seq<u8>,
)
    requires
        client_id_valid(client_id),
        request_header_wire(api_key, api_version, correlation_id, client_id, api_version) is Some,
        request_header_wire(api_key, api_version, correlation_id, client_id, api_version).unwrap().len()
            + body.len() < 0x8000_0000,
        request_header_layout(request_header_version_of(api_key, api_version)) == request_header_layout(
            api_version,
        ),
    ensures
        ({
            let h = request_header_wire(api_key, api_version, correlation_id, client_id, api_version).unwrap();
            let w = framed(h + body);
            &&& request_header_len(w.skip(4), framed_header_version(w)) == Some(h.len())
            &&& framed_request_body(w) == body
            &&& is_api_key(api_key) ==> request_header_accepted(w)
        }),
{
    let h = request_header_wire(api_key, api_version, correlation_id, client_id, api_version).unwrap();
    let p = h + body;
    let w = framed(p);
    lemma_request_header_roundtrip(api_key, api_version, correlation_id, client_id, api_version, body);
    assert(w.skip(4) =~= p);
    let fixed = be16_bytes(api_key as int) + be16_bytes(api_version as int) + be32_bytes(
        correlation_id as int,
    );
    if request_header_layout(api_version) > 0 {
        let c = nullable_string_wire(client_id).unwrap();
        if request_header_layout(api_version) == 1 {
            assert(h =~= fixed + c);
            assert(p.skip(8) =~= c + body);
            lemma_nullable_string_back(client_id, body);
        } else {
            assert(h =~= fixed + c + seq![0u8]);
            assert(p.skip(8) =~= c + (seq![0u8] + body));
            lemma_nullable_string_back(client_id, seq![0u8] + body);
            assert(p.skip((8 + c.len()) as int) =~= seq![0u8] + body);
            lemma_empty_tagged_section(body);
        }
    }
    assert(framed_request_body(w) =~= body);
}

/// A response frame that the server writes carries the correlation id of
/// the request it answers where the client looks for it, whatever the API
/// version and the body. Holds for frames shorter than `2^31` bytes.
pub proof fn lemma_response_correlation_roundtrip(correlation_id: i32, api_version: i16, body: Seq<u8>)
    requires
        response_header_wire(correlation_id, api_version).len() + body.len() < 0x8000_0000,
    ensures
        frame_complete(response_frame(correlation_id, api_version, body)),
        response_correlation_id(response_frame(correlation_id, api_version, body)) == correlation_id,
{
    let p = response_header_wire(correlation_id, api_version) + body;
    let w = response_frame(correlation_id, api_version, body);
    lemma_frame_roundtrip(p, Seq::empty());
    assert(w + Seq::<u8>::empty() =~= w);
    assert(w.subrange(4, 8) =~= be32_bytes(correlation_id as int));
    lemma_be_i32_roundtrip(correlation_id);
}

/// Reading a response header in two steps (the correlation id, then the
/// tagged fields) takes the same bytes as reading it in one, for the header
/// versions that have tagged fields.
pub proof fn lemma_response_header_two_steps(s: Seq<u8>, header_version: i16)
    requires
        header_version >= 1,
        s.len() >= 4,
    ensures
        response_header_len(s, header_version) == match tagged_section(s.skip(4)) {
            Some((_, n)) => Some(4 + n),
            None => None::<nat>,
        },
{
}

/// A request that the client sends and that is then answered leaves no
/// trace: `send` files it under a correlation id that no pending request
/// has, with its API key and version 3; `receive` of its response decodes
/// under that key and version and removes it, which gives back the pending
/// requests as they were.
pub proof fn lemma_client_request_answered(pending: Map<i32, (i16, i16)>, next: i32, key: i16)
    requires
        forall|k: i32| pending.contains_key(k) ==> k < next,
    ensures
        !pending.contains_key(next),
        pending.insert(next, (key, 3i16))[next] == (key, 3i16),
        pending.insert(next, (key, 3i16)).remove(next) == pending,
{
    assert(pending.insert(next, (key, 3i16)).remove(next) =~= pending);
}

/// The pending requests after requests with the API keys `keys` are sent in
/// this order, one `send` each, from a connection whose pending requests
/// are `pending` and whose next correlation id is `next`.
pub open spec fn pending_after_sends(pending: Map<i32, (i16, i16)>, next: int, keys: Seq<i16>) -> Map<
    i32,
    (i16, i16),
>
    decreases keys.len(),
{
    if keys.len() == 0 {
        pending
    } else {
        pending_after_sends(pending.insert(next as i32, (keys[0], 3i16)), next + 1, keys.drop_first())
    }
}

/// Requests sent one after another are numbered `next`, `next + 1`, ... in
/// the order they are sent (the next correlation id moves on by one each
/// time): the `i`-th is pending under `next + i` with its API key and
/// version 3, no earlier pending request is disturbed, and nothing else is
/// pending. Holds while the ids fit an `i32`.
pub proof fn lemma_client_sends(pending: Map<i32, (i16, i16)>, next: int, keys: Seq<i16>)
    requires
        next + keys.len() <= i32::MAX,
        i32::MIN <= next,
        forall|k: i32| pending.contains_key(k) ==> k < next,
    ensures
        forall|i: int|
            0 <= i < keys.len() ==> #[trigger] pending_after_sends(pending, next, keys).contains_key(
                (next + i) as i32,
            ) && pending_after_sends(pending, next, keys)[(next + i) as i32] == (keys[i], 3i16),
        forall|k: i32|
            pending.contains_key(k) ==> #[trigger] pending_after_sends(pending, next, keys).contains_key(k)
                && pending_after_sends(pending, next, keys)[k] == pending[k],
        forall|k: i32|
            #[trigger] pending_after_sends(pending, next, keys).contains_key(k) ==> pending.contains_key(k)
                || next <= k < next + keys.len(),
    decreases keys.len(),
{
    if keys.len() > 0 {
        let p1 = pending.insert(next as i32, (keys[0], 3i16));
        let rest = keys.drop_first();
        lemma_client_sends(p1, next + 1, rest);
        let m = pending_after_sends(pending, next, keys);
        assert(m == pending_after_sends(p1, next + 1, rest));
        assert forall|i: int| 0 <= i < keys.len() implies #[trigger] m.contains_key((next + i) as i32)
            && m[(next + i) as i32] == (keys[i], 3i16) by {
            let m1 = pending_after_sends(p1, next + 1, rest);
            if i > 0 {
                assert(rest[i - 1] == keys[i]);
                assert((next + 1 + (i - 1)) as i32 == (next + i) as i32);
                assert(m1.contains_key((next + 1 + (i - 1)) as i32));
            } else {
                assert(p1.contains_key(next as i32));
                assert(m1.contains_key(next as i32));
            }
        }
    }
}

/// A request that the server reads and then answers is answered under the
/// API version that came with it, and leaves the pending requests as they
/// were before it came, unless one with the same correlation id was
/// pending already (its entry is then gone too).
pub proof fn lemma_server_request_answered(pending: Map<i32, i16>, correlation_id: i32, api_version: i16)
    ensures
        pending.insert(correlation_id, api_version)[correlation_id] == api_version,
        pending.insert(correlation_id, api_version).remove(correlation_id) == pending.remove(correlation_id),
        !pending.contains_key(correlation_id) ==> pending.insert(correlation_id, api_version).remove(
            correlation_id,
        ) == pending,
{
    assert(pending.insert(correlation_id, api_version).remove(correlation_id) =~= pending.remove(
        correlation_id,
    ));
    if !pending.contains_key(correlation_id) {
        assert(pending.remove(correlation_id) =~= pending);
    }
}

/// `128` raised to the power `n`.
pub open spec fn pow128(n: nat) -> nat
    decreases n,
{
    if n == 0 {
        1
    } else {
        128 * pow128((n - 1) as nat)
    }
}

/// The number that the low seven bits of the first `n` bytes of `s` spell,
/// least significant group first.
pub open spec fn base128(s: Seq<u8>, n: nat) -> nat
    decreases n,
{
    if n == 0 {
        0
    } else {
        base128(s, (n - 1) as nat) + (s[n - 1] % 128) as nat * pow128((n - 1) as nat)
    }
}

proof fn lemma_base128_bound(s: Seq<u8>, n: nat)
    ensures
        base128(s, n) < pow128(n),
    decreases n,
{
    if n > 0 {
        lemma_base128_bound(s, (n - 1) as nat);
        let a = base128(s, (n - 1) as nat);
        let p = pow128((n - 1) as nat);
        let d = (s[n - 1] % 128) as nat;
        assert(a + d * p < 128 * p) by (nonlinear_arith)
            requires
                a < p,
                d < 128,
        ;
    }
}

/// One step of the varint: setting the next seven bits with `|` adds them.
proof fn lemma_varint_step(acc: u32, b: u32, i: nat)
    requires
        i < 5,
        b < 256,
        acc < pow128(i),
    ensures
        (acc | ((b & 0x7f) << ((i * 7) as u32))) as int == (acc + (b & 0x7f) * pow128(i)) % 0x1_0000_0000,
        i < 4 ==> (acc | ((b & 0x7f) << ((i * 7) as u32))) < pow128(i + 1),
{
    reveal_with_fuel(pow128, 6);
    if i == 0 {
        assert((acc | ((b & 0x7f) << 0u32)) == (acc + (b & 0x7f)) % 0x1_0000_0000 && (acc | ((b
            & 0x7f) << 0u32)) < 128) by (bit_vector)
            requires
                acc < 1,
                b < 256,
        ;
    } else if i == 1 {
        assert((acc | ((b & 0x7f) << 7u32)) == (acc + (b & 0x7f) * 128) % 0x1_0000_0000 && (acc | ((b
            & 0x7f) << 7u32)) < 16384) by (bit_vector)
            requires
                acc < 128,
                b < 256,
        ;
    } else if i == 2 {
        assert((acc | ((b & 0x7f) << 14u32)) == (acc + (b & 0x7f) * 16384) % 0x1_0000_0000 && (acc
            | ((b & 0x7f) << 14u32)) < 2097152) by (bit_vector)
            requires
                acc < 16384,
                b < 256,
        ;
    } else if i == 3 {
        assert((acc | ((b & 0x7f) << 21u32)) == (acc + (b & 0x7f) * 2097152) % 0x1_0000_0000 && (acc
            | ((b & 0x7f) << 21u32)) < 268435456) by (bit_vector)
            requires
                acc < 2097152,
                b < 256,
        ;
    } else {
        assert((acc | ((b & 0x7f) << 28u32)) == (acc + (b & 0x7f) * 268435456) % 0x1_0000_0000)
            by (bit_vector)
            requires
                acc < 268435456,
                b < 256,
        ;
    }
}

proof fn lemma_varint_from_base128(s: Seq<u8>, i: nat, acc: u32)
    requires
        i <= 5,
        i <= s.len(),
        acc as int == base128(s, i) % 0x1_0000_0000,
        i < 5 ==> acc < pow128(i),
    ensures
        varint_from(s, i, acc) matches Some((v, n)) ==> v as int == base128(s, n) % 0x1_0000_0000,
    decreases 5 - i,
{
    if i < 5 && i < s.len() {
        let b = s[i as int] as u32;
        let next = acc | ((b & 0x7f) << ((i * 7) as u32));
        lemma_varint_step(acc, b, i);
        lemma_base128_bound(s, i);
        reveal_with_fuel(pow128, 6);
        assert(b & 0x7f == b % 128) by (bit_vector);
        assert(acc as int == base128(s, i));
        assert(base128(s, i + 1) == base128(s, i) + (s[i as int] % 128) as nat * pow128(i));
        lemma_varint_from_base128(s, i + 1, next);
    }
}

/// An unsigned varint is the number that the low seven bits of its bytes
/// spell, least significant group first, taken modulo `2^32`.
pub proof fn lemma_varint_base128(s: Seq<u8>)
    ensures
        varint(s) matches Some((v, n)) ==> v as int == base128(s, n) % 0x1_0000_0000,
{
    reveal_with_fuel(pow128, 1);
    lemma_varint_from_base128(s, 0, 0);
}

} // verus!
