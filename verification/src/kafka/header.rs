//! Kafka headers: the unsigned varints and tagged fields of the flexible
//! versions, the response header read in two steps, and the request header
//! as `kafka-protocol` writes it.
use super::frame::{be16_bytes, be32_bytes, be_i16, be_i32, ByteCursor, NotEnoughBytesError};
use kafka_protocol::messages::{RequestHeader, ResponseHeader};
use kafka_protocol::protocol::{Decodable, Encodable, StrBytes};
use std::collections::BTreeMap;
use vstd::prelude::*;
use vstd::utf8::{encode_utf8, valid_utf8};

verus! {

broadcast use vstd::laws_cmp::group_laws_cmp, vstd::std_specs::btree::group_btree_axioms;

/// The unsigned varint that starts at byte `i` of `s`, given the value `acc`
/// of the bytes before it: seven bits from each byte, least significant
/// group first, ending after a byte below `0x80` or after five bytes (bits
/// past the 32nd are dropped). `None` where the bytes run out first;
/// otherwise the value and the index just past it.
pub open spec fn varint_from(s: Seq<u8>, i: nat, acc: u32) -> Option<(u32, nat)>
    decreases 5 - i,
{
    if i >= 5 {
        Some((acc, 5))
    } else if i >= s.len() {
        None
    } else {
        let b = s[i as int] as u32;
        let next = acc | ((b & 0x7f) << ((i * 7) as u32));
        if b < 0x80 {
            Some((next, i + 1))
        } else {
            varint_from(s, i + 1, next)
        }
    }
}

/// The unsigned varint at the front of `s`, and its length in bytes.
pub open spec fn varint(s: Seq<u8>) -> Option<(u32, nat)> {
    varint_from(s, 0, 0)
}

proof fn lemma_varint_from_len(s: Seq<u8>, i: nat, acc: u32)
    requires
        i <= 5,
        i <= s.len(),
    ensures
        varint_from(s, i, acc) matches Some((_, n)) ==> (n <= s.len() && (i < 5 ==> i < n)
            && n <= 5),
    decreases 5 - i,
{
    if i < 5 && i < s.len() {
        let b = s[i as int] as u32;
        let next = acc | ((b & 0x7f) << ((i * 7) as u32));
        lemma_varint_from_len(s, i + 1, next);
    }
}

/// A varint takes at least one byte and at most five, and no more than
/// there are.
pub proof fn lemma_varint_len(s: Seq<u8>)
    ensures
        varint(s) matches Some((_, n)) ==> (1 <= n <= 5 && n <= s.len()),
{
    lemma_varint_from_len(s, 0, 0);
}

/// The byte sequences of a map of vectors.
pub open spec fn map_views(m: Map<i32, Vec<u8>>) -> Map<i32, Seq<u8>> {
    m.map_values(|v: Vec<u8>| v@)
}

/// `count` tagged fields at the front of `s`, each a varint tag, a varint
/// size and that many bytes, inserted in turn into `fields` (a later field
/// of the same tag replaces an earlier one); the fields and the number of
/// bytes they took, or `None` where the bytes run out.
pub open spec fn tagged_fields_from(s: Seq<u8>, count: nat, fields: Map<i32, Seq<u8>>) -> Option<
    (Map<i32, Seq<u8>>, nat),
>
    decreases count,
{
    if count == 0 {
        Some((fields, 0))
    } else {
        match varint(s) {
            None => None,
            Some((tag, n1)) => match varint(s.skip(n1 as int)) {
                None => None,
                Some((size, n2)) => {
                    let start = n1 + n2;
                    let end: nat = (start + size) as nat;
                    if s.len() < end {
                        None
                    } else {
                        match tagged_fields_from(
                            s.skip(end as int),
                            (count - 1) as nat,
                            fields.insert(tag as i32, s.subrange(start as int, end as int)),
                        ) {
                            None => None,
                            Some((m, n3)) => Some((m, end + n3)),
                        }
                    }
                },
            },
        }
    }
}

/// The tagged-field section at the front of `s`: a varint count, then that
/// many tagged fields; the fields and the length of the section.
pub open spec fn tagged_section(s: Seq<u8>) -> Option<(Map<i32, Seq<u8>>, nat)> {
    match varint(s) {
        None => None,
        Some((count, n0)) => match tagged_fields_from(s.skip(n0 as int), count as nat, Map::empty()) {
            None => None,
            Some((m, n)) => Some((m, n0 + n)),
        },
    }
}

/// The length of the response header at the front of `s` under the given
/// header version: the correlation id, then from version 1 on the tagged
/// fields; `None` where the bytes run out.
pub open spec fn response_header_len(s: Seq<u8>, header_version: i16) -> Option<nat> {
    if s.len() < 4 {
        None
    } else if header_version >= 1 {
        match tagged_section(s.skip(4)) {
            None => None,
            Some((_, n)) => Some(4 + n),
        }
    } else {
        Some(4)
    }
}

/// Reads an unsigned varint. When the bytes run out, all of them have been
/// read.
pub fn decode_unsigned_varint(buf: &mut ByteCursor) -> (r: Result<u32, NotEnoughBytesError>)
    ensures
        r is Ok <==> varint(old(buf)@) is Some,
        r matches Ok(v) ==> {
            let (value, n) = varint(old(buf)@).unwrap();
            &&& v == value
            &&& final(buf)@ == old(buf)@.skip(n as int)
        },
        r is Err ==> final(buf)@ == Seq::<u8>::empty(),
{
    let ghost s = buf@;
    let mut value: u32 = 0;
    let mut i: u32 = 0;
    while i < 5
        invariant
            s == old(buf)@,
            i <= 5,
            i <= s.len(),
            buf@ == s.skip(i as int),
            varint(s) == varint_from(s, i as nat, value),
        decreases 5 - i,
    {
        let b = match buf.try_get_u8() {
            Ok(b) => b,
            Err(e) => {
                assert(buf@ =~= Seq::<u8>::empty());
                return Err(e);
            },
        };
        assert(b == s[i as int]);
        value = value | (((b as u32) & 0x7f) << (i * 7));
        i = i + 1;
        assert(buf@ =~= s.skip(i as int));
        if (b as u32) < 0x80 {
            return Ok(value);
        }
    }
    Ok(value)
}

/// Reads the tagged-field section. When the bytes run out, what was read of
/// them is gone.
pub fn decode_tagged_fields(buf: &mut ByteCursor) -> (r: Result<BTreeMap<i32, Vec<u8>>, NotEnoughBytesError>)
    ensures
        r is Ok <==> tagged_section(old(buf)@) is Some,
        r matches Ok(fields) ==> {
            let (m, n) = tagged_section(old(buf)@).unwrap();
            &&& map_views(fields@) == m
            &&& final(buf)@ == old(buf)@.skip(n as int)
        },
{
    let ghost s = buf@;
    let count = decode_unsigned_varint(buf)?;
    let ghost n0 = varint(s).unwrap().1;
    proof {
        lemma_varint_len(s);
    }
    let ghost s0 = buf@;
    let mut fields: BTreeMap<i32, Vec<u8>> = BTreeMap::new();
    assert(map_views(fields@) =~= Map::<i32, Seq<u8>>::empty());
    let mut j: u32 = 0;
    while j < count
        invariant
            s == old(buf)@,
            varint(s) == Some((count, n0)),
            s0 == s.skip(n0 as int),
            n0 <= s.len(),
            j <= count,
            s0.len() >= buf@.len(),
            buf@ == s0.skip(s0.len() - buf@.len()),
            tagged_fields_from(s0, count as nat, Map::empty()) == match tagged_fields_from(
                buf@,
                (count - j) as nat,
                map_views(fields@),
            ) {
                None => None,
                Some((m, n)) => Some((m, ((s0.len() - buf@.len()) + n) as nat)),
            },
        decreases count - j,
    {
        let ghost before = buf@;
        let ghost views = map_views(fields@);
        let tag = match decode_unsigned_varint(buf) {
            Ok(t) => t,
            Err(e) => {
                assert(tagged_fields_from(before, (count - j) as nat, views) is None);
                return Err(e);
            },
        };
        let ghost n1 = varint(before).unwrap().1;
        proof {
            lemma_varint_len(before);
        }
        let size = match decode_unsigned_varint(buf) {
            Ok(v) => v,
            Err(e) => {
                assert(tagged_fields_from(before, (count - j) as nat, views) is None);
                return Err(e);
            },
        };
        let ghost n2 = varint(before.skip(n1 as int)).unwrap().1;
        proof {
            lemma_varint_len(before.skip(n1 as int));
        }
        assert(buf@ =~= before.skip((n1 + n2) as int));
        let value = match buf.try_get_bytes(size as usize) {
            Ok(v) => v,
            Err(e) => {
                assert(tagged_fields_from(before, (count - j) as nat, views) is None);
                return Err(e);
            },
        };
        let ghost end: nat = (n1 + n2 + size) as nat;
        assert(value@ =~= before.subrange((n1 + n2) as int, end as int));
        assert(buf@ =~= before.skip(end as int));
        #[verifier::truncate]
        let key = tag as i32;
        fields.insert(key, value);
        assert(map_views(fields@) =~= views.insert(tag as i32, value@));
        j = j + 1;
        assert(buf@ =~= s0.skip(s0.len() - buf@.len()));
    }
    assert(s.skip(n0 as int).skip(s0.len() - buf@.len()) =~= s.skip(n0 + (s0.len() - buf@.len())));
    Ok(fields)
}

/// A response header whose tagged fields are not read yet.
pub struct ResponseHeaderIntermediary {
    /// The correlation id of this response.
    pub correlation_id: i32,
}

/// A response header read in full.
pub struct ResponseHeaderComplete {
    /// The correlation id of this response.
    pub correlation_id: i32,
    /// The tagged fields of this response.
    pub tagged_fields: BTreeMap<i32, Vec<u8>>,
}

impl Default for ResponseHeaderIntermediary {
    fn default() -> (r: Self)
        ensures
            r.correlation_id == 0,
    {
        ResponseHeaderIntermediary { correlation_id: 0 }
    }
}

impl ResponseHeaderIntermediary {
    /// Reads the correlation id, the part of a response header that every
    /// version has.
    pub fn decode(buf: &mut ByteCursor) -> (r: Result<Self, NotEnoughBytesError>)
        ensures
            old(buf)@.len() >= 4 <==> r is Ok,
            r matches Ok(h) ==> (h.correlation_id as int == be_i32(old(buf)@.take(4))
                && final(buf)@ == old(buf)@.skip(4)),
            r is Err ==> final(buf)@ == old(buf)@,
    {
        let correlation_id = buf.try_get_i32()?;
        Ok(ResponseHeaderIntermediary { correlation_id })
    }

    /// The same header with another correlation id.
    pub fn with_correlation_id(self, value: i32) -> (r: Self)
        ensures
            r.correlation_id == value,
    {
        let mut h = self;
        h.correlation_id = value;
        h
    }

    /// Whether responses of this API carry tagged fields in their header:
    /// all do but `ApiVersions`.
    fn tagged_fields(&self, api: i16, _api_version: i16) -> (r: bool)
        ensures
            r == (api != super::api::API_VERSIONS_KEY),
    {
        api != super::api::API_VERSIONS_KEY
    }

    /// Reads the rest of the header of a response of the given API: its
    /// tagged fields, which every API but `ApiVersions` has.
    pub fn complete(self, buf: &mut ByteCursor, api: i16, api_version: i16) -> (r: Result<
        ResponseHeaderComplete,
        NotEnoughBytesError,
    >)
        ensures
            api == super::api::API_VERSIONS_KEY ==> {
                &&& final(buf)@ == old(buf)@
                &&& r matches Ok(h)
                &&& h.correlation_id == self.correlation_id
                &&& h.tagged_fields@.is_empty()
            },
            api != super::api::API_VERSIONS_KEY ==> {
                &&& r is Ok <==> tagged_section(old(buf)@) is Some
                &&& r matches Ok(h) ==> {
                    let (m, n) = tagged_section(old(buf)@).unwrap();
                    &&& h.correlation_id == self.correlation_id
                    &&& map_views(h.tagged_fields@) == m
                    &&& final(buf)@ == old(buf)@.skip(n as int)
                }
            },
    {
        if self.tagged_fields(api, api_version) {
            let tagged_fields = decode_tagged_fields(buf)?;
            Ok(ResponseHeaderComplete { correlation_id: self.correlation_id, tagged_fields })
        } else {
            Ok(ResponseHeaderComplete {
                correlation_id: self.correlation_id,
                tagged_fields: BTreeMap::new(),
            })
        }
    }
}

/// A nullable string as the protocol writes it: a big-endian `i16` length
/// and the bytes, or the length -1 for none; `None` where the string is
/// longer than an `i16` can count.
pub open spec fn nullable_string_wire(s: Option<Seq<u8>>) -> Option<Seq<u8>> {
    match s {
        None => Some(be16_bytes(-1)),
        Some(b) => if b.len() > 0x7fff {
            None
        } else {
            Some(be16_bytes(b.len() as int) + b)
        },
    }
}

/// The UTF-8 bytes of an optional string.
pub open spec fn utf8_of(s: Option<String>) -> Option<Seq<u8>> {
    match s {
        None => None,
        Some(t) => Some(encode_utf8(t@)),
    }
}

/// A request header with no tagged fields, written under the given header
/// version: the API key, the API version and the correlation id, then from
/// version 1 on the client id, then from version 2 on an empty tagged-field
/// section; `None` where the client id is too long.
pub open spec fn request_header_wire(
    api_key: i16,
    api_version: i16,
    correlation_id: i32,
    client_id: Option<Seq<u8>>,
    header_version: i16,
) -> Option<Seq<u8>> {
    let fixed = be16_bytes(api_key as int) + be16_bytes(api_version as int) + be32_bytes(
        correlation_id as int,
    );
    if header_version < 1 {
        Some(fixed)
    } else {
        match nullable_string_wire(client_id) {
            None => None,
            Some(c) => if header_version < 2 {
                Some(fixed + c)
            } else {
                Some(fixed + c + seq![0u8])
            },
        }
    }
}

/// A response header with no tagged fields, written under the given header
/// version: the correlation id, then from version 1 on an empty tagged-field
/// section.
pub open spec fn response_header_wire(correlation_id: i32, header_version: i16) -> Seq<u8> {
    if header_version < 1 {
        be32_bytes(correlation_id as int)
    } else {
        be32_bytes(correlation_id as int) + seq![0u8]
    }
}

/// The length of the nullable string at the front of `s`: the length -1
/// (none), or a length of zero or more and that many bytes of UTF-8.
pub open spec fn nullable_string_len(s: Seq<u8>) -> Option<nat> {
    if s.len() < 2 {
        None
    } else {
        let n = be_i16(s.take(2));
        if n == -1 {
            Some(2)
        } else if n < 0 || s.len() < 2 + n || !valid_utf8(s.subrange(2, 2 + n)) {
            None
        } else {
            Some((2 + n) as nat)
        }
    }
}

/// The length of the request header at the front of `s` under the given
/// header version: API key, API version and correlation id, then from
/// version 1 on the client id, then from version 2 on the tagged fields.
pub open spec fn request_header_len(s: Seq<u8>, header_version: i16) -> Option<nat> {
    if s.len() < 8 {
        None
    } else if header_version < 1 {
        Some(8)
    } else {
        match nullable_string_len(s.skip(8)) {
            None => None,
            Some(c) => if header_version < 2 {
                Some(8 + c)
            } else {
                match tagged_section(s.skip((8 + c) as int)) {
                    None => None,
                    Some((_, t)) => Some(8 + c + t),
                }
            },
        }
    }
}

/// `RequestHeader::encode` of `kafka-protocol` for a header with the given
/// fields and no tagged fields, into a fresh buffer: the bytes are those of
/// `request_header_wire`, and it fails exactly where that has none.
#[verifier::external_body]
pub(crate) fn encode_request_header(
    api_key: i16,
    api_version: i16,
    correlation_id: i32,
    client_id: Option<String>,
    header_version: i16,
) -> (r: Result<Vec<u8>, ()>)
    ensures
        r is Ok <==> request_header_wire(
            api_key,
            api_version,
            correlation_id,
            utf8_of(client_id),
            header_version,
        ) is Some,
        r matches Ok(b) ==> b@ == request_header_wire(
            api_key,
            api_version,
            correlation_id,
            utf8_of(client_id),
            header_version,
        ).unwrap(),
{
    let header = RequestHeader::default()
        .with_request_api_key(api_key)
        .with_request_api_version(api_version)
        .with_correlation_id(correlation_id)
        .with_client_id(client_id.map(StrBytes::from_string));
    let mut out: Vec<u8> = Vec::new();
    match header.encode(&mut out, header_version) {
        Ok(()) => Ok(out),
        Err(_) => Err(()),
    }
}

/// `ResponseHeader::encode` of `kafka-protocol` for a header with this
/// correlation id and no tagged fields, into a fresh buffer: the bytes are
/// those of `response_header_wire`; it does not fail.
#[verifier::external_body]
pub(crate) fn encode_response_header(correlation_id: i32, header_version: i16) -> (r: Result<Vec<u8>, ()>)
    ensures
        r is Ok,
        r matches Ok(b) ==> b@ == response_header_wire(correlation_id, header_version),
{
    let header = ResponseHeader::default().with_correlation_id(correlation_id);
    let mut out: Vec<u8> = Vec::new();
    match header.encode(&mut out, header_version) {
        Ok(()) => Ok(out),
        Err(_) => Err(()),
    }
}

/// `RequestHeader::decode` of `kafka-protocol` from the front of `bytes`:
/// it succeeds exactly where `request_header_len` has a length, and then
/// gives the API key, the API version and the correlation id, read from the
/// first eight bytes, and the number of bytes after the header.
#[verifier::external_body]
pub(crate) fn decode_request_header(bytes: &[u8], header_version: i16) -> (r: Result<
    (i16, i16, i32, usize),
    (),
>)
    ensures
        r is Ok <==> request_header_len(bytes@, header_version) is Some,
        r matches Ok((key, version, correlation_id, rest)) ==> {
            &&& key as int == be_i16(bytes@.take(2))
            &&& version as int == be_i16(bytes@.subrange(2, 4))
            &&& correlation_id as int == be_i32(bytes@.subrange(4, 8))
            &&& rest == bytes@.len() - request_header_len(bytes@, header_version).unwrap()
        },
{
    let mut rest = bytes;
    match RequestHeader::decode(&mut rest, header_version) {
        Ok(h) => Ok((h.request_api_key, h.request_api_version, h.correlation_id, rest.len())),
        Err(_) => Err(()),
    }
}

/// `ResponseHeader::decode` of `kafka-protocol` from the front of `bytes`:
/// it succeeds exactly where `response_header_len` has a length, and then
/// gives the number of bytes after the header.
#[verifier::external_body]
pub(crate) fn decode_response_header(bytes: &[u8], header_version: i16) -> (r: Result<usize, ()>)
    ensures
        r is Ok <==> response_header_len(bytes@, header_version) is Some,
        r matches Ok(rest) ==> rest == bytes@.len() - response_header_len(
            bytes@,
            header_version,
        ).unwrap(),
{
    let mut rest = bytes;
    match ResponseHeader::decode(&mut rest, header_version) {
        Ok(_) => Ok(rest.len()),
        Err(_) => Err(()),
    }
}

} // verus!
