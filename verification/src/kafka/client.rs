//! The client side of Kafka: numbering the requests it sends, writing them
//! out, and pairing each response that comes back with the request that it
//! answers, to decode it.
use super::api::{is_api_key, response_header_version, response_header_version_of};
use super::frame::{be_i32, frame_complete, frame_payload, framed, read_i32, size_overflows};
use super::header::{decode_response_header, encode_request_header, request_header_wire, response_header_len, utf8_of};
use super::messages::{decode_response_body, request_encoding, request_key, response_body_len, response_decoding, response_decode_error, response_decode_error_of, response_key, KafkaRequest, KafkaResponse};
use super::KafkaProtocolError;
use std::collections::BTreeMap;
use vstd::prelude::*;

verus! {

broadcast use vstd::laws_cmp::group_laws_cmp, vstd::std_specs::btree::group_btree_axioms;

/// How the client side is set up.
#[derive(Clone, Debug)]
pub struct KafkaProtoClientConfig {
    /// How long the connection may stay quiet.
    pub timeout: std::time::Duration,
    /// The client id that requests carry.
    pub client_id: Option<String>,
}

/// What wraps a service with the client side of Kafka.
pub struct ProtoKafkaClientLayer {
    pub config: KafkaProtoClientConfig,
}

impl ProtoKafkaClientLayer {
    /// A layer with this configuration.
    pub fn new(config: KafkaProtoClientConfig) -> (r: Self)
        ensures
            r.config == config,
    {
        ProtoKafkaClientLayer { config }
    }
}

/// A request with what its header carries.
pub struct FullKafkaRequest {
    pub api_version: i16,
    pub correlation_id: i32,
    pub message: KafkaRequest,
    pub client_id: Option<String>,
}

impl KafkaRequest {
    /// The request with the API version, the correlation id and the client
    /// id of its header.
    pub fn into_full(self, api_version: i16, correlation_id: i32, client_id: Option<String>) -> (r:
        FullKafkaRequest)
        ensures
            r.api_version == api_version,
            r.correlation_id == correlation_id,
            r.message == self,
            r.client_id == client_id,
    {
        FullKafkaRequest { api_version, correlation_id, message: self, client_id }
    }
}

/// The header that a request is written with: its API key, API version,
/// correlation id and client id, in the layout of its API version taken as
/// a header version.
pub open spec fn full_request_header(r: FullKafkaRequest) -> Option<Seq<u8>> {
    request_header_wire(
        request_key(r.message),
        r.api_version,
        r.correlation_id,
        utf8_of(r.client_id),
        r.api_version,
    )
}

/// A copy of an optional string.
fn copy_client_id(client_id: &Option<String>) -> (r: Option<String>)
    ensures
        utf8_of(r) == utf8_of(*client_id),
        r is Some <==> client_id is Some,
        r matches Some(s) ==> s@ == client_id.unwrap()@,
{
    match client_id {
        Some(s) => Some(s.clone()),
        None => None,
    }
}

impl FullKafkaRequest {
    /// Writes the request: the size, then the header, then the message
    /// written under the API version. Succeeds exactly where both encode;
    /// otherwise writes nothing and gives the error.
    pub fn write_to<E>(&self, writer: &mut Vec<u8>) -> (r: Result<(), KafkaProtocolError<E>>)
        ensures
            r is Ok <==> full_request_header(*self) is Some && request_encoding(
                self.message,
                self.api_version,
            ) is Some,
            r is Ok ==> final(writer)@ == old(writer)@ + framed(
                full_request_header(*self).unwrap() + request_encoding(
                    self.message,
                    self.api_version,
                ).unwrap(),
            ),
            r is Err ==> final(writer)@ == old(writer)@,
            full_request_header(*self) is None ==> r == Err::<(), KafkaProtocolError<E>>(
                KafkaProtocolError::UnhandledImplementation("Response header encode failure"),
            ),
            full_request_header(*self) is Some && request_encoding(self.message, self.api_version)
                is None ==> r == Err::<(), KafkaProtocolError<E>>(
                KafkaProtocolError::UnhandledImplementation("Response encode failure"),
            ),
    {
        let key = self.message.api_key();
        let client_id = copy_client_id(&self.client_id);
        let header = match encode_request_header(
            key,
            self.api_version,
            self.correlation_id,
            client_id,
            self.api_version,
        ) {
            Ok(h) => h,
            Err(()) => {
                return Err(KafkaProtocolError::UnhandledImplementation("Response header encode failure"));
            },
        };
        let body = match self.message.encode_body(self.api_version) {
            Ok(b) => b,
            Err(()) => {
                return Err(KafkaProtocolError::UnhandledImplementation("Response encode failure"));
            },
        };
        let mut payload = header;
        crate::wire::push_all(&mut payload, body.as_slice());
        let w = frame_payload(payload.as_slice());
        assert(w@ == framed(full_request_header(*self).unwrap() + body@));
        crate::wire::push_all(writer, w.as_slice());
        Ok(())
    }
}

/// The correlation id of a response frame, in the four bytes after its size.
pub open spec fn response_correlation_id(s: Seq<u8>) -> i32 {
    be_i32(s.subrange(4, 8)) as i32
}

/// Every pending request names a known API.
pub open spec fn pending_keys_known(m: Map<i32, (i16, i16)>) -> bool {
    forall|k: i32| m.contains_key(k) ==> is_api_key(#[trigger] m[k].0)
}

/// Decodes the response of the given API and API version at the front of
/// `buf`, and drops the bytes it took.
pub fn parse_response_internal<E>(api: i16, buf: &mut Vec<u8>, version: i16) -> (r: Result<
    KafkaResponse,
    KafkaProtocolError<E>,
>)
    requires
        is_api_key(api),
    ensures
        r is Ok <==> response_body_len(api, version, old(buf)@) is Some,
        r matches Ok(m) ==> response_key(m) == api && m == response_decoding(
            api,
            version,
            old(buf)@,
        ).unwrap().0,
        r is Ok ==> final(buf)@ == old(buf)@.skip(
            response_body_len(api, version, old(buf)@).unwrap() as int,
        ),
        r is Err ==> r == Err::<KafkaResponse, KafkaProtocolError<E>>(
            KafkaProtocolError::UnhandledImplementation(response_decode_error(api)),
        ) && final(buf)@ == old(buf)@,
{
    match decode_response_body(api, buf.as_slice(), version) {
        Ok((m, used)) => {
            let rest = buf.split_off(used);
            *buf = rest;
            assert(buf@ =~= old(buf)@.skip(used as int));
            Ok(m)
        },
        Err(_) => Err(KafkaProtocolError::UnhandledImplementation(response_decode_error_of(api))),
    }
}

/// What reading the response at the front of `before` does, with the
/// pending requests `pending` (API key and version by correlation id):
/// nothing while the frame is not all there; otherwise the size is taken,
/// the request with the frame's correlation id is forgotten (an error where
/// there is none), its response header is taken (an error where it does
/// not read under the header version of the request's API and version),
/// and its body is decoded by that API and version, taking the bytes that
/// `kafka-protocol`'s decoder takes after the header (an error naming the
/// API exactly where that decoder refuses them).
pub open spec fn response_outcome<E>(
    before: Seq<u8>,
    after: Seq<u8>,
    pending: Map<i32, (i16, i16)>,
    pending_after: Map<i32, (i16, i16)>,
    r: Result<Option<KafkaResponse>, KafkaProtocolError<E>>,
) -> bool {
    if !frame_complete(before) {
        &&& r == Ok::<Option<KafkaResponse>, KafkaProtocolError<E>>(None)
        &&& after == before
        &&& pending_after == pending
    } else if !pending.contains_key(response_correlation_id(before)) {
        &&& r == Err::<Option<KafkaResponse>, KafkaProtocolError<E>>(
            KafkaProtocolError::UnhandledImplementation(
                "Encountered correlation id in response that isn't tracked on client",
            ),
        )
        &&& after == before.skip(4)
        &&& pending_after == pending
    } else {
        let cid = response_correlation_id(before);
        let (api, version) = pending[cid];
        let after_size = before.skip(4);
        let header_len = response_header_len(after_size, response_header_version_of(api, version));
        &&& pending_after == pending.remove(cid)
        &&& header_len is None ==> {
            &&& r == Err::<Option<KafkaResponse>, KafkaProtocolError<E>>(
                KafkaProtocolError::UnhandledImplementation("Unable to deserialise response header"),
            )
            &&& after == after_size
        }
        &&& header_len is Some ==> {
            let body = after_size.skip(header_len.unwrap() as int);
            let taken = response_body_len(api, version, body);
            &&& r is Ok <==> taken is Some
            &&& r matches Ok(Some(m)) ==> {
                &&& response_key(m) == api
                &&& m == response_decoding(api, version, body).unwrap().0
                &&& after == body.skip(taken.unwrap() as int)
            }
            &&& r matches Ok(None) ==> false
            &&& r is Err ==> {
                &&& r == Err::<Option<KafkaResponse>, KafkaProtocolError<E>>(
                    KafkaProtocolError::UnhandledImplementation(response_decode_error(api)),
                )
                &&& after == body
            }
        }
    }
}

/// Reads the response at the front of `buf`, if it is all there: finds the
/// request it answers by its correlation id, forgets that request, and
/// decodes the response by the API and the API version the request had.
/// `None` while the response is not all there, with nothing taken.
pub fn parse_response<E>(
    buf: &mut Vec<u8>,
    tracked_requests: &mut BTreeMap<i32, (i16, i16)>,
) -> (r: Result<Option<KafkaResponse>, KafkaProtocolError<E>>)
    requires
        old(buf)@.len() >= 4 ==> !size_overflows(old(buf)@),
        frame_complete(old(buf)@) ==> old(buf)@.len() >= 8,
        pending_keys_known(old(tracked_requests)@),
    ensures
        response_outcome(old(buf)@, final(buf)@, old(tracked_requests)@, final(tracked_requests)@, r),
{
    if buf.len() < 4 {
        return Ok(None);
    }
    let sz = read_i32(vstd::slice::slice_subrange(buf.as_slice(), 0, 4));
    assert(buf@.subrange(0, 4) =~= buf@.take(4));
    if sz < 0 {
        return Ok(None);
    }
    if buf.len() - 4 < sz as usize {
        return Ok(None);
    }
    let mut rest = buf.split_off(4);
    std::mem::swap(buf, &mut rest);
    assert(buf@ =~= old(buf)@.skip(4));
    let correlation_id = read_i32(vstd::slice::slice_subrange(buf.as_slice(), 0, 4));
    assert(buf@.subrange(0, 4) =~= old(buf)@.subrange(4, 8));
    assert(old(buf)@.subrange(0, 4) =~= old(buf)@.take(4));
    assert(frame_complete(old(buf)@));
    assert(correlation_id == response_correlation_id(old(buf)@));
    let (api, version) = match tracked_requests.remove(&correlation_id) {
        None => {
            assert(tracked_requests@ =~= old(tracked_requests)@);
            return Err(
                KafkaProtocolError::UnhandledImplementation(
                    "Encountered correlation id in response that isn't tracked on client",
                ),
            );
        },
        Some(entry) => entry,
    };
    let header_version = response_header_version(api, version);
    let left = match decode_response_header(buf.as_slice(), header_version) {
        Ok(left) => left,
        Err(()) => {
            return Err(
                KafkaProtocolError::UnhandledImplementation("Unable to deserialise response header"),
            );
        },
    };
    let header_len = buf.len() - left;
    let mut body = buf.split_off(header_len);
    std::mem::swap(buf, &mut body);
    let resp = parse_response_internal(api, buf, version)?;
    Ok(Some(resp))
}

/// The per-connection state of the client side: the correlation id of the
/// next request, and the API key and API version of each request not
/// answered yet, by correlation id.
pub struct KafkaClientState {
    next_correlation_id: i32,
    pending: BTreeMap<i32, (i16, i16)>,
}

impl KafkaClientState {
    #[verifier::type_invariant]
    spec fn inv(self) -> bool {
        &&& 1 <= self.next_correlation_id
        &&& forall|k: i32| self.pending@.contains_key(k) ==> k < self.next_correlation_id
        &&& pending_keys_known(self.pending@)
    }

    /// The correlation id that the next request gets.
    pub closed spec fn next_id(&self) -> i32 {
        self.next_correlation_id
    }

    /// The requests not answered yet: API key and API version by
    /// correlation id.
    pub closed spec fn pending_requests(&self) -> Map<i32, (i16, i16)> {
        self.pending@
    }

    /// The correlation id that the next request gets.
    pub fn next_correlation_id(&self) -> (r: i32)
        ensures
            r == self.next_id(),
    {
        self.next_correlation_id
    }

    /// A connection that has sent nothing; its first request gets the
    /// correlation id 1.
    pub fn new() -> (s: Self)
        ensures
            s.next_id() == 1,
            s.pending_requests() == Map::<i32, (i16, i16)>::empty(),
    {
        KafkaClientState { next_correlation_id: 1, pending: BTreeMap::new() }
    }

    /// Numbers a request with the next correlation id and remembers its API
    /// key and the API version it is sent with, which is 3.
    pub fn send(&mut self, request: KafkaRequest, client_id: Option<String>) -> (r: FullKafkaRequest)
        requires
            old(self).next_id() < i32::MAX,
        ensures
            r.correlation_id == old(self).next_id(),
            r.api_version == 3,
            r.message == request,
            r.client_id == client_id,
            !old(self).pending_requests().contains_key(r.correlation_id),
            final(self).next_id() == old(self).next_id() + 1,
            final(self).pending_requests() == old(self).pending_requests().insert(
                r.correlation_id,
                (request_key(request), 3i16),
            ),
    {
        proof {
            use_type_invariant(&*self);
        }
        let correlation_id = self.next_correlation_id;
        self.next_correlation_id = self.next_correlation_id + 1;
        let version: i16 = 3;
        let mut pending: BTreeMap<i32, (i16, i16)> = BTreeMap::new();
        std::mem::swap(&mut pending, &mut self.pending);
        pending.insert(correlation_id, (request.api_key(), version));
        self.pending = pending;
        request.into_full(version, correlation_id, client_id)
    }

    /// Reads the response at the front of the inbound bytes, if it is all
    /// there, as `parse_response` does with the requests of this connection.
    pub fn receive<E>(&mut self, buf: &mut Vec<u8>) -> (r: Result<
        Option<KafkaResponse>,
        KafkaProtocolError<E>,
    >)
        requires
            old(buf)@.len() >= 4 ==> !size_overflows(old(buf)@),
            frame_complete(old(buf)@) ==> old(buf)@.len() >= 8,
        ensures
            final(self).next_id() == old(self).next_id(),
            response_outcome(
                old(buf)@,
                final(buf)@,
                old(self).pending_requests(),
                final(self).pending_requests(),
                r,
            ),
    {
        proof {
            use_type_invariant(&*self);
        }
        let mut pending: BTreeMap<i32, (i16, i16)> = BTreeMap::new();
        std::mem::swap(&mut pending, &mut self.pending);
        let r = parse_response(buf, &mut pending);
        assert(pending@.dom().subset_of(old(self).pending@.dom()));
        self.pending = pending;
        r
    }
}

} // verus!
