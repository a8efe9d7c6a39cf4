//! The server side of Kafka: reading requests off the inbound bytes,
//! remembering the API version of each one until it is answered, and
//! writing the answers out.
use super::api::{is_api_key, request_header_version, request_header_version_of, response_header_version, response_header_version_of, API_KEY_COUNT};
use super::frame::{announced_size, be_i16, be_i32, check_valid_packet, frame_complete, frame_payload, framed, read_i16, read_i32, size_overflows};
use super::header::{decode_request_header, encode_response_header, request_header_len, response_header_wire};
use super::messages::{api_name, api_name_of, decode_request_body, request_body_len, request_decoding, response_encoding, response_key, KafkaRequest, KafkaResponse};
use super::{KafkaProtocolError, ProtoInfo};
use std::collections::BTreeMap;
use vstd::prelude::*;

verus! {

broadcast use vstd::laws_cmp::group_laws_cmp, vstd::std_specs::btree::group_btree_axioms;

/// How the server side is set up.
#[derive(Clone, Debug)]
pub struct KafkaProtoServerConfig {
    /// How long the connection may stay quiet.
    pub timeout: std::time::Duration,
}

/// The API key that a request frame names, in the two bytes after its size.
pub open spec fn framed_api_key(s: Seq<u8>) -> i16 {
    be_i16(s.subrange(4, 6)) as i16
}

/// The API version that a request frame names, in the two bytes after its
/// API key.
pub open spec fn framed_api_version(s: Seq<u8>) -> i16 {
    be_i16(s.subrange(6, 8)) as i16
}

/// The correlation id that a request frame carries, in the four bytes after
/// its API version.
pub open spec fn framed_correlation_id(s: Seq<u8>) -> i32 {
    be_i32(s.subrange(8, 12)) as i32
}

/// The header version of the request in a frame.
pub open spec fn framed_header_version(s: Seq<u8>) -> i16 {
    request_header_version_of(framed_api_key(s), framed_api_version(s))
}

/// The buffer starts with a whole frame whose API key is known and whose
/// request header reads under the header version of that key and version.
pub open spec fn request_header_accepted(s: Seq<u8>) -> bool {
    &&& frame_complete(s)
    &&& is_api_key(framed_api_key(s))
    &&& request_header_len(s.skip(4), framed_header_version(s)) is Some
}

/// The text of a request body that does not decode: the name of the API,
/// and for `Produce` and `ApiVersions` the decoder's own words.
pub open spec fn body_error_text(key: i16, detail: Seq<char>) -> Seq<char> {
    if key == 0 || key == 18 {
        "Invalid "@ + api_name(key) + " Request: "@ + detail
    } else {
        "Invalid "@ + api_name(key) + " Request"@
    }
}

/// The bytes after the request header of the frame at the front of `s`.
pub open spec fn framed_request_body(s: Seq<u8>) -> Seq<u8> {
    s.skip(4).skip(request_header_len(s.skip(4), framed_header_version(s)).unwrap() as int)
}

/// `kafka-protocol` decodes the request body in the frame at the front of
/// `s`, by the frame's API key and API version.
pub open spec fn request_body_decodes(s: Seq<u8>) -> bool {
    request_body_len(framed_api_key(s), framed_api_version(s), framed_request_body(s)) is Some
}

/// The request that `kafka-protocol` decodes from the body of the frame at
/// the front of `s`, where it decodes.
pub open spec fn decoded_request(s: Seq<u8>) -> KafkaRequest {
    request_decoding(framed_api_key(s), framed_api_version(s), framed_request_body(s)).unwrap().0
}

/// The outcome of a request whose header was read: where the body decodes,
/// the decoded request of the frame's API, with the correlation id and the
/// API version of its header; otherwise the text of the body's error.
pub open spec fn request_body_outcome(
    r: Option<Result<(ProtoInfo, KafkaRequest), String>>,
    s: Seq<u8>,
) -> bool {
    &&& (r matches Some(Ok(_))) <==> request_body_decodes(s)
    &&& match r {
        Some(Ok((info, m))) => {
            &&& m == decoded_request(s)
            &&& super::messages::request_key(m) == framed_api_key(s)
            &&& info.correlation_id == framed_correlation_id(s)
            &&& info.api_version == framed_api_version(s)
        },
        Some(Err(e)) => exists|d: Seq<char>| e@ == body_error_text(framed_api_key(s), d),
        None => false,
    }
}

/// The result is the error with this text.
pub open spec fn is_error_text<T>(r: Option<Result<T, String>>, text: Seq<char>) -> bool {
    match r {
        Some(Err(e)) => e@ == text,
        _ => false,
    }
}

/// The text of a request body that does not decode.
fn body_error(key: i16, detail: String) -> (r: String)
    requires
        is_api_key(key),
    ensures
        r@ == body_error_text(key, detail@),
{
    let mut text = String::from_str("Invalid ");
    text.append(api_name_of(key));
    if key == 0 || key == 18 {
        text.append(" Request: ");
        text.append(detail.as_str());
    } else {
        text.append(" Request");
    }
    text
}

/// Reads the request at the front of `buff`: `None` while the frame is not
/// all there; otherwise the request, with the correlation id and the API
/// version of its header, or the text of what went wrong.
pub fn parse_kafka_request_tracked(buff: &[u8]) -> (r: Option<Result<(ProtoInfo, KafkaRequest), String>>)
    requires
        buff@.len() >= 4,
        !size_overflows(buff@),
        frame_complete(buff@) ==> buff@.len() >= 8,
    ensures
        r is Some <==> frame_complete(buff@),
        frame_complete(buff@) && !is_api_key(framed_api_key(buff@)) ==> is_error_text(
            r,
            "Invalid API Key"@,
        ),
        frame_complete(buff@) && is_api_key(framed_api_key(buff@)) && request_header_len(
            buff@.skip(4),
            framed_header_version(buff@),
        ) is None ==> is_error_text(r, "Invalid API Version"@),
        request_header_accepted(buff@) ==> request_body_outcome(r, buff@),
{
    let size = read_i32(vstd::slice::slice_subrange(buff, 0, 4));
    assert(buff@.subrange(0, 4) =~= buff@.take(4));
    if size < 0 {
        return None;
    }
    if buff.len() - 4 < size as usize {
        return None;
    }
    let rest = vstd::slice::slice_subrange(buff, 4, buff.len());
    let api_key = read_i16(vstd::slice::slice_subrange(rest, 0, 2));
    let api_version = read_i16(vstd::slice::slice_subrange(rest, 2, 4));
    assert(rest@.subrange(0, 2) =~= buff@.subrange(4, 6));
    assert(rest@.subrange(2, 4) =~= buff@.subrange(6, 8));
    assert(rest@ =~= buff@.skip(4));
    if api_key < 0 || api_key >= API_KEY_COUNT {
        return Some(Err(String::from_str("Invalid API Key")));
    }
    let header_version = request_header_version(api_key, api_version);
    let (_, version, correlation_id, left) = match decode_request_header(rest, header_version) {
        Ok(h) => h,
        Err(()) => {
            return Some(Err(String::from_str("Invalid API Version")));
        },
    };
    assert(rest@.take(2) =~= buff@.subrange(4, 6));
    assert(rest@.subrange(4, 8) =~= buff@.subrange(8, 12));
    let body = vstd::slice::slice_subrange(rest, rest.len() - left, rest.len());
    assert(body@ =~= framed_request_body(buff@));
    match decode_request_body(api_key, body, version) {
        Ok((m, _)) => Some(Ok((ProtoInfo { correlation_id, api_version: version }, m))),
        Err(detail) => Some(Err(body_error(api_key, detail))),
    }
}

/// Reads the request at the front of `buff`: `None` while the frame is not
/// all there; otherwise the request, or the text of what went wrong.
pub fn parse_kafka_request(buff: &[u8]) -> (r: Option<Result<KafkaRequest, String>>)
    requires
        buff@.len() >= 4,
        !size_overflows(buff@),
        frame_complete(buff@) ==> buff@.len() >= 8,
    ensures
        r is Some <==> frame_complete(buff@),
        frame_complete(buff@) && !is_api_key(framed_api_key(buff@)) ==> is_error_text(
            r,
            "Invalid API Key"@,
        ),
        frame_complete(buff@) && is_api_key(framed_api_key(buff@)) && request_header_len(
            buff@.skip(4),
            framed_header_version(buff@),
        ) is None ==> is_error_text(r, "Invalid API Version"@),
        request_header_accepted(buff@) ==> match r {
            Some(Ok(m)) => m == decoded_request(buff@) && super::messages::request_key(m)
                == framed_api_key(buff@),
            Some(Err(e)) => exists|d: Seq<char>| e@ == body_error_text(framed_api_key(buff@), d),
            None => false,
        },
        request_header_accepted(buff@) ==> ((r matches Some(Ok(_))) <==> request_body_decodes(buff@)),
{
    match parse_kafka_request_tracked(buff) {
        None => None,
        Some(Ok((_, m))) => Some(Ok(m)),
        Some(Err(e)) => Some(Err(e)),
    }
}

/// A request, with the correlation id that its answer must carry.
#[derive(Debug, PartialEq)]
pub struct TrackedKafkaRequest {
    pub correlation_id: i32,
    pub request: KafkaRequest,
}

/// The answer of the inner service to a request.
#[derive(Debug, PartialEq)]
pub struct TrackedKafkaResponse {
    pub correlation_id: i32,
    pub response: KafkaResponse,
}

/// A response ready to be written: its correlation id, the header version
/// and the API version of the request it answers.
#[derive(Debug)]
pub struct InnerKafkaResponse {
    correlation_id: i32,
    header_version: i16,
    api_version: i16,
    response: KafkaResponse,
}

impl TrackedKafkaResponse {
    /// The response, to be written under the API version of its request.
    pub fn into_inner(self, api_version: i16) -> (r: InnerKafkaResponse)
        ensures
            r.spec_correlation_id() == self.correlation_id,
            r.spec_api_version() == api_version,
            r.spec_header_version() == response_header_version_of(
                response_key(self.response),
                api_version,
            ),
            r.spec_response() == self.response,
    {
        let key = self.response.api_key();
        let header_version = response_header_version(key, api_version);
        InnerKafkaResponse {
            correlation_id: self.correlation_id,
            header_version,
            api_version,
            response: self.response,
        }
    }
}

/// A response frame whose header and body are these bytes.
pub open spec fn response_frame(correlation_id: i32, api_version: i16, body: Seq<u8>) -> Seq<u8> {
    framed(response_header_wire(correlation_id, api_version) + body)
}

impl InnerKafkaResponse {
    /// The correlation id that the response carries.
    pub closed spec fn spec_correlation_id(&self) -> i32 {
        self.correlation_id
    }

    /// The header version of the response's API at its API version.
    pub closed spec fn spec_header_version(&self) -> i16 {
        self.header_version
    }

    /// The API version that the response is written under.
    pub closed spec fn spec_api_version(&self) -> i16 {
        self.api_version
    }

    /// The response itself.
    pub closed spec fn spec_response(&self) -> KafkaResponse {
        self.response
    }

    /// Writes the response: the size, then a header with the correlation id
    /// written under the API version, then the body written under the same
    /// version. Succeeds exactly where the body encodes; otherwise writes
    /// nothing and gives the error.
    pub fn write_to<E>(&self, writer: &mut Vec<u8>) -> (r: Result<(), KafkaProtocolError<E>>)
        ensures
            r is Ok <==> response_encoding(self.spec_response(), self.spec_api_version()) is Some,
            r is Ok ==> final(writer)@ == old(writer)@ + response_frame(
                self.spec_correlation_id(),
                self.spec_api_version(),
                response_encoding(self.spec_response(), self.spec_api_version()).unwrap(),
            ),
            r is Err ==> final(writer)@ == old(writer)@ && r == Err::<(), KafkaProtocolError<E>>(
                KafkaProtocolError::UnhandledImplementation("Response encode failure"),
            ),
    {
        let header = match encode_response_header(self.correlation_id, self.api_version) {
            Ok(h) => h,
            Err(()) => {
                return Err(KafkaProtocolError::UnhandledImplementation("Response header encode failure"));
            },
        };
        let body = match self.response.encode_body(self.api_version) {
            Ok(b) => b,
            Err(()) => {
                return Err(KafkaProtocolError::UnhandledImplementation("Response encode failure"));
            },
        };
        let mut payload = header;
        crate::wire::push_all(&mut payload, body.as_slice());
        let w = frame_payload(payload.as_slice());
        assert(w@ == response_frame(self.spec_correlation_id(), self.spec_api_version(), body@));
        crate::wire::push_all(writer, w.as_slice());
        Ok(())
    }
}

/// The per-connection state of the server side: the API version of each
/// request that has not been answered yet, by correlation id.
pub struct KafkaServerState {
    pending: BTreeMap<i32, i16>,
}

impl View for KafkaServerState {
    type V = Map<i32, i16>;

    closed spec fn view(&self) -> Map<i32, i16> {
        self.pending@
    }
}

impl KafkaServerState {
    /// A connection with no request pending.
    pub fn new() -> (s: Self)
        ensures
            s@ == Map::<i32, i16>::empty(),
    {
        KafkaServerState { pending: BTreeMap::new() }
    }

    /// Takes the first whole frame off the inbound bytes and reads the
    /// request in it, remembering its API version under its correlation id.
    /// `None` while no frame is all there, with the bytes left as they are.
    pub fn receive(&mut self, inbound: &mut Vec<u8>) -> (r: Option<Result<TrackedKafkaRequest, String>>)
        requires
            old(inbound)@.len() >= 4,
            !size_overflows(old(inbound)@),
            frame_complete(old(inbound)@) ==> announced_size(old(inbound)@) >= 4,
        ensures
            r is Some <==> frame_complete(old(inbound)@),
            r is None ==> final(inbound)@ == old(inbound)@ && final(self)@ == old(self)@,
            r is Some ==> final(inbound)@ == old(inbound)@.skip(announced_size(old(inbound)@) + 4),
            r matches Some(Err(_)) ==> final(self)@ == old(self)@,
            r is Some && request_header_accepted(old(inbound)@.take(announced_size(old(inbound)@) + 4))
                && request_body_decodes(old(inbound)@.take(announced_size(old(inbound)@) + 4))
                ==> r matches Some(Ok(_)),
            r matches Some(Ok(t)) ==> {
                let frame = old(inbound)@.take(announced_size(old(inbound)@) + 4);
                &&& request_header_accepted(frame)
                &&& request_body_decodes(frame)
                &&& t.correlation_id == framed_correlation_id(frame)
                &&& t.request == decoded_request(frame)
                &&& super::messages::request_key(t.request) == framed_api_key(frame)
                &&& final(self)@ == old(self)@.insert(t.correlation_id, framed_api_version(frame))
            },
    {
        let frame = match check_valid_packet(inbound) {
            None => {
                return None;
            },
            Some(f) => f,
        };
        let ghost n = announced_size(old(inbound)@) + 4;
        assert(frame@.take(4) =~= old(inbound)@.take(4));
        match parse_kafka_request_tracked(frame.as_slice()) {
            None => None,
            Some(Err(e)) => Some(Err(e)),
            Some(Ok((info, request))) => {
                self.pending.insert(info.correlation_id, info.api_version);
                Some(Ok(TrackedKafkaRequest { correlation_id: info.correlation_id, request }))
            },
        }
    }

    /// The bytes that answer a request: the response written under the API
    /// version of the request with its correlation id, which is forgotten;
    /// an error where no such request is pending.
    pub fn respond<E>(&mut self, response: TrackedKafkaResponse) -> (r: Result<
        Vec<u8>,
        KafkaProtocolError<E>,
    >)
        ensures
            !old(self)@.contains_key(response.correlation_id) ==> {
                &&& r == Err::<Vec<u8>, KafkaProtocolError<E>>(
                    KafkaProtocolError::UnhandledImplementation(
                        "Received message with unmatched correlation_id",
                    ),
                )
                &&& final(self)@ == old(self)@
            },
            old(self)@.contains_key(response.correlation_id) ==> {
                &&& final(self)@ == old(self)@.remove(response.correlation_id)
                &&& r is Ok <==> response_encoding(
                    response.response,
                    old(self)@[response.correlation_id],
                ) is Some
                &&& r matches Ok(w) ==> w@ == response_frame(
                    response.correlation_id,
                    old(self)@[response.correlation_id],
                    response_encoding(response.response, old(self)@[response.correlation_id]).unwrap(),
                )
                &&& r is Err ==> r == Err::<Vec<u8>, KafkaProtocolError<E>>(
                    KafkaProtocolError::UnhandledImplementation("Response encode failure"),
                )
            },
    {
        let api_version = match self.pending.remove(&response.correlation_id) {
            None => {
                return Err(
                    KafkaProtocolError::UnhandledImplementation(
                        "Received message with unmatched correlation_id",
                    ),
                );
            },
            Some(v) => v,
        };
        let inner = response.into_inner(api_version);
        let mut out: Vec<u8> = Vec::new();
        inner.write_to(&mut out)?;
        assert(out@ =~= response_frame(
            response.correlation_id,
            api_version,
            response_encoding(response.response, api_version).unwrap(),
        ));
        Ok(out)
    }
}

} // verus!
