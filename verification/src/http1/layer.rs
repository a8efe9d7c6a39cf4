//! The decisions of the HTTP/1.1 server layer: what a parsed request leads
//! to, and whether a response switches the connection to another protocol.
use super::headers::name_index;
use super::text::bytes_equal;
use super::{HTTP1Request, HeaderList, Http1ParseError, ProtoHttp1LayerError};
use vstd::prelude::*;

verus! {

/// `upgrade`, the header name as `http` spells it.
pub open spec fn upgrade_name() -> Seq<u8> {
    seq![0x75u8, 0x70, 0x67, 0x72, 0x61, 0x64, 0x65]
}

/// `connection`, the header name as `http` spells it.
pub open spec fn connection_name() -> Seq<u8> {
    seq![0x63u8, 0x6f, 0x6e, 0x6e, 0x65, 0x63, 0x74, 0x69, 0x6f, 0x6e]
}

/// `Upgrade`, the value of the `connection` header that asks for a switch.
pub open spec fn upgrade_value() -> Seq<u8> {
    seq![0x55u8, 0x70, 0x67, 0x72, 0x61, 0x64, 0x65]
}

/// The headers ask to switch protocols: there is an `upgrade` header, and a
/// `connection` header whose value is `Upgrade`.
pub open spec fn asks_upgrade(headers: Seq<(Seq<u8>, Seq<u8>)>) -> bool {
    &&& name_index(headers, upgrade_name()) is Some
    &&& name_index(headers, connection_name()) matches Some(i)
    &&& headers[i as int].1 == upgrade_value()
}

/// Whether a response hands the connection over to another protocol after
/// it is sent.
pub fn is_protocol_upgrade(headers: &HeaderList) -> (r: bool)
    ensures
        r == asks_upgrade(headers@),
{
    let upgrade: [u8; 7] = [0x75u8, 0x70, 0x67, 0x72, 0x61, 0x64, 0x65];
    let connection: [u8; 10] = [0x63u8, 0x6f, 0x6e, 0x6e, 0x65, 0x63, 0x74, 0x69, 0x6f, 0x6e];
    let value: [u8; 7] = [0x55u8, 0x70, 0x67, 0x72, 0x61, 0x64, 0x65];
    assert(upgrade@ =~= upgrade_name());
    assert(connection@ =~= connection_name());
    assert(value@ =~= upgrade_value());
    if !headers.contains_key(upgrade.as_slice()) {
        return false;
    }
    match headers.get(connection.as_slice()) {
        None => false,
        Some(v) => bytes_equal(v.as_slice(), value.as_slice()),
    }
}

/// What the server layer does with the outcome of parsing a request: a
/// request goes to the inner service; a partly parsed request and a parse
/// error end the connection with an implementation error.
pub fn request_to_serve<E>(
    parsed: Result<Result<HTTP1Request, (HTTP1Request, Vec<Http1ParseError>)>, &'static str>,
) -> (r: Result<HTTP1Request, ProtoHttp1LayerError<E>>)
    ensures
        match parsed {
            Ok(Ok(req)) => r == Ok::<HTTP1Request, ProtoHttp1LayerError<E>>(req),
            Ok(Err(_)) => r matches Err(ProtoHttp1LayerError::Implementation(text))
                && text@ == "Partial error is not implemented yet"@,
            Err(e) => r matches Err(ProtoHttp1LayerError::Implementation(text))
                && text@ == "Error parsing request: "@ + e@,
        },
{
    match parsed {
        Ok(Ok(req)) => Ok(req),
        Ok(Err(_)) => Err(
            ProtoHttp1LayerError::Implementation(String::from_str("Partial error is not implemented yet")),
        ),
        Err(e) => {
            let mut text = String::from_str("Error parsing request: ");
            text.append(e);
            Err(ProtoHttp1LayerError::Implementation(text))
        },
    }
}

} // verus!
