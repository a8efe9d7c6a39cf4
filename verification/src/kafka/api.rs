//! Kafka API keys: which codes name an API, the header versions that go
//! with each API version, and the versions that each API supports.
use kafka_protocol::messages::ApiKey;
use vstd::prelude::*;

verus! {

/// The number of APIs that `kafka-protocol` knows; their keys are the codes
/// from 0 below this number.
pub const API_KEY_COUNT: i16 = 76;

/// The code names an API: `ApiKey::try_from` of `kafka-protocol` accepts
/// exactly the codes `0..=75`.
pub open spec fn is_api_key(key: i16) -> bool {
    0 <= key < API_KEY_COUNT
}

/// The key that `ApiVersions` requests carry.
pub const API_VERSIONS_KEY: i16 = 18;

/// What `ApiKey::request_header_version` of `kafka-protocol` gives for the
/// API with this code and this API version.
pub uninterp spec fn request_header_version_of(key: i16, api_version: i16) -> i16;

/// What `ApiKey::response_header_version` of `kafka-protocol` gives for the
/// API with this code and this API version.
pub uninterp spec fn response_header_version_of(key: i16, api_version: i16) -> i16;

/// What `ApiKey::valid_versions` of `kafka-protocol` gives for the API with
/// this code: the least and the greatest version it supports.
pub uninterp spec fn valid_versions_of(key: i16) -> (i16, i16);

/// `ApiKey::request_header_version` of `kafka-protocol`, for the API with
/// this code (converted by `ApiKey::try_from`, which accepts it): the header
/// version of requests of this API version. Its value is only named.
#[verifier::external_body]
pub(crate) fn request_header_version(key: i16, api_version: i16) -> (r: i16)
    requires
        is_api_key(key),
    ensures
        r == request_header_version_of(key, api_version),
{
    ApiKey::try_from(key).unwrap().request_header_version(api_version)
}

/// `ApiKey::response_header_version` of `kafka-protocol`, for the API with
/// this code (converted by `ApiKey::try_from`, which accepts it): the header
/// version of responses of this API version. Its value is only named.
#[verifier::external_body]
pub(crate) fn response_header_version(key: i16, api_version: i16) -> (r: i16)
    requires
        is_api_key(key),
    ensures
        r == response_header_version_of(key, api_version),
{
    ApiKey::try_from(key).unwrap().response_header_version(api_version)
}

/// `ApiKey::valid_versions` of `kafka-protocol`, for the API with this code
/// (converted by `ApiKey::try_from`, which accepts it): the least and the
/// greatest version. Its value is named; the table of `kafka-protocol`
/// starts every range at version 0 and ends it at 0 or above.
#[verifier::external_body]
pub(crate) fn valid_versions(key: i16) -> (r: (i16, i16))
    requires
        is_api_key(key),
    ensures
        r == valid_versions_of(key),
        r.0 == 0,
        r.0 <= r.1,
{
    let range = ApiKey::try_from(key).unwrap().valid_versions();
    (range.min, range.max)
}

/// One entry of an `ApiVersions` response: an API and the range of versions
/// that it is served in.
#[derive(Debug, Clone, Copy, PartialEq, Eq)]
pub struct ApiVersion {
    pub api_key: i16,
    pub min_version: i16,
    pub max_version: i16,
}

/// Every API that `kafka-protocol` knows, in the order of its key, each
/// with the versions that `kafka-protocol` supports: from 0 up to a maximum
/// of 0 or more.
pub fn all_api_versions() -> (r: Vec<ApiVersion>)
    ensures
        r@.len() == API_KEY_COUNT,
        forall|i: int|
            0 <= i < r@.len() ==> {
                let (min, max) = valid_versions_of(i as i16);
                &&& #[trigger] r@[i].api_key == i
                &&& r@[i].min_version == min
                &&& r@[i].max_version == max
                &&& 0 == r@[i].min_version <= r@[i].max_version
            },
{
    let mut out: Vec<ApiVersion> = Vec::new();
    let mut key: i16 = 0;
    while key < API_KEY_COUNT
        invariant
            0 <= key <= API_KEY_COUNT,
            out@.len() == key,
            forall|i: int|
                0 <= i < out@.len() ==> {
                    let (min, max) = valid_versions_of(i as i16);
                    &&& #[trigger] out@[i].api_key == i
                    &&& out@[i].min_version == min
                    &&& out@[i].max_version == max
                    &&& 0 == out@[i].min_version <= out@[i].max_version
                },
        decreases API_KEY_COUNT - key,
    {
        let (min_version, max_version) = valid_versions(key);
        out.push(ApiVersion { api_key: key, min_version, max_version });
        key = key + 1;
    }
    out
}

} // verus!
