//! The two supported request kinds and the fallback for unknown keys, each as
//! a pure builder from plain values to the exact bytes of one response frame.
//!
//! ApiVersions (`api_key` 18) answers with the fixed two-entry capability
//! table, whatever version was asked for; only its `error_code` depends on the
//! requested version. DescribeTopicPartitions (`api_key` 75) echoes the first
//! requested topic name back in an "unknown topic" descriptor. Any other key
//! gets a minimal error frame and the session continues.

use vstd::prelude::*;

use crate::codec::compact_string_bytes;
use crate::codec::decoded_compact_string;
use crate::codec::lemma_decoded_compact_string_len;
use crate::codec::push_compact_string;
use crate::codec::push_u16_be;
use crate::codec::push_u32_be;
use crate::codec::push_u8;
use crate::codec::read_compact_string;
use crate::codec::u16_be_bytes;
use crate::codec::u32_be_bytes;

verus! {

/// `error_code` 0: the request succeeded.
pub const ERROR_NONE: u16 = 0;

/// `error_code` 3: unknown topic or partition.
pub const ERROR_UNKNOWN_TOPIC: u16 = 3;

/// `error_code` 35: unsupported version or unsupported request kind.
pub const ERROR_UNSUPPORTED_VERSION: u16 = 35;

/// The `api_key` of an ApiVersions request.
pub const API_KEY_API_VERSIONS: u16 = 18;

/// The `api_key` of a DescribeTopicPartitions request.
pub const API_KEY_DESCRIBE_TOPIC_PARTITIONS: u16 = 75;

/// The ApiVersions error code policy: versions 0 through 4 are supported,
/// anything above gets `error_code` 35, but an answer is returned either way.
pub open spec fn api_versions_error_code(api_version: u16) -> u16 {
    if api_version <= 4 {
        ERROR_NONE
    } else {
        ERROR_UNSUPPORTED_VERSION
    }
}

/// The supported-API table, identical in every ApiVersions response: a compact
/// array of exactly two entries, `{key: 18, min: 0, max: 4}` and
/// `{key: 75, min: 0, max: 0}`, each closed by an empty tag buffer.
pub open spec fn supported_api_table_bytes() -> Seq<u8> {
    seq![3u8] + u16_be_bytes(18) + u16_be_bytes(0) + u16_be_bytes(4) + seq![0u8] + u16_be_bytes(75)
        + u16_be_bytes(0) + u16_be_bytes(0) + seq![0u8]
}

/// The full ApiVersions response frame: a 26-byte message after the length
/// field, holding the echoed correlation id, the version-policy error code,
/// the fixed capability table, a zero throttle time and an empty tag buffer.
pub open spec fn api_versions_response_bytes(correlation_id: u32, api_version: u16) -> Seq<u8> {
    u32_be_bytes(26) + u32_be_bytes(correlation_id) + u16_be_bytes(
        api_versions_error_code(api_version),
    ) + supported_api_table_bytes() + u32_be_bytes(0) + seq![0u8]
}

/// The ApiVersions policy: requested versions 0 through 4 get `error_code` 0
/// and anything above gets `error_code` 35, yet the capability table — bytes
/// 10 through 24 of the response — is the same fixed two-entry table either
/// way. The handler reports what it supports; it does not refuse to answer.
pub proof fn lemma_api_versions_policy(correlation_id: u32, api_version: u16)
    ensures
        api_version <= 4 ==> api_versions_response_bytes(correlation_id, api_version).subrange(
            8,
            10,
        ) == u16_be_bytes(ERROR_NONE),
        api_version > 4 ==> api_versions_response_bytes(correlation_id, api_version).subrange(
            8,
            10,
        ) == u16_be_bytes(ERROR_UNSUPPORTED_VERSION),
        api_versions_response_bytes(correlation_id, api_version).subrange(10, 25)
            == supported_api_table_bytes(),
{
    let r = api_versions_response_bytes(correlation_id, api_version);
    assert(r.subrange(8, 10) =~= u16_be_bytes(api_versions_error_code(api_version)));
    assert(r.subrange(10, 25) =~= supported_api_table_bytes());
}

/// The 16 zero bytes standing for a null topic id: no real UUID is ever
/// allocated in this subset.
pub open spec fn null_topic_id_bytes() -> Seq<u8> {
    Seq::new(16, |i: int| 0u8)
}

/// The full DescribeTopicPartitions response frame for one unknown topic:
/// after the length field come the echoed correlation id, an empty header tag
/// buffer, a zero throttle time, then a single-topic compact array whose one
/// descriptor carries `error_code` 3, the echoed name, a null topic id,
/// `is_internal` false, no partitions and no authorized operations, and
/// finally a null pagination cursor and an empty tag buffer.
pub open spec fn describe_topic_partitions_response_bytes(
    correlation_id: u32,
    topic_name: Seq<u8>,
) -> Seq<u8> {
    u32_be_bytes((38 + topic_name.len()) as u32) + u32_be_bytes(correlation_id) + seq![0u8]
        + u32_be_bytes(0) + seq![2u8] + u16_be_bytes(ERROR_UNKNOWN_TOPIC) + compact_string_bytes(
        topic_name,
    ) + null_topic_id_bytes() + seq![0u8] + seq![1u8] + u32_be_bytes(0) + seq![0u8] + seq![0u8]
        + seq![0u8]
}

/// The minimal error frame answering a request whose `api_key` is not
/// supported: an 8-byte message of the echoed correlation id, `error_code` 35
/// and two reserved zero bytes. The session continues after sending it.
pub open spec fn unsupported_key_response_bytes(correlation_id: u32) -> Seq<u8> {
    u32_be_bytes(8) + u32_be_bytes(correlation_id) + u16_be_bytes(ERROR_UNSUPPORTED_VERSION)
        + u16_be_bytes(0)
}

/// The topic name a DescribeTopicPartitions request asks about: the body
/// starts after the 8-byte header with a 1-byte compact-array count, and the
/// name is the compact string right after it, at offset 9. Only the first
/// requested topic is honored in this subset. A body too short at any step
/// yields the empty name rather than a failure.
pub open spec fn topic_name_of(frame: Seq<u8>) -> Seq<u8> {
    decoded_compact_string(frame, 9)
}

/// Parses the topic name from a DescribeTopicPartitions request body,
/// defaulting to the empty name whenever the body is too short.
pub fn parse_topic_name(request_buffer: &[u8]) -> (r: Vec<u8>)
    ensures
        r@ == topic_name_of(request_buffer@),
        r@.len() <= 254,
{
    proof {
        lemma_decoded_compact_string_len(request_buffer@, 9);
    }
    read_compact_string(request_buffer, 9)
}

/// Builds the ApiVersions response: always the fixed two-entry capability
/// table, with `error_code` 0 for requested versions 0 through 4 and 35 above.
pub fn build_api_versions_response(correlation_id: u32, api_version: u16) -> (r: Vec<u8>)
    ensures
        r@ == api_versions_response_bytes(correlation_id, api_version),
        r@.len() == 30,
{
    let error_code: u16 = if api_version <= 4 {
        ERROR_NONE
    } else {
        ERROR_UNSUPPORTED_VERSION
    };
    let mut r: Vec<u8> = Vec::new();
    push_u32_be(&mut r, 26);
    push_u32_be(&mut r, correlation_id);
    push_u16_be(&mut r, error_code);
    push_u8(&mut r, 3);
    push_u16_be(&mut r, API_KEY_API_VERSIONS);
    push_u16_be(&mut r, 0);
    push_u16_be(&mut r, 4);
    push_u8(&mut r, 0);
    push_u16_be(&mut r, API_KEY_DESCRIBE_TOPIC_PARTITIONS);
    push_u16_be(&mut r, 0);
    push_u16_be(&mut r, 0);
    push_u8(&mut r, 0);
    push_u32_be(&mut r, 0);
    push_u8(&mut r, 0);
    proof {
        assert(r@ =~= api_versions_response_bytes(correlation_id, api_version));
    }
    r
}

/// Builds the DescribeTopicPartitions response for one topic name: the
/// "unknown topic" descriptor with the name echoed byte for byte.
pub fn build_describe_topic_partitions_response(
    correlation_id: u32,
    topic_name: &[u8],
) -> (r: Vec<u8>)
    requires
        topic_name@.len() <= 254,
    ensures
        r@ == describe_topic_partitions_response_bytes(correlation_id, topic_name@),
        r@.len() == 42 + topic_name@.len(),
{
    let message_size: u32 = 38 + topic_name.len() as u32;
    let mut r: Vec<u8> = Vec::new();
    push_u32_be(&mut r, message_size);
    push_u32_be(&mut r, correlation_id);
    push_u8(&mut r, 0);
    push_u32_be(&mut r, 0);
    push_u8(&mut r, 2);
    push_u16_be(&mut r, ERROR_UNKNOWN_TOPIC);
    push_compact_string(&mut r, topic_name);
    let ghost before_id = r@;
    let mut i: usize = 0;
    while i < 16
        invariant
            i <= 16,
            r@ == before_id + Seq::new(i as nat, |j: int| 0u8),
        decreases 16 - i,
    {
        push_u8(&mut r, 0);
        i = i + 1;
        proof {
            assert(r@ =~= before_id + Seq::new(i as nat, |j: int| 0u8));
        }
    }
    proof {
        assert(r@ =~= before_id + null_topic_id_bytes());
    }
    push_u8(&mut r, 0);
    push_u8(&mut r, 1);
    push_u32_be(&mut r, 0);
    push_u8(&mut r, 0);
    push_u8(&mut r, 0);
    push_u8(&mut r, 0);
    proof {
        assert(r@ =~= describe_topic_partitions_response_bytes(correlation_id, topic_name@));
    }
    r
}

/// Builds the minimal error frame for an unsupported `api_key`.
pub fn build_unsupported_key_response(correlation_id: u32) -> (r: Vec<u8>)
    ensures
        r@ == unsupported_key_response_bytes(correlation_id),
        r@.len() == 12,
{
    let mut r: Vec<u8> = Vec::new();
    push_u32_be(&mut r, 8);
    push_u32_be(&mut r, correlation_id);
    push_u16_be(&mut r, ERROR_UNSUPPORTED_VERSION);
    push_u16_be(&mut r, 0);
    proof {
        assert(r@ =~= unsupported_key_response_bytes(correlation_id));
    }
    r
}

} // verus!
