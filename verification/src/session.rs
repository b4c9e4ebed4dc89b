//! The request router and the per-connection session model.
//!
//! `handle_request` maps one frame body to the exact bytes of its response:
//! `api_key` 18 goes to the ApiVersions handler, 75 to the
//! DescribeTopicPartitions handler, and every other key gets the minimal
//! error frame without ending the session. `session_responses` models the
//! sequential per-connection loop: frames are answered one at a time, in
//! order, and the first frame too short for a header closes the connection
//! with nothing further written.

use vstd::prelude::*;

use crate::codec::lemma_decoded_compact_string_len;
use crate::codec::lemma_u32_be_of_bytes;
use crate::codec::u32_be_bytes;
use crate::handlers::api_versions_response_bytes;
use crate::handlers::build_api_versions_response;
use crate::handlers::build_describe_topic_partitions_response;
use crate::handlers::build_unsupported_key_response;
use crate::handlers::describe_topic_partitions_response_bytes;
use crate::handlers::parse_topic_name;
use crate::handlers::topic_name_of;
use crate::handlers::unsupported_key_response_bytes;
use crate::handlers::API_KEY_API_VERSIONS;
use crate::handlers::API_KEY_DESCRIBE_TOPIC_PARTITIONS;
use crate::protocol::decode_header;
use crate::protocol::header_of;
use crate::protocol::ProtocolError;
use crate::protocol::MIN_FRAME_BODY_LEN;

verus! {

/// The response owed to one frame body of at least 8 bytes, as decided by its
/// `api_key`.
pub open spec fn response_for(frame: Seq<u8>) -> Seq<u8> {
    let h = header_of(frame);
    if h.api_key == API_KEY_API_VERSIONS {
        api_versions_response_bytes(h.correlation_id, h.api_version)
    } else if h.api_key == API_KEY_DESCRIBE_TOPIC_PARTITIONS {
        describe_topic_partitions_response_bytes(h.correlation_id, topic_name_of(frame))
    } else {
        unsupported_key_response_bytes(h.correlation_id)
    }
}

/// Routes one frame body to its handler. A body of at least 8 bytes always
/// gets a response, whatever its `api_key`; a shorter body fails the
/// defensive header check and the connection must close.
pub fn handle_request(frame: &[u8]) -> (r: Result<Vec<u8>, ProtocolError>)
    ensures
        frame@.len() >= 8 ==> (r matches Ok(resp) && resp@ == response_for(frame@)),
        frame@.len() < 8 ==> r == Err::<Vec<u8>, ProtocolError>(ProtocolError::MalformedField),
{
    let header = match decode_header(frame) {
        Ok(h) => h,
        Err(e) => {
            return Err(e);
        },
    };
    if header.api_key == API_KEY_API_VERSIONS {
        Ok(build_api_versions_response(header.correlation_id, header.api_version))
    } else if header.api_key == API_KEY_DESCRIBE_TOPIC_PARTITIONS {
        let topic_name = parse_topic_name(frame);
        Ok(build_describe_topic_partitions_response(header.correlation_id, topic_name.as_slice()))
    } else {
        Ok(build_unsupported_key_response(header.correlation_id))
    }
}

/// Every response carries the request's correlation id, byte for byte: bytes
/// 4 through 7 of the response equal bytes 4 through 7 of the request body,
/// whichever handler answered.
pub proof fn lemma_correlation_id_echoed(frame: Seq<u8>)
    requires
        frame.len() >= 8,
    ensures
        response_for(frame).len() >= 12,
        response_for(frame).subrange(4, 8) == frame.subrange(4, 8),
{
    let h = header_of(frame);
    lemma_u32_be_of_bytes(frame[4], frame[5], frame[6], frame[7]);
    assert(u32_be_bytes(h.correlation_id) =~= frame.subrange(4, 8));
    assert(response_for(frame).subrange(4, 8) =~= u32_be_bytes(h.correlation_id));
}

/// Every response declares its own size exactly: its leading 4-byte big-endian
/// length field holds the number of bytes that follow it, recomputed per
/// response rather than hardcoded.
pub proof fn lemma_message_size_exact(frame: Seq<u8>)
    requires
        frame.len() >= 8,
    ensures
        response_for(frame).len() >= 12,
        response_for(frame).subrange(0, 4) == u32_be_bytes(
            (response_for(frame).len() - 4) as u32,
        ),
{
    let h = header_of(frame);
    let r = response_for(frame);
    if h.api_key == API_KEY_API_VERSIONS {
        assert(r.len() == 30);
        assert(r.subrange(0, 4) =~= u32_be_bytes(26));
    } else if h.api_key == API_KEY_DESCRIBE_TOPIC_PARTITIONS {
        lemma_decoded_compact_string_len(frame, 9);
        let name = topic_name_of(frame);
        assert(r.len() == 42 + name.len());
        assert(r.subrange(0, 4) =~= u32_be_bytes((38 + name.len()) as u32));
    } else {
        assert(r.len() == 12);
        assert(r.subrange(0, 4) =~= u32_be_bytes(8));
    }
}

/// The responses one connection sends, in order: each frame of at least 8
/// bytes is answered before the next frame is read, and the first shorter
/// frame closes the connection, so nothing after it is answered.
pub open spec fn session_responses(frames: Seq<Seq<u8>>) -> Seq<Seq<u8>>
    decreases frames.len(),
{
    if frames.len() == 0 {
        Seq::empty()
    } else if frames[0].len() < MIN_FRAME_BODY_LEN {
        Seq::empty()
    } else {
        seq![response_for(frames[0])] + session_responses(frames.skip(1))
    }
}

/// Two sequential valid requests on one connection get exactly two responses,
/// in the same order, each the response owed to its own request alone.
pub proof fn lemma_two_requests_in_order(first: Seq<u8>, second: Seq<u8>)
    requires
        first.len() >= 8,
        second.len() >= 8,
    ensures
        session_responses(seq![first, second]) == seq![response_for(first), response_for(second)],
{
    let frames = seq![first, second];
    let a = response_for(first);
    let b = response_for(second);
    assert(frames.skip(1) =~= seq![second]);
    assert(seq![second].skip(1) =~= Seq::<Seq<u8>>::empty());
    assert(session_responses(seq![second]) == seq![b] + session_responses(
        Seq::<Seq<u8>>::empty(),
    ));
    assert(seq![b] + Seq::<Seq<u8>>::empty() =~= seq![b]);
    assert(session_responses(frames) == seq![a] + seq![b]);
    assert(seq![a] + seq![b] =~= seq![a, b]);
}

/// A first frame too short for a header closes the connection at once: the
/// session writes nothing back.
pub proof fn lemma_short_frame_closes_session(frames: Seq<Seq<u8>>)
    requires
        frames.len() > 0,
        frames[0].len() < 8,
    ensures
        session_responses(frames) == Seq::<Seq<u8>>::empty(),
{
}

/// Runs the decision half of one connection over the frame bodies it
/// received, in order: the executable counterpart of `session_responses`.
/// The byte-reading and byte-writing half of the loop lives outside the
/// library and hands frames in and responses out as plain byte vectors.
pub fn run_session(frames: &Vec<Vec<u8>>) -> (r: Vec<Vec<u8>>)
    ensures
        r.deep_view() == session_responses(frames.deep_view()),
{
    let ghost all = frames.deep_view();
    let mut r: Vec<Vec<u8>> = Vec::new();
    let mut i: usize = 0;
    proof {
        assert(r.deep_view() =~= Seq::<Seq<u8>>::empty());
        assert(all.skip(0) =~= all);
        assert(session_responses(all) =~~= r.deep_view() + session_responses(all.skip(0)));
    }
    while i < frames.len()
        invariant
            i <= frames@.len(),
            all == frames.deep_view(),
            all.len() == frames@.len(),
            session_responses(all) == r.deep_view() + session_responses(all.skip(i as int)),
        decreases frames@.len() - i,
    {
        proof {
            assert(all[i as int] =~= frames@[i as int]@);
            assert(all.skip(i as int)[0] == all[i as int]);
        }
        let frame = &frames[i];
        match handle_request(frame.as_slice()) {
            Ok(response) => {
                proof {
                    assert(all.skip(i as int).skip(1) =~= all.skip(i as int + 1));
                    assert(session_responses(all.skip(i as int)) == seq![response_for(
                        all[i as int],
                    )] + session_responses(all.skip(i as int + 1)));
                }
                let ghost r_before = r.deep_view();
                r.push(response);
                proof {
                    assert(r.deep_view() =~~= r_before + seq![response_for(all[i as int])]);
                    assert(r.deep_view() + session_responses(all.skip(i as int + 1)) =~~= r_before
                        + session_responses(all.skip(i as int)));
                }
            },
            Err(_) => {
                proof {
                    assert(session_responses(all.skip(i as int)) =~~= Seq::<Seq<u8>>::empty());
                    assert(r.deep_view() =~~= session_responses(all));
                }
                return r;
            },
        }
        i = i + 1;
    }
    proof {
        assert(all.skip(i as int) =~= Seq::<Seq<u8>>::empty());
        assert(r.deep_view() =~~= session_responses(all));
    }
    r
}

} // verus!
