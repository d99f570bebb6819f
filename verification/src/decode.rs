//! Interpretation of one portal response signal.
//!
//! A `Response` signal body is a status code and an untyped results
//! mapping.  [`decode_signal`] turns that pair into a [`DecodedResponse`]:
//! the session handle the service assigned, the capture stream's node
//! identifier, a denial, a decoding failure, or nothing to act on.

use vstd::prelude::*;

use crate::value::{
    DecodeError, PathSeg, Shape, SpecDecodeError, SpecSeg, Value, dict_has_key, narrow_str,
    narrow_u32, path_view, spec_dict_get, spec_narrow_str, spec_narrow_u32, spec_walk,
};

verus! {

/// The typed meaning of one response signal, consumed by the negotiator.
#[derive(Debug, PartialEq, Eq)]
pub enum DecodedResponse {
    /// The service created the session named by this handle path.
    SessionCreated { session_handle: String },
    /// The capture stream is live under this node identifier.
    StreamsReady { node_id: u32 },
    /// The service denied the request with this non-zero status.
    Denied { status: u32 },
    /// The payload did not have the shape the protocol promises.
    Malformed { error: DecodeError },
    /// Nothing to act on: an empty or unrelated housekeeping payload.
    Ignored,
}

/// The mathematical model of a [`DecodedResponse`].
pub enum SpecDecoded {
    SessionCreated { session_handle: Seq<char> },
    StreamsReady { node_id: u32 },
    Denied { status: u32 },
    Malformed { error: SpecDecodeError },
    Ignored,
}

impl View for DecodedResponse {
    type V = SpecDecoded;

    open spec fn view(&self) -> SpecDecoded {
        match self {
            DecodedResponse::SessionCreated { session_handle } => SpecDecoded::SessionCreated {
                session_handle: session_handle@,
            },
            DecodedResponse::StreamsReady { node_id } => SpecDecoded::StreamsReady {
                node_id: *node_id,
            },
            DecodedResponse::Denied { status } => SpecDecoded::Denied { status: *status },
            DecodedResponse::Malformed { error } => SpecDecoded::Malformed { error: error@ },
            DecodedResponse::Ignored => SpecDecoded::Ignored,
        }
    }
}

/// The access path to the session handle: key `session_handle`.
pub open spec fn spec_handle_path() -> Seq<SpecSeg> {
    seq![SpecSeg::Key("session_handle"@)]
}

/// The access path to the stream node identifier: key `streams`, first
/// element, first positional field.
pub open spec fn spec_streams_path() -> Seq<SpecSeg> {
    seq![SpecSeg::Key("streams"@), SpecSeg::Index(0), SpecSeg::Field(0)]
}

/// What one signal means.  An empty results mapping means nothing to act
/// on; a `session_handle` key carries the new session's handle; a
/// `streams` key carries the live stream's node identifier; otherwise a
/// non-zero status is a denial and a zero status unrelated traffic.
pub open spec fn spec_decode(status: u32, results: Value) -> SpecDecoded {
    match results {
        Value::Dict(entries) => if entries@.len() == 0 {
            SpecDecoded::Ignored
        } else if spec_dict_get(entries@, "session_handle"@) is Some {
            match spec_narrow_str(results, spec_handle_path()) {
                Ok(h) => SpecDecoded::SessionCreated { session_handle: h },
                Err(e) => SpecDecoded::Malformed { error: e },
            }
        } else if spec_dict_get(entries@, "streams"@) is Some {
            match spec_narrow_u32(results, spec_streams_path()) {
                Ok(id) => SpecDecoded::StreamsReady { node_id: id },
                Err(e) => SpecDecoded::Malformed { error: e },
            }
        } else if status != 0 {
            SpecDecoded::Denied { status }
        } else {
            SpecDecoded::Ignored
        },
        _ => SpecDecoded::Malformed {
            error: SpecDecodeError::ShapeMismatch {
                path: Seq::<SpecSeg>::empty(),
                expected: Shape::Dict,
            },
        },
    }
}

/// A signal whose results mapping is empty means nothing to act on,
/// whatever its status: it decodes to `Ignored`, on which the negotiator
/// changes no state and issues no call.
pub proof fn lemma_empty_results_ignored(status: u32, entries: Vec<(String, Value)>)
    requires
        entries@.len() == 0,
    ensures
        spec_decode(status, Value::Dict(entries)) is Ignored,
{
}

/// A well-formed payload that maps `session_handle` to a text value
/// decodes to exactly that handle, unchanged.
pub proof fn lemma_session_handle_decoded(status: u32, entries: Vec<(String, Value)>, h: String)
    requires
        entries@.len() > 0,
        spec_dict_get(entries@, "session_handle"@) == Some(Value::Str(h)),
    ensures
        spec_decode(status, Value::Dict(entries)) == (SpecDecoded::SessionCreated {
            session_handle: h@,
        }),
{
    let results = Value::Dict(entries);
    let p = spec_handle_path();
    assert(p[0] == SpecSeg::Key("session_handle"@));
    assert(spec_walk(results, p, 0) == spec_walk(Value::Str(h), p, 1));
}

/// A payload whose `streams` sequence has a first element that is not a
/// structure never reaches capture: it decodes to a shape mismatch whose
/// path names exactly `streams`, position `0`, and whose expected shape is
/// the structure, on which the negotiator fails and emits no action.
pub proof fn lemma_streams_shape_guard(
    status: u32,
    entries: Vec<(String, Value)>,
    items: Vec<Value>,
)
    requires
        entries@.len() > 0,
        spec_dict_get(entries@, "session_handle"@) is None,
        spec_dict_get(entries@, "streams"@) == Some(Value::Array(items)),
        items@.len() > 0,
        !(items@[0] is Structure),
    ensures
        spec_decode(status, Value::Dict(entries)) matches SpecDecoded::Malformed { error } && (
        error matches SpecDecodeError::ShapeMismatch { path, expected } && path == seq![
            SpecSeg::Key("streams"@),
            SpecSeg::Index(0),
        ] && expected is Structure),
{
    let results = Value::Dict(entries);
    let p = spec_streams_path();
    assert(p[0] == SpecSeg::Key("streams"@));
    assert(p[1] == SpecSeg::Index(0));
    assert(p[2] == SpecSeg::Field(0));
    assert(spec_walk(results, p, 0) == spec_walk(Value::Array(items), p, 1));
    assert(spec_walk(Value::Array(items), p, 1) == spec_walk(items@[0], p, 2));
    assert(spec_walk(items@[0], p, 2) == Err::<Value, SpecDecodeError>(
        SpecDecodeError::ShapeMismatch { path: p.take(2), expected: Shape::Structure },
    ));
    assert(p.take(2) =~= seq![SpecSeg::Key("streams"@), SpecSeg::Index(0)]);
}

/// Decodes one response signal into its typed meaning.
pub fn decode_signal(status: u32, results: &Value) -> (r: DecodedResponse)
    ensures
        r@ == spec_decode(status, *results),
{
    let entries = match results {
        Value::Dict(entries) => entries,
        _ => {
            let path: Vec<PathSeg> = Vec::new();
            proof {
                assert(path_view(path@) =~= Seq::<SpecSeg>::empty());
            }
            return DecodedResponse::Malformed {
                error: DecodeError::ShapeMismatch { path, expected: Shape::Dict },
            };
        },
    };
    if entries.len() == 0 {
        return DecodedResponse::Ignored;
    }
    let handle_key: String = "session_handle".to_owned();
    let streams_key: String = "streams".to_owned();
    if dict_has_key(entries, &handle_key) {
        let path: Vec<PathSeg> = vec![PathSeg::Key(handle_key)];
        proof {
            assert(path_view(path@) =~= spec_handle_path());
        }
        match narrow_str(results, &path) {
            Ok(session_handle) => DecodedResponse::SessionCreated { session_handle },
            Err(error) => DecodedResponse::Malformed { error },
        }
    } else if dict_has_key(entries, &streams_key) {
        let path: Vec<PathSeg> = vec![
            PathSeg::Key(streams_key),
            PathSeg::Index(0),
            PathSeg::Field(0),
        ];
        proof {
            assert(path_view(path@) =~= spec_streams_path());
        }
        match narrow_u32(results, &path) {
            Ok(node_id) => DecodedResponse::StreamsReady { node_id },
            Err(error) => DecodedResponse::Malformed { error },
        }
    } else if status != 0 {
        DecodedResponse::Denied { status }
    } else {
        DecodedResponse::Ignored
    }
}

} // verus!
