use portal_screencast::decode::{decode_signal, DecodedResponse};
use portal_screencast::value::{DecodeError, PathSeg, Shape, Value};

fn dict(entries: Vec<(&str, Value)>) -> Value {
    Value::Dict(entries.into_iter().map(|(k, v)| (k.to_owned(), v)).collect())
}

#[test]
fn session_handle_is_decoded_exactly() {
    let payload = dict(vec![(
        "session_handle",
        Value::Str("/org/freedesktop/portal/desktop/session/1_0/run_a".to_owned()),
    )]);
    let decoded = decode_signal(0, &payload);
    assert_eq!(
        decoded,
        DecodedResponse::SessionCreated {
            session_handle: "/org/freedesktop/portal/desktop/session/1_0/run_a".to_owned(),
        }
    );
}

#[test]
fn empty_results_are_ignored_with_zero_status() {
    let payload = dict(vec![]);
    assert_eq!(decode_signal(0, &payload), DecodedResponse::Ignored);
}

#[test]
fn empty_results_are_ignored_with_nonzero_status() {
    let payload = dict(vec![]);
    assert_eq!(decode_signal(2, &payload), DecodedResponse::Ignored);
}

#[test]
fn streams_node_id_is_decoded() {
    let payload = dict(vec![(
        "streams",
        Value::Array(vec![Value::Structure(vec![
            Value::U32(1234),
            Value::Dict(vec![]),
        ])]),
    )]);
    let decoded = decode_signal(0, &payload);
    assert_eq!(decoded, DecodedResponse::StreamsReady { node_id: 1234 });
}

#[test]
fn streams_first_element_not_a_structure_is_a_shape_mismatch() {
    let payload = dict(vec![("streams", Value::Array(vec![Value::U32(7)]))]);
    let decoded = decode_signal(0, &payload);
    assert_eq!(
        decoded,
        DecodedResponse::Malformed {
            error: DecodeError::ShapeMismatch {
                path: vec![PathSeg::Key("streams".to_owned()), PathSeg::Index(0)],
                expected: Shape::Structure,
            },
        }
    );
}

#[test]
fn empty_streams_array_is_out_of_bounds_at_position_zero() {
    let payload = dict(vec![("streams", Value::Array(vec![]))]);
    let decoded = decode_signal(0, &payload);
    assert_eq!(
        decoded,
        DecodedResponse::Malformed {
            error: DecodeError::IndexOutOfBounds {
                path: vec![PathSeg::Key("streams".to_owned()), PathSeg::Index(0)],
            },
        }
    );
}

#[test]
fn structure_without_fields_is_out_of_bounds_at_its_first_field() {
    let payload = dict(vec![("streams", Value::Array(vec![Value::Structure(vec![])]))]);
    let decoded = decode_signal(0, &payload);
    assert_eq!(
        decoded,
        DecodedResponse::Malformed {
            error: DecodeError::IndexOutOfBounds {
                path: vec![
                    PathSeg::Key("streams".to_owned()),
                    PathSeg::Index(0),
                    PathSeg::Field(0),
                ],
            },
        }
    );
}

#[test]
fn first_field_not_u32_is_a_shape_mismatch_at_the_full_path() {
    let payload = dict(vec![(
        "streams",
        Value::Array(vec![Value::Structure(vec![Value::Str("55".to_owned())])]),
    )]);
    let decoded = decode_signal(0, &payload);
    assert_eq!(
        decoded,
        DecodedResponse::Malformed {
            error: DecodeError::ShapeMismatch {
                path: vec![
                    PathSeg::Key("streams".to_owned()),
                    PathSeg::Index(0),
                    PathSeg::Field(0),
                ],
                expected: Shape::U32,
            },
        }
    );
}

#[test]
fn session_handle_that_is_not_text_is_a_shape_mismatch() {
    let payload = dict(vec![("session_handle", Value::U32(1))]);
    let decoded = decode_signal(0, &payload);
    assert_eq!(
        decoded,
        DecodedResponse::Malformed {
            error: DecodeError::ShapeMismatch {
                path: vec![PathSeg::Key("session_handle".to_owned())],
                expected: Shape::Str,
            },
        }
    );
}

#[test]
fn nonzero_status_without_known_keys_is_a_denial() {
    let payload = dict(vec![("details", Value::Str("declined".to_owned()))]);
    assert_eq!(decode_signal(2, &payload), DecodedResponse::Denied { status: 2 });
}

#[test]
fn zero_status_without_known_keys_is_ignored() {
    let payload = dict(vec![("details", Value::Str("housekeeping".to_owned()))]);
    assert_eq!(decode_signal(0, &payload), DecodedResponse::Ignored);
}

#[test]
fn non_mapping_results_are_a_shape_mismatch_at_the_root() {
    let decoded = decode_signal(0, &Value::U32(3));
    assert_eq!(
        decoded,
        DecodedResponse::Malformed {
            error: DecodeError::ShapeMismatch { path: vec![], expected: Shape::Dict },
        }
    );
}
