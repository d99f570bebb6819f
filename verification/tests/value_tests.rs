use portal_screencast::value::{
    dict_get, dict_has_key, narrow_str, narrow_u32, value_at, DecodeError, PathSeg, Shape, Value,
};

fn sample_tree() -> Value {
    Value::Dict(vec![
        ("version".to_owned(), Value::U32(4)),
        (
            "streams".to_owned(),
            Value::Array(vec![Value::Structure(vec![
                Value::U32(55),
                Value::Dict(vec![("size".to_owned(), Value::U32(1080))]),
            ])]),
        ),
    ])
}

#[test]
fn dict_lookup_finds_the_first_matching_key() {
    let entries = vec![
        ("a".to_owned(), Value::U32(1)),
        ("b".to_owned(), Value::U32(2)),
        ("a".to_owned(), Value::U32(3)),
    ];
    assert_eq!(dict_get(&entries, &"a".to_owned()), Some(&Value::U32(1)));
    assert_eq!(dict_get(&entries, &"b".to_owned()), Some(&Value::U32(2)));
    assert_eq!(dict_get(&entries, &"c".to_owned()), None);
    assert!(dict_has_key(&entries, &"b".to_owned()));
    assert!(!dict_has_key(&entries, &"c".to_owned()));
}

#[test]
fn value_at_follows_keys_indices_and_fields() {
    let tree = sample_tree();
    let path = vec![
        PathSeg::Key("streams".to_owned()),
        PathSeg::Index(0),
        PathSeg::Field(1),
        PathSeg::Key("size".to_owned()),
    ];
    assert_eq!(value_at(&tree, &path, 0), Ok(&Value::U32(1080)));
}

#[test]
fn narrowing_to_u32_returns_the_scalar() {
    let tree = sample_tree();
    let path = vec![
        PathSeg::Key("streams".to_owned()),
        PathSeg::Index(0),
        PathSeg::Field(0),
    ];
    assert_eq!(narrow_u32(&tree, &path), Ok(55));
}

#[test]
fn narrowing_a_container_to_text_is_a_shape_mismatch() {
    let tree = sample_tree();
    let path = vec![PathSeg::Key("streams".to_owned())];
    assert_eq!(
        narrow_str(&tree, &path),
        Err(DecodeError::ShapeMismatch {
            path: vec![PathSeg::Key("streams".to_owned())],
            expected: Shape::Str,
        })
    );
}

#[test]
fn a_missing_key_reports_key_not_found_with_its_path() {
    let tree = sample_tree();
    let path = vec![PathSeg::Key("absent".to_owned())];
    assert_eq!(
        value_at(&tree, &path, 0),
        Err(DecodeError::KeyNotFound { path: vec![PathSeg::Key("absent".to_owned())] })
    );
}

#[test]
fn indexing_a_scalar_reports_the_shape_of_the_parent() {
    let tree = sample_tree();
    let path = vec![PathSeg::Key("version".to_owned()), PathSeg::Index(0)];
    assert_eq!(
        value_at(&tree, &path, 0),
        Err(DecodeError::ShapeMismatch {
            path: vec![PathSeg::Key("version".to_owned())],
            expected: Shape::Array,
        })
    );
}
