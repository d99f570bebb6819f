//! An untyped, self-describing value tree and the typed narrowing
//! operations used to read protocol payloads out of it.
//!
//! A portal response carries a dynamically-typed body: maps keyed by
//! strings, arrays, tuple-like structures and scalars.  `Value` models that
//! tree, and `value_at` / `narrow_u32` / `narrow_str` read it along an
//! access path, failing with a typed [`DecodeError`] that names the path of
//! the value that did not match.

use vstd::prelude::*;

verus! {

/// One node of an untyped payload tree.
#[derive(Debug, PartialEq, Eq)]
pub enum Value {
    /// An unsigned 32-bit scalar.
    U32(u32),
    /// A text scalar.
    Str(String),
    /// A homogeneous sequence.
    Array(Vec<Value>),
    /// A tuple-like container with positional fields.
    Structure(Vec<Value>),
    /// A mapping from string keys to values.
    Dict(Vec<(String, Value)>),
}

/// The container or scalar kind a narrowing step expected to find.
#[derive(Debug, PartialEq, Eq)]
pub enum Shape {
    U32,
    Str,
    Array,
    Structure,
    Dict,
}

/// One step of an access path into a [`Value`] tree.
#[derive(Debug, PartialEq, Eq)]
pub enum PathSeg {
    /// Look a key up in a `Dict`.
    Key(String),
    /// Take an element of an `Array` by position.
    Index(usize),
    /// Take a positional field of a `Structure`.
    Field(usize),
}

/// The mathematical model of a path step: the key is a character sequence.
pub enum SpecSeg {
    Key(Seq<char>),
    Index(usize),
    Field(usize),
}

impl View for PathSeg {
    type V = SpecSeg;

    open spec fn view(&self) -> SpecSeg {
        match self {
            PathSeg::Key(k) => SpecSeg::Key(k@),
            PathSeg::Index(i) => SpecSeg::Index(*i),
            PathSeg::Field(i) => SpecSeg::Field(*i),
        }
    }
}

/// The model of a whole access path.
pub open spec fn path_view(path: Seq<PathSeg>) -> Seq<SpecSeg> {
    path.map_values(|s: PathSeg| s@)
}

/// A typed decoding failure.  `path` names the value that was missing or of
/// the wrong shape, as a prefix of the access path that was being followed.
#[derive(Debug, PartialEq, Eq)]
pub enum DecodeError {
    /// A `Dict` along the path has no entry for the named key; `path` ends
    /// with that key.
    KeyNotFound { path: Vec<PathSeg> },
    /// An `Array` or `Structure` along the path is shorter than the
    /// requested position; `path` ends with that position.
    IndexOutOfBounds { path: Vec<PathSeg> },
    /// The value at `path` is not of the `expected` shape.
    ShapeMismatch { path: Vec<PathSeg>, expected: Shape },
}

/// The mathematical model of a [`DecodeError`].
pub enum SpecDecodeError {
    KeyNotFound { path: Seq<SpecSeg> },
    IndexOutOfBounds { path: Seq<SpecSeg> },
    ShapeMismatch { path: Seq<SpecSeg>, expected: Shape },
}

impl View for DecodeError {
    type V = SpecDecodeError;

    open spec fn view(&self) -> SpecDecodeError {
        match self {
            DecodeError::KeyNotFound { path } => SpecDecodeError::KeyNotFound {
                path: path_view(path@),
            },
            DecodeError::IndexOutOfBounds { path } => SpecDecodeError::IndexOutOfBounds {
                path: path_view(path@),
            },
            DecodeError::ShapeMismatch { path, expected } => SpecDecodeError::ShapeMismatch {
                path: path_view(path@),
                expected: *expected,
            },
        }
    }
}

/// First entry of `entries` at or after position `i` whose key reads `key`.
pub open spec fn spec_dict_get_from(
    entries: Seq<(String, Value)>,
    key: Seq<char>,
    i: int,
) -> Option<Value>
    decreases entries.len() - i,
{
    if i < 0 || i >= entries.len() {
        None
    } else if entries[i].0@ == key {
        Some(entries[i].1)
    } else {
        spec_dict_get_from(entries, key, i + 1)
    }
}

/// The value the mapping `entries` associates with `key`, if any.
pub open spec fn spec_dict_get(entries: Seq<(String, Value)>, key: Seq<char>) -> Option<Value> {
    spec_dict_get_from(entries, key, 0)
}

/// Looks `key` up in a mapping, returning the first entry with that key.
pub fn dict_get<'a>(entries: &'a Vec<(String, Value)>, key: &String) -> (r: Option<&'a Value>)
    ensures
        match r {
            Some(v) => spec_dict_get(entries@, key@) == Some(*v),
            None => spec_dict_get(entries@, key@) is None,
        },
{
    let n = entries.len();
    let mut i: usize = 0;
    while i < n
        invariant
            n == entries@.len(),
            i <= n,
            spec_dict_get(entries@, key@) == spec_dict_get_from(entries@, key@, i as int),
        decreases n - i,
    {
        if entries[i].0 == *key {
            return Some(&entries[i].1);
        }
        i += 1;
    }
    None
}

/// Whether the mapping `entries` has an entry for `key`.
pub fn dict_has_key(entries: &Vec<(String, Value)>, key: &String) -> (r: bool)
    ensures
        r == (spec_dict_get(entries@, key@) is Some),
{
    dict_get(entries, key).is_some()
}

/// The value reached from `v` by following `path` from position `from` on,
/// or the error describing the first step that could not be taken.
pub open spec fn spec_walk(v: Value, path: Seq<SpecSeg>, from: int) -> Result<
    Value,
    SpecDecodeError,
>
    decreases path.len() - from,
{
    if from < 0 || from >= path.len() {
        Ok(v)
    } else {
        match path[from] {
            SpecSeg::Key(k) => match v {
                Value::Dict(entries) => match spec_dict_get(entries@, k) {
                    Some(child) => spec_walk(child, path, from + 1),
                    None => Err(SpecDecodeError::KeyNotFound { path: path.take(from + 1) }),
                },
                _ => Err(SpecDecodeError::ShapeMismatch {
                    path: path.take(from),
                    expected: Shape::Dict,
                }),
            },
            SpecSeg::Index(i) => match v {
                Value::Array(items) => if i < items@.len() {
                    spec_walk(items@[i as int], path, from + 1)
                } else {
                    Err(SpecDecodeError::IndexOutOfBounds { path: path.take(from + 1) })
                },
                _ => Err(SpecDecodeError::ShapeMismatch {
                    path: path.take(from),
                    expected: Shape::Array,
                }),
            },
            SpecSeg::Field(i) => match v {
                Value::Structure(fields) => if i < fields@.len() {
                    spec_walk(fields@[i as int], path, from + 1)
                } else {
                    Err(SpecDecodeError::IndexOutOfBounds { path: path.take(from + 1) })
                },
                _ => Err(SpecDecodeError::ShapeMismatch {
                    path: path.take(from),
                    expected: Shape::Structure,
                }),
            },
        }
    }
}

/// Copies one path step.
fn clone_seg(s: &PathSeg) -> (r: PathSeg)
    ensures
        r == *s,
{
    match s {
        PathSeg::Key(k) => PathSeg::Key(k.clone()),
        PathSeg::Index(i) => PathSeg::Index(*i),
        PathSeg::Field(i) => PathSeg::Field(*i),
    }
}

/// Copies the first `n` steps of `path`.
fn clone_prefix(path: &Vec<PathSeg>, n: usize) -> (r: Vec<PathSeg>)
    requires
        n <= path@.len(),
    ensures
        r@ == path@.take(n as int),
{
    let mut r: Vec<PathSeg> = Vec::new();
    let mut i: usize = 0;
    while i < n
        invariant
            i <= n,
            n <= path@.len(),
            r@ == path@.take(i as int),
        decreases n - i,
    {
        r.push(clone_seg(&path[i]));
        proof {
            assert(path@.take(i + 1 as int) =~= path@.take(i as int).push(path@[i as int]));
        }
        i += 1;
    }
    r
}

/// The model of a copied prefix is the prefix of the model.
proof fn lemma_path_view_take(path: Seq<PathSeg>, n: int)
    requires
        0 <= n <= path.len(),
    ensures
        path_view(path.take(n)) =~= path_view(path).take(n),
{
}

/// Follows `path` from position `from` on, starting at `v`: a key step
/// enters a `Dict`, an index step an `Array`, a field step a `Structure`.
/// The error names the path of the first value that was missing or of the
/// wrong shape.
pub fn value_at<'a>(v: &'a Value, path: &Vec<PathSeg>, from: usize) -> (r: Result<
    &'a Value,
    DecodeError,
>)
    requires
        from <= path@.len(),
    ensures
        match r {
            Ok(val) => spec_walk(*v, path_view(path@), from as int) == Ok::<Value, SpecDecodeError>(
                *val,
            ),
            Err(e) => spec_walk(*v, path_view(path@), from as int) == Err::<
                Value,
                SpecDecodeError,
            >(e@),
        },
    decreases path@.len() - from,
{
    if from == path.len() {
        return Ok(v);
    }
    proof {
        lemma_path_view_take(path@, from as int);
        lemma_path_view_take(path@, from + 1 as int);
    }
    match &path[from] {
        PathSeg::Key(k) => match v {
            Value::Dict(entries) => match dict_get(entries, k) {
                Some(child) => value_at(child, path, from + 1),
                None => Err(DecodeError::KeyNotFound { path: clone_prefix(path, from + 1) }),
            },
            _ => Err(DecodeError::ShapeMismatch {
                path: clone_prefix(path, from),
                expected: Shape::Dict,
            }),
        },
        PathSeg::Index(i) => match v {
            Value::Array(items) => if *i < items.len() {
                value_at(&items[*i], path, from + 1)
            } else {
                Err(DecodeError::IndexOutOfBounds { path: clone_prefix(path, from + 1) })
            },
            _ => Err(DecodeError::ShapeMismatch {
                path: clone_prefix(path, from),
                expected: Shape::Array,
            }),
        },
        PathSeg::Field(i) => match v {
            Value::Structure(fields) => if *i < fields.len() {
                value_at(&fields[*i], path, from + 1)
            } else {
                Err(DecodeError::IndexOutOfBounds { path: clone_prefix(path, from + 1) })
            },
            _ => Err(DecodeError::ShapeMismatch {
                path: clone_prefix(path, from),
                expected: Shape::Structure,
            }),
        },
    }
}

/// The unsigned 32-bit scalar reached from `root` along `path`, or the
/// error of the first step or narrowing that failed.
pub open spec fn spec_narrow_u32(root: Value, path: Seq<SpecSeg>) -> Result<
    u32,
    SpecDecodeError,
> {
    match spec_walk(root, path, 0) {
        Ok(Value::U32(n)) => Ok(n),
        Ok(_) => Err(SpecDecodeError::ShapeMismatch { path: path, expected: Shape::U32 }),
        Err(e) => Err(e),
    }
}

/// The text scalar reached from `root` along `path`, or the error of the
/// first step or narrowing that failed.
pub open spec fn spec_narrow_str(root: Value, path: Seq<SpecSeg>) -> Result<
    Seq<char>,
    SpecDecodeError,
> {
    match spec_walk(root, path, 0) {
        Ok(Value::Str(s)) => Ok(s@),
        Ok(_) => Err(SpecDecodeError::ShapeMismatch { path: path, expected: Shape::Str }),
        Err(e) => Err(e),
    }
}

/// Follows `path` from `root` and narrows the reached value to an unsigned
/// 32-bit scalar.
pub fn narrow_u32(root: &Value, path: &Vec<PathSeg>) -> (r: Result<u32, DecodeError>)
    ensures
        match r {
            Ok(n) => spec_narrow_u32(*root, path_view(path@)) == Ok::<u32, SpecDecodeError>(n),
            Err(e) => spec_narrow_u32(*root, path_view(path@)) == Err::<u32, SpecDecodeError>(e@),
        },
{
    proof {
        lemma_path_view_take(path@, path@.len() as int);
        assert(path_view(path@).take(path_view(path@).len() as int) =~= path_view(path@));
    }
    match value_at(root, path, 0) {
        Ok(Value::U32(n)) => Ok(*n),
        Ok(_) => Err(DecodeError::ShapeMismatch {
            path: clone_prefix(path, path.len()),
            expected: Shape::U32,
        }),
        Err(e) => Err(e),
    }
}

/// Follows `path` from `root` and narrows the reached value to a text
/// scalar, returning a copy of it.
pub fn narrow_str(root: &Value, path: &Vec<PathSeg>) -> (r: Result<String, DecodeError>)
    ensures
        match r {
            Ok(s) => spec_narrow_str(*root, path_view(path@)) == Ok::<Seq<char>, SpecDecodeError>(
                s@,
            ),
            Err(e) => spec_narrow_str(*root, path_view(path@)) == Err::<Seq<char>, SpecDecodeError>(
                e@,
            ),
        },
{
    proof {
        lemma_path_view_take(path@, path@.len() as int);
        assert(path_view(path@).take(path_view(path@).len() as int) =~= path_view(path@));
    }
    match value_at(root, path, 0) {
        Ok(Value::Str(s)) => Ok(s.clone()),
        Ok(_) => Err(DecodeError::ShapeMismatch {
            path: clone_prefix(path, path.len()),
            expected: Shape::Str,
        }),
        Err(e) => Err(e),
    }
}

} // verus!
