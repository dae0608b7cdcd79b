//! The interchange records the entities travel in.
//!
//! Every entity serializes to and from a [`JsonValue`] record: an
//! explicit, first-class tree of fields, so the field names, the input
//! aliases and the null-versus-absent distinctions are stated — and
//! proved — in one place rather than hidden in annotations.  Integer
//! leniency lives here too: an id- or index-like field accepts either a
//! native integer or a decimal-digit string.

use vstd::prelude::*;
use crate::text;

verus! {

/// A malformed field met during deserialization: a missing or
/// wrongly-typed value, or an unparseable id or index.  Always
/// surfaced to the caller, never recovered silently.
#[derive(Debug, Clone, Copy, PartialEq, Eq, Structural)]
pub struct FormatError;

/// Mathematical model of a [`JsonValue`].
pub ghost enum JsonV {
    Null,
    Bool(bool),
    Int(int),
    Str(Seq<char>),
    Array(Seq<JsonV>),
    Object(Seq<(Seq<char>, JsonV)>),
}

/// A structured interchange value: the subset of JSON the entities
/// need — null, booleans, 64-bit integers, strings, arrays, and
/// objects as ordered key-value sequences.
#[derive(Debug)]
pub enum JsonValue {
    Null,
    Bool(bool),
    Int(i64),
    Str(String),
    Array(Vec<JsonValue>),
    Object(Vec<(String, JsonValue)>),
}

/// The model of a value, element by element.
pub open spec fn json_view(j: JsonValue) -> JsonV
    decreases j,
{
    match j {
        JsonValue::Null => JsonV::Null,
        JsonValue::Bool(b) => JsonV::Bool(b),
        JsonValue::Int(n) => JsonV::Int(n as int),
        JsonValue::Str(s) => JsonV::Str(s@),
        JsonValue::Array(items) => JsonV::Array(json_seq_view(items@)),
        JsonValue::Object(fields) => JsonV::Object(json_fields_view(fields@)),
    }
}

/// The models of a sequence of values, element by element.
pub open spec fn json_seq_view(s: Seq<JsonValue>) -> Seq<JsonV>
    decreases s,
{
    if s.len() == 0 {
        Seq::empty()
    } else {
        json_seq_view(s.drop_last()).push(json_view(s.last()))
    }
}

/// The models of an object's fields, pair by pair.
pub open spec fn json_fields_view(s: Seq<(String, JsonValue)>) -> Seq<(Seq<char>, JsonV)>
    decreases s,
{
    if s.len() == 0 {
        Seq::empty()
    } else {
        json_fields_view(s.drop_last()).push((s.last().0@, json_view(s.last().1)))
    }
}

/// How [`json_seq_view`] acts on each element.
pub proof fn lemma_json_seq_view(s: Seq<JsonValue>)
    ensures
        json_seq_view(s).len() == s.len(),
        forall|i: int| 0 <= i < s.len() ==> json_seq_view(s)[i] == json_view(#[trigger] s[i]),
    decreases s.len(),
{
    if s.len() > 0 {
        lemma_json_seq_view(s.drop_last());
        assert forall|i: int| 0 <= i < s.len() implies json_seq_view(s)[i] == json_view(
            #[trigger] s[i],
        ) by {
            if i < s.len() - 1 {
                assert(s.drop_last()[i] == s[i]);
                assert(json_seq_view(s)[i] == json_seq_view(s.drop_last())[i]);
            } else {
                assert(json_seq_view(s)[i] == json_view(s.last()));
            }
        }
    }
}

/// How [`json_fields_view`] acts on each pair.
pub proof fn lemma_json_fields_view(s: Seq<(String, JsonValue)>)
    ensures
        json_fields_view(s).len() == s.len(),
        forall|i: int|
            0 <= i < s.len() ==> json_fields_view(s)[i] == ((#[trigger] s[i]).0@, json_view(
                s[i].1,
            )),
    decreases s.len(),
{
    if s.len() > 0 {
        lemma_json_fields_view(s.drop_last());
        assert forall|i: int| 0 <= i < s.len() implies json_fields_view(s)[i] == ((
        #[trigger] s[i]).0@, json_view(s[i].1)) by {
            if i < s.len() - 1 {
                assert(s.drop_last()[i] == s[i]);
                assert(json_fields_view(s)[i] == json_fields_view(s.drop_last())[i]);
            } else {
                assert(json_fields_view(s)[i] == (s.last().0@, json_view(s.last().1)));
            }
        }
    }
}

impl View for JsonValue {
    type V = JsonV;

    open spec fn view(&self) -> JsonV {
        json_view(*self)
    }
}

/// The first value under `key` in an object's fields, if any.
pub open spec fn spec_lookup(fields: Seq<(Seq<char>, JsonV)>, key: Seq<char>) -> Option<JsonV>
    decreases fields.len(),
{
    if fields.len() == 0 {
        None
    } else if fields[0].0 == key {
        Some(fields[0].1)
    } else {
        spec_lookup(fields.drop_first(), key)
    }
}

proof fn lemma_lookup_skip_step(fields: Seq<(Seq<char>, JsonV)>, key: Seq<char>, i: int)
    requires
        0 <= i < fields.len(),
        fields.skip(i)[0].0 != key,
    ensures
        spec_lookup(fields.skip(i), key) == spec_lookup(fields.skip(i + 1), key),
{
    assert(fields.skip(i).drop_first() =~= fields.skip(i + 1));
}

/// Looks a key up among an object's fields: the first field with that
/// name, `None` when there is none.
pub fn lookup<'a>(fields: &'a Vec<(String, JsonValue)>, key: &str) -> (r: Option<&'a JsonValue>)
    ensures
        match r {
            Some(v) => spec_lookup(json_fields_view(fields@), key@) == Some(v@),
            None => spec_lookup(json_fields_view(fields@), key@) is None,
        },
{
    let ghost all = json_fields_view(fields@);
    proof {
        lemma_json_fields_view(fields@);
        assert(all.skip(0) =~= all);
    }
    let mut i: usize = 0;
    while i < fields.len()
        invariant
            0 <= i <= fields.len(),
            all == json_fields_view(fields@),
            all.len() == fields.len(),
            forall|j: int|
                0 <= j < fields@.len() ==> all[j] == ((#[trigger] fields@[j]).0@, json_view(
                    fields@[j].1,
                )),
            spec_lookup(all, key@) == spec_lookup(all.skip(i as int), key@),
        decreases fields.len() - i,
    {
        proof {
            assert(all.skip(i as int)[0] == all[i as int]);
        }
        if text::str_eq(fields[i].0.as_str(), key) {
            return Some(&fields[i].1);
        }
        proof {
            lemma_lookup_skip_step(all, key@, i as int);
        }
        i += 1;
    }
    proof {
        assert(all.skip(all.len() as int) =~= Seq::<(Seq<char>, JsonV)>::empty());
    }
    None
}

/// How the field models distribute over concatenation.
pub proof fn lemma_json_fields_view_append(a: Seq<(String, JsonValue)>, b: Seq<(String, JsonValue)>)
    ensures
        json_fields_view(a + b) == json_fields_view(a) + json_fields_view(b),
    decreases b.len(),
{
    if b.len() == 0 {
        assert(a + b =~= a);
        assert(json_fields_view(a) + json_fields_view(b) =~= json_fields_view(a));
    } else {
        lemma_json_fields_view_append(a, b.drop_last());
        assert((a + b).drop_last() =~= a + b.drop_last());
        assert((a + b).last() == b.last());
        assert(json_fields_view(a) + json_fields_view(b.drop_last()).push(
            (b.last().0@, json_view(b.last().1)),
        ) =~= (json_fields_view(a) + json_fields_view(b.drop_last())).push(
            (b.last().0@, json_view(b.last().1)),
        ));
        assert(json_fields_view(b.drop_last()).push((b.last().0@, json_view(b.last().1)))
            == json_fields_view(b));
    }
}

/// How a lookup walks a concatenation: the left fields win, the right
/// ones answer only when the key is absent on the left.
pub proof fn lemma_lookup_append(
    s1: Seq<(Seq<char>, JsonV)>,
    s2: Seq<(Seq<char>, JsonV)>,
    key: Seq<char>,
)
    ensures
        spec_lookup(s1 + s2, key) == match spec_lookup(s1, key) {
            Some(v) => Some(v),
            None => spec_lookup(s2, key),
        },
    decreases s1.len(),
{
    if s1.len() == 0 {
        assert(s1 + s2 =~= s2);
    } else {
        assert((s1 + s2)[0] == s1[0]);
        assert((s1 + s2).drop_first() =~= s1.drop_first() + s2);
        lemma_lookup_append(s1.drop_first(), s2, key);
    }
}

/// A lenient signed integer: a native integer as it stands, a string
/// through decimal parsing, anything else refused.
pub open spec fn spec_json_i64(v: JsonV) -> Option<int> {
    match v {
        JsonV::Int(n) => Some(n),
        JsonV::Str(s) => match text::str_int(s) {
            Some(n) => if i64::MIN <= n <= i64::MAX {
                Some(n)
            } else {
                None
            },
            None => None,
        },
        _ => None,
    }
}

/// A lenient 32-bit integer: as [`spec_json_i64`], further refused
/// when the value does not fit 32 bits.
pub open spec fn spec_json_i32(v: JsonV) -> Option<int> {
    match spec_json_i64(v) {
        Some(n) => if i32::MIN <= n <= i32::MAX {
            Some(n)
        } else {
            None
        },
        None => None,
    }
}

/// Reads an id-like field that some producers emit as a string: a
/// native integer or a decimal-digit string, anything else a
/// [`FormatError`].
pub fn deserialize_i64_or_string(v: &JsonValue) -> (r: Result<Option<i64>, FormatError>)
    ensures
        r == match spec_json_i64(v@) {
            Some(n) => Ok::<Option<i64>, FormatError>(Some(n as i64)),
            None => Err::<Option<i64>, FormatError>(FormatError),
        },
{
    match v {
        JsonValue::Int(n) => Ok(Some(*n)),
        JsonValue::Str(s) => match text::parse_i64(s.as_str()) {
            Some(n) => Ok(Some(n)),
            None => Err(FormatError),
        },
        _ => Err(FormatError),
    }
}

/// Reads an index-like field that some producers emit as a string: a
/// native integer or a decimal-digit string, refused with a
/// [`FormatError`] when malformed or outside the 32-bit range.
pub fn deserialize_i32_or_string(v: &JsonValue) -> (r: Result<i32, FormatError>)
    ensures
        r == match spec_json_i32(v@) {
            Some(n) => Ok::<i32, FormatError>(n as i32),
            None => Err::<i32, FormatError>(FormatError),
        },
{
    match v {
        JsonValue::Int(n) => {
            if *n >= i32::MIN as i64 && *n <= i32::MAX as i64 {
                Ok(*n as i32)
            } else {
                Err(FormatError)
            }
        },
        JsonValue::Str(s) => match text::parse_i64(s.as_str()) {
            Some(n) => {
                if n >= i32::MIN as i64 && n <= i32::MAX as i64 {
                    Ok(n as i32)
                } else {
                    Err(FormatError)
                }
            },
            None => Err(FormatError),
        },
        _ => Err(FormatError),
    }
}

/// Whether two interchange values are equal, field for field.
pub fn json_eq(a: &JsonValue, b: &JsonValue) -> (r: bool)
    ensures
        r == (a@ == b@),
    decreases *a,
{
    match a {
        JsonValue::Null => match b {
            JsonValue::Null => true,
            _ => false,
        },
        JsonValue::Bool(x) => match b {
            JsonValue::Bool(y) => *x == *y,
            _ => false,
        },
        JsonValue::Int(x) => match b {
            JsonValue::Int(y) => *x == *y,
            _ => false,
        },
        JsonValue::Str(x) => match b {
            JsonValue::Str(y) => text::str_eq(x.as_str(), y.as_str()),
            _ => false,
        },
        JsonValue::Array(x) => match b {
            JsonValue::Array(y) => {
                proof {
                    lemma_json_seq_view(x@);
                    lemma_json_seq_view(y@);
                }
                if x.len() != y.len() {
                    return false;
                }
                let mut i: usize = 0;
                while i < x.len()
                    invariant
                        0 <= i <= x@.len(),
                        x@.len() == y@.len(),
                        *a == JsonValue::Array(*x),
                        *b == JsonValue::Array(*y),
                        a@ == JsonV::Array(json_seq_view(x@)),
                        b@ == JsonV::Array(json_seq_view(y@)),
                        json_seq_view(x@).len() == x@.len(),
                        json_seq_view(y@).len() == y@.len(),
                        forall|j: int|
                            0 <= j < x@.len() ==> json_seq_view(x@)[j] == json_view(
                                #[trigger] x@[j],
                            ),
                        forall|j: int|
                            0 <= j < y@.len() ==> json_seq_view(y@)[j] == json_view(
                                #[trigger] y@[j],
                            ),
                        forall|j: int| 0 <= j < i ==> json_view(x@[j]) == json_view(#[trigger] y@[j]),
                    decreases x@.len() - i,
                {
                    proof {
                        assert(decreases_to!(*a => *x));
                        assert(decreases_to!(*x => x@));
                        assert(decreases_to!(x@ => x@[i as int]));
                        assert(decreases_to!(*a => x@[i as int]));
                    }
                    if !json_eq(&x[i], &y[i]) {
                        proof {
                            assert(json_seq_view(x@)[i as int] != json_seq_view(y@)[i as int]);
                        }
                        return false;
                    }
                    i += 1;
                }
                proof {
                    assert forall|k: int|
                        0 <= k < x@.len() implies json_seq_view(x@)[k] == json_seq_view(
                        y@,
                    )[k] by {
                        assert(json_view(x@[k]) == json_view(y@[k]));
                    }
                    assert(json_seq_view(x@) =~= json_seq_view(y@));
                }
                true
            },
            _ => false,
        },
        JsonValue::Object(x) => match b {
            JsonValue::Object(y) => {
                proof {
                    lemma_json_fields_view(x@);
                    lemma_json_fields_view(y@);
                }
                if x.len() != y.len() {
                    return false;
                }
                let mut i: usize = 0;
                while i < x.len()
                    invariant
                        0 <= i <= x@.len(),
                        x@.len() == y@.len(),
                        *a == JsonValue::Object(*x),
                        *b == JsonValue::Object(*y),
                        a@ == JsonV::Object(json_fields_view(x@)),
                        b@ == JsonV::Object(json_fields_view(y@)),
                        json_fields_view(x@).len() == x@.len(),
                        json_fields_view(y@).len() == y@.len(),
                        forall|j: int|
                            0 <= j < x@.len() ==> json_fields_view(x@)[j] == ((
                            #[trigger] x@[j]).0@, json_view(x@[j].1)),
                        forall|j: int|
                            0 <= j < y@.len() ==> json_fields_view(y@)[j] == ((
                            #[trigger] y@[j]).0@, json_view(y@[j].1)),
                        forall|j: int|
                            0 <= j < i ==> (x@[j].0@, json_view(x@[j].1)) == ((
                            #[trigger] y@[j]).0@, json_view(y@[j].1)),
                    decreases x@.len() - i,
                {
                    if !text::str_eq(x[i].0.as_str(), y[i].0.as_str()) {
                        proof {
                            assert(json_fields_view(x@)[i as int].0 != json_fields_view(
                                y@,
                            )[i as int].0);
                        }
                        return false;
                    }
                    proof {
                        assert(decreases_to!(*a => *x));
                        assert(decreases_to!(*x => x@));
                        assert(decreases_to!(x@ => x@[i as int]));
                        assert(decreases_to!(x@[i as int] => x@[i as int].1));
                        assert(decreases_to!(*a => x@[i as int].1));
                    }
                    if !json_eq(&x[i].1, &y[i].1) {
                        proof {
                            assert(json_fields_view(x@)[i as int].1 != json_fields_view(
                                y@,
                            )[i as int].1);
                        }
                        return false;
                    }
                    i += 1;
                }
                proof {
                    assert forall|k: int|
                        0 <= k < x@.len() implies json_fields_view(x@)[k] == json_fields_view(
                        y@,
                    )[k] by {
                        assert((x@[k].0@, json_view(x@[k].1)) == (y@[k].0@, json_view(y@[k].1)));
                    }
                    assert(json_fields_view(x@) =~= json_fields_view(y@));
                }
                true
            },
            _ => false,
        },
    }
}

/// The integer field under `key`: a native integer and nothing else.
pub open spec fn spec_get_int(fields: Seq<(Seq<char>, JsonV)>, key: Seq<char>) -> Option<int> {
    match spec_lookup(fields, key) {
        Some(JsonV::Int(n)) => Some(n),
        _ => None,
    }
}

/// The string field under `key`.
pub open spec fn spec_get_str(fields: Seq<(Seq<char>, JsonV)>, key: Seq<char>) -> Option<Seq<char>> {
    match spec_lookup(fields, key) {
        Some(JsonV::Str(s)) => Some(s),
        _ => None,
    }
}

/// The boolean field under `key`.
pub open spec fn spec_get_bool(fields: Seq<(Seq<char>, JsonV)>, key: Seq<char>) -> Option<bool> {
    match spec_lookup(fields, key) {
        Some(JsonV::Bool(b)) => Some(b),
        _ => None,
    }
}

/// An optional string field under `key`: an absent field and an
/// explicit null both mean "no value"; a string is the value; any
/// other type is refused.
pub open spec fn spec_get_opt_str(fields: Seq<(Seq<char>, JsonV)>, key: Seq<char>) -> Option<
    Option<Seq<char>>,
> {
    match spec_lookup(fields, key) {
        None => Some(None),
        Some(JsonV::Null) => Some(None),
        Some(JsonV::Str(s)) => Some(Some(s)),
        Some(_) => None,
    }
}

/// A lenient 32-bit integer field under `key`, as [`spec_json_i32`].
pub open spec fn spec_get_i32_lenient(fields: Seq<(Seq<char>, JsonV)>, key: Seq<char>) -> Option<
    int,
> {
    match spec_lookup(fields, key) {
        Some(v) => spec_json_i32(v),
        None => None,
    }
}

/// Reads a required integer field.
pub fn get_i64(fields: &Vec<(String, JsonValue)>, key: &str) -> (r: Result<i64, FormatError>)
    ensures
        match r {
            Ok(n) => spec_get_int(json_fields_view(fields@), key@) == Some(n as int),
            Err(_) => spec_get_int(json_fields_view(fields@), key@) is None,
        },
{
    match lookup(fields, key) {
        Some(JsonValue::Int(n)) => Ok(*n),
        _ => Err(FormatError),
    }
}

/// Reads a required boolean field.
pub fn get_bool(fields: &Vec<(String, JsonValue)>, key: &str) -> (r: Result<bool, FormatError>)
    ensures
        r == match spec_get_bool(json_fields_view(fields@), key@) {
            Some(b) => Ok::<bool, FormatError>(b),
            None => Err::<bool, FormatError>(FormatError),
        },
{
    match lookup(fields, key) {
        Some(JsonValue::Bool(b)) => Ok(*b),
        _ => Err(FormatError),
    }
}

/// Reads a required string field, cloning it out of the record.
pub fn get_string(fields: &Vec<(String, JsonValue)>, key: &str) -> (r: Result<String, FormatError>)
    ensures
        match r {
            Ok(s) => spec_get_str(json_fields_view(fields@), key@) == Some(s@),
            Err(_) => spec_get_str(json_fields_view(fields@), key@) is None,
        },
{
    match lookup(fields, key) {
        Some(JsonValue::Str(s)) => Ok(s.clone()),
        _ => Err(FormatError),
    }
}

/// Reads an optional string field: absent and null both read as
/// `None`.
pub fn get_opt_string(fields: &Vec<(String, JsonValue)>, key: &str) -> (r: Result<
    Option<String>,
    FormatError,
>)
    ensures
        match r {
            Ok(Some(s)) => spec_get_opt_str(json_fields_view(fields@), key@) == Some(
                Some(s@),
            ),
            Ok(None) => spec_get_opt_str(json_fields_view(fields@), key@) == Some(
                None::<Seq<char>>,
            ),
            Err(_) => spec_get_opt_str(json_fields_view(fields@), key@) is None,
        },
{
    match lookup(fields, key) {
        None => Ok(None),
        Some(JsonValue::Null) => Ok(None),
        Some(JsonValue::Str(s)) => Ok(Some(s.clone())),
        Some(_) => Err(FormatError),
    }
}

/// An integer field that defaults to zero when absent: a native
/// integer, zero when the key is missing, anything else refused.
pub open spec fn spec_get_int_or_zero(fields: Seq<(Seq<char>, JsonV)>, key: Seq<char>) -> Option<
    int,
> {
    match spec_lookup(fields, key) {
        None => Some(0),
        Some(JsonV::Int(n)) => Some(n),
        Some(_) => None,
    }
}

/// Reads an integer field that defaults to zero when absent.
pub fn get_i64_or_zero(fields: &Vec<(String, JsonValue)>, key: &str) -> (r: Result<
    i64,
    FormatError,
>)
    ensures
        match r {
            Ok(n) => spec_get_int_or_zero(json_fields_view(fields@), key@) == Some(n as int),
            Err(_) => spec_get_int_or_zero(json_fields_view(fields@), key@) is None,
        },
{
    match lookup(fields, key) {
        None => Ok(0),
        Some(JsonValue::Int(n)) => Ok(*n),
        Some(_) => Err(FormatError),
    }
}

/// Reads a lenient 32-bit integer field — native or string-encoded.
pub fn get_i32_lenient(fields: &Vec<(String, JsonValue)>, key: &str) -> (r: Result<
    i32,
    FormatError,
>)
    ensures
        match r {
            Ok(n) => spec_get_i32_lenient(json_fields_view(fields@), key@) == Some(n as int),
            Err(_) => spec_get_i32_lenient(json_fields_view(fields@), key@) is None,
        },
{
    match lookup(fields, key) {
        Some(v) => deserialize_i32_or_string(v),
        None => Err(FormatError),
    }
}

} // verus!
