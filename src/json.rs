//! The JSON value model that the decoders read, the failure causes they
//! report, and the field-level primitives shared by every entity.
use vstd::prelude::*;
use crate::non_empty::NonEmptyVec;

verus! {

/// A parsed JSON document.
///
/// Objects keep their members in document order; a key that occurs twice
/// keeps its first position and its last value.
#[derive(Debug)]
pub enum Json {
    Null,
    Bool(bool),
    /// A number, with its value when it is a non-negative integer that fits
    /// in 64 bits (`None` for negative and fractional numbers).
    Number(Option<u64>),
    Str(String),
    Array(Vec<Json>),
    Object(Vec<(String, Json)>),
}

/// What kind of structural violation made a decode fail.
#[derive(Clone, Copy, Debug, PartialEq, Eq, Structural)]
pub enum ErrorKind {
    /// The text is not JSON.
    Syntax,
    /// A value has the wrong JSON type; the detail names the expected one.
    WrongType,
    /// A number does not fit the integer type that the detail names.
    OutOfRange,
    /// A required member is absent; the detail names it.
    MissingField,
    /// A tagged object names no known variant; the detail is the tag.
    UnknownVariant,
    /// An action envelope carries more than one of the known keys.
    AmbiguousAction,
    /// An action envelope carries none of the known keys.
    UnsupportedAction,
    /// A message run breaks the text / link / emoji rules; the detail says how.
    InvalidContent,
    /// A numeric string is not an unsigned 64-bit integer; the detail is the string.
    Coercion,
    /// An array that must not be empty is empty; the detail names the member.
    EmptySequence,
}

/// The cause of a failed decode.
#[derive(Debug)]
pub struct DecodeError {
    pub kind: ErrorKind,
    pub detail: String,
}

/// The mathematical content of a [`DecodeError`].
pub struct Fault {
    pub kind: ErrorKind,
    pub detail: Seq<char>,
}

impl View for DecodeError {
    type V = Fault;

    open spec fn view(&self) -> Fault {
        Fault { kind: self.kind, detail: self.detail@ }
    }
}

pub open spec fn fault(kind: ErrorKind, detail: Seq<char>) -> Fault {
    Fault { kind, detail }
}

/// The model of a decode outcome: the view of the value, or the fault.
pub open spec fn outcome<T: View>(r: Result<T, DecodeError>) -> Result<T::V, Fault> {
    match r {
        Ok(x) => Ok(x@),
        Err(e) => Err(e@),
    }
}

/// The model of an optional value.
pub open spec fn opt_view<T: View>(o: Option<T>) -> Option<T::V> {
    match o {
        Some(x) => Some(x@),
        None => None,
    }
}

/// Builds a [`DecodeError`] of the given kind and detail.
pub fn fail(kind: ErrorKind, detail: &str) -> (e: DecodeError)
    ensures
        e@ == fault(kind, detail@),
{
    DecodeError { kind, detail: detail.to_owned() }
}

/// The value of the first member named `key` among `members`.
pub open spec fn lookup(members: Seq<(String, Json)>, key: Seq<char>) -> Option<Json>
    decreases members.len(),
{
    if members.len() == 0 {
        None
    } else if members[0].0@ == key {
        Some(members[0].1)
    } else {
        lookup(members.drop_first(), key)
    }
}

/// The member `key` of an object (`None` when `v` is no object).
pub open spec fn member(v: Json, key: Seq<char>) -> Option<Json> {
    match v {
        Json::Object(members) => lookup(members@, key),
        _ => None,
    }
}

/// Finds the member `key` of `v`.
pub fn get<'a>(v: &'a Json, key: &str) -> (r: Option<&'a Json>)
    ensures
        match r {
            Some(x) => member(*v, key@) == Some(*x),
            None => member(*v, key@) is None,
        },
{
    match v {
        Json::Object(members) => {
            let k = key.to_owned();
            let mut i: usize = 0;
            assert(members@.subrange(0, members@.len() as int) =~= members@);
            while i < members.len()
                invariant
                    i <= members@.len(),
                    k@ == key@,
                    member(*v, key@) == lookup(members@, key@),
                    lookup(members@, key@) == lookup(members@.subrange(i as int, members@.len() as int), key@),
                decreases members@.len() - i,
            {
                assert(members@.subrange(i as int, members@.len() as int).drop_first()
                    =~= members@.subrange(i + 1, members@.len() as int));
                assert(members@.subrange(i as int, members@.len() as int)[0] == members@[i as int]);
                if members[i].0 == k {
                    return Some(&members[i].1);
                }
                i = i + 1;
            }
            None
        },
        _ => None,
    }
}

/// The fault for a value that should have been an object, if it is not one.
pub open spec fn object_spec(v: Json) -> Result<(), Fault> {
    match v {
        Json::Object(_) => Ok(()),
        _ => Err(fault(ErrorKind::WrongType, "object"@)),
    }
}

/// Checks that `v` is an object.
pub fn expect_object(v: &Json) -> (r: Result<(), DecodeError>)
    ensures
        outcome(r) == object_spec(*v),
{
    match v {
        Json::Object(_) => Ok(()),
        _ => Err(fail(ErrorKind::WrongType, "object")),
    }
}

/// A required member: its value, or a missing-field fault.
pub open spec fn required_spec(v: Json, key: Seq<char>) -> Result<Json, Fault> {
    match member(v, key) {
        Some(x) => Ok(x),
        None => Err(fault(ErrorKind::MissingField, key)),
    }
}

/// An optional member: absent and `null` both count as not present.
pub open spec fn optional_spec(v: Json, key: Seq<char>) -> Option<Json> {
    match member(v, key) {
        Some(Json::Null) => None,
        Some(x) => Some(x),
        None => None,
    }
}

/// Finds a required member of `v`.
pub fn required<'a>(v: &'a Json, key: &str) -> (r: Result<&'a Json, DecodeError>)
    ensures
        match r {
            Ok(x) => required_spec(*v, key@) == Ok::<Json, Fault>(*x),
            Err(e) => required_spec(*v, key@) == Err::<Json, Fault>(e@),
        },
{
    match get(v, key) {
        Some(x) => Ok(x),
        None => Err(fail(ErrorKind::MissingField, key)),
    }
}

/// Finds an optional member of `v`, treating `null` as absent.
pub fn optional<'a>(v: &'a Json, key: &str) -> (r: Option<&'a Json>)
    ensures
        match r {
            Some(x) => optional_spec(*v, key@) == Some(*x),
            None => optional_spec(*v, key@) is None,
        },
{
    match get(v, key) {
        Some(x) => match x {
            Json::Null => None,
            _ => Some(x),
        },
        None => None,
    }
}

pub open spec fn string_spec(v: Json) -> Result<Seq<char>, Fault> {
    match v {
        Json::Str(s) => Ok(s@),
        _ => Err(fault(ErrorKind::WrongType, "string"@)),
    }
}

/// Decodes a string.
pub fn decode_string(v: &Json) -> (r: Result<String, DecodeError>)
    ensures
        outcome(r) == string_spec(*v),
{
    match v {
        Json::Str(s) => Ok(s.clone()),
        _ => Err(fail(ErrorKind::WrongType, "string")),
    }
}

pub open spec fn bool_spec(v: Json) -> Result<bool, Fault> {
    match v {
        Json::Bool(b) => Ok(b),
        _ => Err(fault(ErrorKind::WrongType, "boolean"@)),
    }
}

/// Decodes a boolean.
pub fn decode_bool(v: &Json) -> (r: Result<bool, DecodeError>)
    ensures
        outcome(r) == bool_spec(*v),
{
    match v {
        Json::Bool(b) => Ok(*b),
        _ => Err(fail(ErrorKind::WrongType, "boolean")),
    }
}

pub open spec fn u16_spec(v: Json) -> Result<u16, Fault> {
    match v {
        Json::Number(Some(n)) => if n <= u16::MAX {
            Ok(n as u16)
        } else {
            Err(fault(ErrorKind::OutOfRange, "u16"@))
        },
        Json::Number(None) => Err(fault(ErrorKind::OutOfRange, "u16"@)),
        _ => Err(fault(ErrorKind::WrongType, "u16"@)),
    }
}

/// Decodes an unsigned 16-bit integer.
pub fn decode_u16(v: &Json) -> (r: Result<u16, DecodeError>)
    ensures
        outcome(r) == u16_spec(*v),
{
    match v {
        Json::Number(Some(n)) => if *n <= 0xffff {
            Ok(*n as u16)
        } else {
            Err(fail(ErrorKind::OutOfRange, "u16"))
        },
        Json::Number(None) => Err(fail(ErrorKind::OutOfRange, "u16")),
        _ => Err(fail(ErrorKind::WrongType, "u16")),
    }
}

pub open spec fn u32_spec(v: Json) -> Result<u32, Fault> {
    match v {
        Json::Number(Some(n)) => if n <= u32::MAX {
            Ok(n as u32)
        } else {
            Err(fault(ErrorKind::OutOfRange, "u32"@))
        },
        Json::Number(None) => Err(fault(ErrorKind::OutOfRange, "u32"@)),
        _ => Err(fault(ErrorKind::WrongType, "u32"@)),
    }
}

/// Decodes an unsigned 32-bit integer (a packed color).
pub fn decode_u32(v: &Json) -> (r: Result<u32, DecodeError>)
    ensures
        outcome(r) == u32_spec(*v),
{
    match v {
        Json::Number(Some(n)) => if *n <= 0xffff_ffff {
            Ok(*n as u32)
        } else {
            Err(fail(ErrorKind::OutOfRange, "u32"))
        },
        Json::Number(None) => Err(fail(ErrorKind::OutOfRange, "u32")),
        _ => Err(fail(ErrorKind::WrongType, "u32")),
    }
}

} // verus!

verus! {

pub open spec fn array_spec(v: Json) -> Result<Seq<Json>, Fault> {
    match v {
        Json::Array(items) => Ok(items@),
        _ => Err(fault(ErrorKind::WrongType, "array"@)),
    }
}

/// Decodes every element of `items` with `f`, in order; the first element
/// that fails decides the fault.
pub open spec fn all_decoded<T>(items: Seq<Json>, f: spec_fn(Json) -> Result<T, Fault>) -> Result<
    Seq<T>,
    Fault,
>
    decreases items.len(),
{
    if items.len() == 0 {
        Ok(Seq::empty())
    } else {
        match all_decoded(items.drop_last(), f) {
            Err(e) => Err(e),
            Ok(xs) => match f(items.last()) {
                Err(e) => Err(e),
                Ok(x) => Ok(xs.push(x)),
            },
        }
    }
}

/// The models of a sequence of values.
pub open spec fn views<T: View>(xs: Seq<T>) -> Seq<T::V> {
    xs.map_values(|x: T| x@)
}

/// Decodes each element of `items` with `f`, stopping at the first failure.
pub(crate) fn decode_all<T: View, F: Fn(&Json) -> Result<T, DecodeError>>(
    items: &Vec<Json>,
    f: F,
    spec_f: Ghost<spec_fn(Json) -> Result<T::V, Fault>>,
) -> (r: Result<Vec<T>, DecodeError>)
    requires
        forall|j: &Json| f.requires((j,)),
        forall|j: &Json, x: Result<T, DecodeError>| f.ensures((j,), x) ==> outcome(x) == spec_f@(*j),
    ensures
        match r {
            Ok(xs) => all_decoded(items@, spec_f@) == Ok::<Seq<T::V>, Fault>(views(xs@)),
            Err(e) => all_decoded(items@, spec_f@) == Err::<Seq<T::V>, Fault>(e@),
        },
{
    let mut out: Vec<T> = Vec::new();
    let mut i: usize = 0;
    assert(views(out@) =~= Seq::<T::V>::empty());
    assert(all_decoded(items@.take(0), spec_f@) == Ok::<Seq<T::V>, Fault>(Seq::<T::V>::empty()));
    while i < items.len()
        invariant
            i <= items@.len(),
            forall|j: &Json| f.requires((j,)),
            forall|j: &Json, x: Result<T, DecodeError>| f.ensures((j,), x) ==> outcome(x) == spec_f@(*j),
            all_decoded(items@.take(i as int), spec_f@) == Ok::<Seq<T::V>, Fault>(views(out@)),
        decreases items@.len() - i,
    {
        assert(items@.take(i + 1).drop_last() =~= items@.take(i as int));
        assert(items@.take(i + 1).last() == items@[i as int]);
        let x = f(&items[i]);
        match x {
            Ok(x) => {
                let ghost before = out@;
                assert(spec_f@(items@[i as int]) == Ok::<T::V, Fault>(x@));
                out.push(x);
                assert(views(out@) =~= views(before).push(x@));
            },
            Err(e) => {
                proof {
                    lemma_all_decoded_prefix(items@, spec_f@, i as int + 1);
                }
                return Err(e);
            },
        }
        i = i + 1;
    }
    assert(items@.take(i as int) =~= items@);
    Ok(out)
}

/// A failure in a prefix is the failure of the whole sequence.
pub proof fn lemma_all_decoded_prefix<T>(
    items: Seq<Json>,
    f: spec_fn(Json) -> Result<T, Fault>,
    n: int,
)
    requires
        0 <= n <= items.len(),
        all_decoded(items.take(n), f) is Err,
    ensures
        all_decoded(items, f) == all_decoded(items.take(n), f),
    decreases items.len(),
{
    if n < items.len() {
        assert(items.drop_last().take(n) =~= items.take(n));
        lemma_all_decoded_prefix(items.drop_last(), f, n);
    } else {
        assert(items.take(n) =~= items);
    }
}

/// A value that must be a non-empty array, decoded element by element;
/// `key` names the member it came from.
pub open spec fn non_empty_value_spec<T>(
    a: Json,
    key: Seq<char>,
    f: spec_fn(Json) -> Result<T, Fault>,
) -> Result<Seq<T>, Fault> {
    match array_spec(a) {
        Err(e) => Err(e),
        Ok(items) => match all_decoded(items, f) {
            Err(e) => Err(e),
            Ok(xs) => if xs.len() == 0 {
                Err(fault(ErrorKind::EmptySequence, key))
            } else {
                Ok(xs)
            },
        },
    }
}

/// A required member that must hold a non-empty array.
pub open spec fn non_empty_spec<T>(
    v: Json,
    key: Seq<char>,
    f: spec_fn(Json) -> Result<T, Fault>,
) -> Result<Seq<T>, Fault> {
    match required_spec(v, key) {
        Err(e) => Err(e),
        Ok(a) => non_empty_value_spec(a, key, f),
    }
}

/// An optional member that, when present and not `null`, must hold a
/// non-empty array.
pub open spec fn opt_non_empty_spec<T>(
    v: Json,
    key: Seq<char>,
    f: spec_fn(Json) -> Result<T, Fault>,
) -> Result<Option<Seq<T>>, Fault> {
    match optional_spec(v, key) {
        None => Ok(None),
        Some(a) => match non_empty_value_spec(a, key, f) {
            Err(e) => Err(e),
            Ok(xs) => Ok(Some(xs)),
        },
    }
}

/// Decodes `a` as a non-empty array of elements decoded by `f`.
pub(crate) fn decode_non_empty_value<T: View, F: Fn(&Json) -> Result<T, DecodeError>>(
    a: &Json,
    key: &str,
    f: F,
    spec_f: Ghost<spec_fn(Json) -> Result<T::V, Fault>>,
) -> (r: Result<NonEmptyVec<T>, DecodeError>)
    requires
        forall|j: &Json| f.requires((j,)),
        forall|j: &Json, x: Result<T, DecodeError>| f.ensures((j,), x) ==> outcome(x) == spec_f@(*j),
    ensures
        outcome(r) == non_empty_value_spec(*a, key@, spec_f@),
{
    let items = match a {
        Json::Array(items) => items,
        _ => {
            return Err(fail(ErrorKind::WrongType, "array"));
        },
    };
    let xs = decode_all(items, f, spec_f)?;
    match NonEmptyVec::try_from_vec(xs) {
        Some(n) => Ok(n),
        None => Err(fail(ErrorKind::EmptySequence, key)),
    }
}

/// Decodes the member `key` of `v` as a non-empty array of elements decoded by `f`.
pub(crate) fn decode_non_empty<T: View, F: Fn(&Json) -> Result<T, DecodeError>>(
    v: &Json,
    key: &str,
    f: F,
    spec_f: Ghost<spec_fn(Json) -> Result<T::V, Fault>>,
) -> (r: Result<NonEmptyVec<T>, DecodeError>)
    requires
        forall|j: &Json| f.requires((j,)),
        forall|j: &Json, x: Result<T, DecodeError>| f.ensures((j,), x) ==> outcome(x) == spec_f@(*j),
    ensures
        outcome(r) == non_empty_spec(*v, key@, spec_f@),
{
    let a = required(v, key)?;
    decode_non_empty_value(a, key, f, spec_f)
}

/// Decodes the optional member `key` of `v` as a non-empty array; `None`
/// when it is absent or `null`.
pub(crate) fn decode_opt_non_empty<T: View, F: Fn(&Json) -> Result<T, DecodeError>>(
    v: &Json,
    key: &str,
    f: F,
    spec_f: Ghost<spec_fn(Json) -> Result<T::V, Fault>>,
) -> (r: Result<Option<NonEmptyVec<T>>, DecodeError>)
    requires
        forall|j: &Json| f.requires((j,)),
        forall|j: &Json, x: Result<T, DecodeError>| f.ensures((j,), x) ==> outcome(x) == spec_f@(*j),
    ensures
        opt_outcome(r) == opt_non_empty_spec(*v, key@, spec_f@),
{
    match optional(v, key) {
        None => Ok(None),
        Some(a) => {
            let xs = decode_non_empty_value(a, key, f, spec_f)?;
            Ok(Some(xs))
        },
    }
}

/// Peels a wrapper object `{key: body}` down to its body.
pub open spec fn unwrap_spec(v: Json, key: Seq<char>) -> Result<Json, Fault> {
    match object_spec(v) {
        Err(e) => Err(e),
        Ok(_) => required_spec(v, key),
    }
}

/// Peels a wrapper object `{key: body}` down to its body.
pub fn unwrap<'a>(v: &'a Json, key: &str) -> (r: Result<&'a Json, DecodeError>)
    ensures
        match r {
            Ok(x) => unwrap_spec(*v, key@) == Ok::<Json, Fault>(*x),
            Err(e) => unwrap_spec(*v, key@) == Err::<Json, Fault>(e@),
        },
{
    expect_object(v)?;
    required(v, key)
}

} // verus!

verus! {

#[verifier::external_type_specification]
#[verifier::external_body]
pub struct ExJsonError(serde_json::Error);

#[verifier::external_type_specification]
#[verifier::external_body]
pub struct ExJsonValue(serde_json::Value);

/// The document that serde_json reads from `text`, or `None` when the text
/// is not a JSON document.
pub uninterp spec fn json_of_text(text: Seq<char>) -> Option<Json>;

/// Relies on `serde_json::from_str` into a `serde_json::Value`: the document
/// depends on the text alone, and parsing fails exactly when it is not JSON.
#[verifier::external_body]
fn parse_value(text: &str) -> (r: Result<Json, serde_json::Error>)
    ensures
        match r {
            Ok(v) => json_of_text(text@) == Some(v),
            Err(_) => json_of_text(text@) is None,
        },
{
    serde_json::from_str::<serde_json::Value>(text).map(json_from_value)
}

/// Relies on serde_json's `Value` enum: moves each node of a parsed document
/// into the matching `Json` node, members and elements in order.
#[verifier::external_body]
fn json_from_value(v: serde_json::Value) -> Json {
    match v {
        serde_json::Value::Null => Json::Null,
        serde_json::Value::Bool(b) => Json::Bool(b),
        serde_json::Value::Number(n) => Json::Number(n.as_u64()),
        serde_json::Value::String(s) => Json::Str(s),
        serde_json::Value::Array(a) => Json::Array(a.into_iter().map(json_from_value).collect()),
        serde_json::Value::Object(m) => Json::Object(
            m.into_iter().map(|(k, x)| (k, json_from_value(x))).collect(),
        ),
    }
}

/// Relies on the `Display` impl of `serde_json::Error` for a readable message.
#[verifier::external_body]
fn syntax_message(e: &serde_json::Error) -> String {
    e.to_string()
}

/// Parses `text` as a JSON document; a syntax fault when it is not one.
pub fn parse_document(text: &str) -> (r: Result<Json, DecodeError>)
    ensures
        match json_of_text(text@) {
            Some(v) => r matches Ok(d) && d == v,
            None => r matches Err(e) && e.kind == ErrorKind::Syntax,
        },
{
    match parse_value(text) {
        Ok(v) => Ok(v),
        Err(e) => Err(DecodeError { kind: ErrorKind::Syntax, detail: syntax_message(&e) }),
    }
}

/// The value of a non-empty run of decimal digits.
pub open spec fn decimal_value(d: Seq<char>) -> int
    decreases d.len(),
{
    if d.len() == 0 {
        0
    } else {
        decimal_value(d.drop_last()) * 10 + (d.last() as int - '0' as int)
    }
}

pub open spec fn is_decimal(d: Seq<char>) -> bool {
    &&& d.len() > 0
    &&& forall|i: int| 0 <= i < d.len() ==> '0' <= #[trigger] d[i] <= '9'
}

/// The unsigned 64-bit integer that `s` spells: an optional `+`, then
/// decimal digits whose value fits.
pub open spec fn u64_of_text(s: Seq<char>) -> Option<u64> {
    let d = if s.len() > 0 && s[0] == '+' {
        s.drop_first()
    } else {
        s
    };
    if is_decimal(d) && decimal_value(d) <= u64::MAX {
        Some(decimal_value(d) as u64)
    } else {
        None
    }
}

/// Relies on `<u64 as FromStr>::from_str`, which accepts an optional `+`
/// followed by ASCII digits and rejects everything else and overflow.
#[verifier::external_body]
fn parse_u64(s: &str) -> (r: Option<u64>)
    ensures
        r == u64_of_text(s@),
{
    s.parse::<u64>().ok()
}

/// A timestamp: an unsigned 64-bit integer carried as a JSON string.
pub open spec fn timestamp_spec(v: Json) -> Result<u64, Fault> {
    match v {
        Json::Str(s) => match u64_of_text(s@) {
            Some(n) => Ok(n),
            None => Err(fault(ErrorKind::Coercion, s@)),
        },
        _ => Err(fault(ErrorKind::WrongType, "string"@)),
    }
}

/// Decodes an unsigned 64-bit integer written as a JSON string.
pub fn decode_timestamp(v: &Json) -> (r: Result<u64, DecodeError>)
    ensures
        outcome(r) == timestamp_spec(*v),
{
    match v {
        Json::Str(s) => match parse_u64(s.as_str()) {
            Some(n) => Ok(n),
            None => Err(DecodeError { kind: ErrorKind::Coercion, detail: s.clone() }),
        },
        _ => Err(fail(ErrorKind::WrongType, "string")),
    }
}

} // verus!

verus! {

/// A required member, decoded by `f`.
pub open spec fn member_spec<T>(v: Json, key: Seq<char>, f: spec_fn(Json) -> Result<T, Fault>) -> Result<T, Fault> {
    match required_spec(v, key) {
        Err(e) => Err(e),
        Ok(x) => f(x),
    }
}

/// An optional member, decoded by `f` when it is present and not `null`.
pub open spec fn opt_member_spec<T>(
    v: Json,
    key: Seq<char>,
    f: spec_fn(Json) -> Result<T, Fault>,
) -> Result<Option<T>, Fault> {
    match optional_spec(v, key) {
        None => Ok(None),
        Some(x) => match f(x) {
            Ok(y) => Ok(Some(y)),
            Err(e) => Err(e),
        },
    }
}

/// The outcome of an optional decode, as a model.
pub open spec fn opt_outcome<T: View>(r: Result<Option<T>, DecodeError>) -> Result<Option<T::V>, Fault> {
    match r {
        Ok(o) => Ok(opt_view(o)),
        Err(e) => Err(e@),
    }
}

/// Decodes the required member `key` of `v` with `f`.
pub(crate) fn decode_member<T: View, F: Fn(&Json) -> Result<T, DecodeError>>(
    v: &Json,
    key: &str,
    f: F,
    spec_f: Ghost<spec_fn(Json) -> Result<T::V, Fault>>,
) -> (r: Result<T, DecodeError>)
    requires
        forall|j: &Json| f.requires((j,)),
        forall|j: &Json, x: Result<T, DecodeError>| f.ensures((j,), x) ==> outcome(x) == spec_f@(*j),
    ensures
        outcome(r) == member_spec(*v, key@, spec_f@),
{
    let x = required(v, key)?;
    f(x)
}

/// Decodes the optional member `key` of `v` with `f`; `None` when it is
/// absent or `null`.
pub(crate) fn decode_opt_member<T: View, F: Fn(&Json) -> Result<T, DecodeError>>(
    v: &Json,
    key: &str,
    f: F,
    spec_f: Ghost<spec_fn(Json) -> Result<T::V, Fault>>,
) -> (r: Result<Option<T>, DecodeError>)
    requires
        forall|j: &Json| f.requires((j,)),
        forall|j: &Json, x: Result<T, DecodeError>| f.ensures((j,), x) ==> outcome(x) == spec_f@(*j),
    ensures
        opt_outcome(r) == opt_member_spec(*v, key@, spec_f@),
{
    match optional(v, key) {
        None => Ok(None),
        Some(x) => match f(x) {
            Ok(y) => Ok(Some(y)),
            Err(e) => Err(e),
        },
    }
}

pub open spec fn string_fn() -> spec_fn(Json) -> Result<Seq<char>, Fault> {
    |j: Json| string_spec(j)
}

pub open spec fn bool_fn() -> spec_fn(Json) -> Result<bool, Fault> {
    |j: Json| bool_spec(j)
}

pub open spec fn u16_fn() -> spec_fn(Json) -> Result<u16, Fault> {
    |j: Json| u16_spec(j)
}

pub open spec fn u32_fn() -> spec_fn(Json) -> Result<u32, Fault> {
    |j: Json| u32_spec(j)
}

pub open spec fn timestamp_fn() -> spec_fn(Json) -> Result<u64, Fault> {
    |j: Json| timestamp_spec(j)
}

} // verus!
