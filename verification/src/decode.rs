//! Reading typed values out of a JSON document: members of an object by
//! key, required or optional, and whole records.

use vstd::prelude::*;
use vstd::string::StringExecFns;
use crate::json::Json;
use crate::model::{
    Badge, DifficultyEnum, HeadsetRepr, Metadata, Real, Timestamp, UnknownEnumValue,
};

verus! {

/// The instant that a text names, where it is a date and time with an
/// offset from UTC in the notation of RFC 3339, or in the relaxed form of
/// it that the parser takes (a space for the `T`, spaces between parts).
pub uninterp spec fn instant_of_text(text: Seq<char>) -> Option<Timestamp>;

/// `str::parse` at `chrono::DateTime<Utc>`, then `timestamp` and
/// `timestamp_subsec_nanos` of the result: the instant that the text names,
/// nothing where it names none. The text carries its own offset, so the
/// result does not depend on where or when it is read.
#[verifier::external_body]
fn read_instant(text: &str) -> (r: Option<Timestamp>)
    ensures
        r == instant_of_text(text@),
{
    text.parse::<chrono::DateTime<chrono::Utc>>().ok().map(
        |d| Timestamp { secs: d.timestamp(), nanos: d.timestamp_subsec_nanos() },
    )
}

/// The view of an optional text.
pub open spec fn text_view(o: Option<String>) -> Option<Seq<char>> {
    match o {
        Some(s) => Some(s@),
        None => None,
    }
}

/// The decimal notation of an optional number.
pub open spec fn real_view(o: Option<Real>) -> Option<Seq<char>> {
    match o {
        Some(r) => Some(r.text@),
        None => None,
    }
}

/// The document as an instant: a text that names one.
pub open spec fn as_instant(v: Json) -> Option<Timestamp> {
    match v.as_text() {
        Some(t) => instant_of_text(t),
        None => None,
    }
}

/// The document as a headset: an integer that is one of its constants.
pub open spec fn as_headset(v: Json) -> Option<HeadsetRepr> {
    match v.as_u32() {
        Some(n) => HeadsetRepr::of_wire(n),
        None => None,
    }
}

/// The document as a difficulty: an integer that is one of its constants.
pub open spec fn as_difficulty(v: Json) -> Option<DifficultyEnum> {
    match v.as_u32() {
        Some(n) => DifficultyEnum::of_wire(n),
        None => None,
    }
}

/// A required member: its typed value, or nothing where the member is
/// missing, `null` or of another type.
pub open spec fn required<A>(member: Option<Json>, typed: spec_fn(Json) -> Option<A>) -> Option<A> {
    match member {
        Some(v) => typed(v),
        None => None,
    }
}

/// An optional member: absent where the member is missing or `null`, its
/// typed value where it has the type, and nothing where it has another.
pub open spec fn optional<A>(member: Option<Json>, typed: spec_fn(Json) -> Option<A>) -> Option<
    Option<A>,
> {
    match member {
        Some(v) => match typed(v) {
            Some(a) => Some(Some(a)),
            None => None,
        },
        None => Some(None),
    }
}

/// The required member as an integer from 0 to 2^64 - 1.
pub open spec fn req_u64(j: Json, key: Seq<char>) -> Option<u64> {
    required(j.field(key), |v: Json| v.as_u64())
}

/// The required member as an integer from 0 to 2^32 - 1.
pub open spec fn req_u32(j: Json, key: Seq<char>) -> Option<u32> {
    required(j.field(key), |v: Json| v.as_u32())
}

/// The required member as an integer from -2^31 to 2^31 - 1.
pub open spec fn req_i32(j: Json, key: Seq<char>) -> Option<i32> {
    required(j.field(key), |v: Json| v.as_i32())
}

/// The required member as a boolean.
pub open spec fn req_bool(j: Json, key: Seq<char>) -> Option<bool> {
    required(j.field(key), |v: Json| v.as_bool())
}

/// The required member as a text.
pub open spec fn req_text(j: Json, key: Seq<char>) -> Option<Seq<char>> {
    required(j.field(key), |v: Json| v.as_text())
}

/// The required member as a number of any kind, in decimal notation.
pub open spec fn req_real(j: Json, key: Seq<char>) -> Option<Seq<char>> {
    required(j.field(key), |v: Json| v.as_real())
}

/// The required member as an instant.
pub open spec fn req_instant(j: Json, key: Seq<char>) -> Option<Timestamp> {
    required(j.field(key), |v: Json| as_instant(v))
}

/// The required member as a headset.
pub open spec fn req_headset(j: Json, key: Seq<char>) -> Option<HeadsetRepr> {
    required(j.field(key), |v: Json| as_headset(v))
}

/// The required member as a difficulty.
pub open spec fn req_difficulty(j: Json, key: Seq<char>) -> Option<DifficultyEnum> {
    required(j.field(key), |v: Json| as_difficulty(v))
}

/// The optional member as an integer from 0 to 2^32 - 1.
pub open spec fn opt_u32(j: Json, key: Seq<char>) -> Option<Option<u32>> {
    optional(j.field(key), |v: Json| v.as_u32())
}

/// The optional member as a text.
pub open spec fn opt_text(j: Json, key: Seq<char>) -> Option<Option<Seq<char>>> {
    optional(j.field(key), |v: Json| v.as_text())
}

/// The optional member as an instant.
pub open spec fn opt_instant(j: Json, key: Seq<char>) -> Option<Option<Timestamp>> {
    optional(j.field(key), |v: Json| as_instant(v))
}

fn value_u64(v: &Json) -> (r: Option<u64>)
    ensures
        r == v.as_u64(),
{
    match v {
        Json::Number(n) => n.unsigned,
        _ => None,
    }
}

fn value_u32(v: &Json) -> (r: Option<u32>)
    ensures
        r == v.as_u32(),
{
    match value_u64(v) {
        Some(n) => if n <= 0xffff_ffff {
            Some(n as u32)
        } else {
            None
        },
        None => None,
    }
}

fn value_i32(v: &Json) -> (r: Option<i32>)
    ensures
        r == v.as_i32(),
{
    match v {
        Json::Number(n) => match n.signed {
            Some(i) => if -0x8000_0000 <= i && i <= 0x7fff_ffff {
                Some(i as i32)
            } else {
                None
            },
            None => None,
        },
        _ => None,
    }
}

fn value_bool(v: &Json) -> (r: Option<bool>)
    ensures
        r == v.as_bool(),
{
    match v {
        Json::Bool(b) => Some(*b),
        _ => None,
    }
}

fn value_text(v: &Json) -> (r: Option<String>)
    ensures
        text_view(r) == v.as_text(),
{
    match v {
        Json::Text(s) => Some(s.clone()),
        _ => None,
    }
}

fn value_real(v: &Json) -> (r: Option<Real>)
    ensures
        real_view(r) == v.as_real(),
{
    match v {
        Json::Number(n) => Some(Real { text: n.text.clone() }),
        _ => None,
    }
}

fn value_instant(v: &Json) -> (r: Option<Timestamp>)
    ensures
        r == as_instant(*v),
{
    match v {
        Json::Text(s) => read_instant(s.as_str()),
        _ => None,
    }
}

/// Reads a required integer member.
pub fn take_u64(j: &Json, key: &str) -> (r: Option<u64>)
    ensures
        r == req_u64(*j, key@),
{
    match j.get(key) {
        Some(v) => value_u64(v),
        None => None,
    }
}

/// Reads a required integer member that fits in 32 bits.
pub fn take_u32(j: &Json, key: &str) -> (r: Option<u32>)
    ensures
        r == req_u32(*j, key@),
{
    match j.get(key) {
        Some(v) => value_u32(v),
        None => None,
    }
}

/// Reads a required integer member that may be negative.
pub fn take_i32(j: &Json, key: &str) -> (r: Option<i32>)
    ensures
        r == req_i32(*j, key@),
{
    match j.get(key) {
        Some(v) => value_i32(v),
        None => None,
    }
}

/// Reads a required boolean member.
pub fn take_bool(j: &Json, key: &str) -> (r: Option<bool>)
    ensures
        r == req_bool(*j, key@),
{
    match j.get(key) {
        Some(v) => value_bool(v),
        None => None,
    }
}

/// Reads a required text member.
pub fn take_text(j: &Json, key: &str) -> (r: Option<String>)
    ensures
        text_view(r) == req_text(*j, key@),
{
    match j.get(key) {
        Some(v) => value_text(v),
        None => None,
    }
}

/// Reads a required member that is a number of any kind.
pub fn take_real(j: &Json, key: &str) -> (r: Option<Real>)
    ensures
        real_view(r) == req_real(*j, key@),
{
    match j.get(key) {
        Some(v) => value_real(v),
        None => None,
    }
}

/// Reads a required member that is a date and time.
pub fn take_instant(j: &Json, key: &str) -> (r: Option<Timestamp>)
    ensures
        r == req_instant(*j, key@),
{
    match j.get(key) {
        Some(v) => value_instant(v),
        None => None,
    }
}

/// Reads a required headset member. An integer that is no headset
/// constant is no headset.
pub fn take_headset(j: &Json, key: &str) -> (r: Option<HeadsetRepr>)
    ensures
        r == req_headset(*j, key@),
{
    match take_u32(j, key) {
        Some(n) => match HeadsetRepr::from_wire(n) {
            Ok(h) => Some(h),
            Err(_) => None,
        },
        None => None,
    }
}

/// Reads a required difficulty member. An integer that is no difficulty
/// constant is no difficulty.
pub fn take_difficulty(j: &Json, key: &str) -> (r: Option<DifficultyEnum>)
    ensures
        r == req_difficulty(*j, key@),
{
    match take_u32(j, key) {
        Some(n) => match DifficultyEnum::from_wire(n) {
            Ok(d) => Some(d),
            Err(_) => None,
        },
        None => None,
    }
}

/// Reads an optional integer member that fits in 32 bits.
pub fn take_opt_u32(j: &Json, key: &str) -> (r: Option<Option<u32>>)
    ensures
        r == opt_u32(*j, key@),
{
    match j.get(key) {
        Some(v) => match value_u32(v) {
            Some(n) => Some(Some(n)),
            None => None,
        },
        None => Some(None),
    }
}

/// Reads an optional text member.
pub fn take_opt_text(j: &Json, key: &str) -> (r: Option<Option<String>>)
    ensures
        match r {
            Some(t) => opt_text(*j, key@) == Some(text_view(t)),
            None => opt_text(*j, key@) is None,
        },
{
    match j.get(key) {
        Some(v) => match value_text(v) {
            Some(s) => Some(Some(s)),
            None => None,
        },
        None => Some(None),
    }
}

/// Reads an optional member that is a date and time.
pub fn take_opt_instant(j: &Json, key: &str) -> (r: Option<Option<Timestamp>>)
    ensures
        r == opt_instant(*j, key@),
{
    match j.get(key) {
        Some(v) => match value_instant(v) {
            Some(t) => Some(Some(t)),
            None => None,
        },
        None => Some(None),
    }
}

/// A value that is read from a JSON document: a record from an object, a
/// list of records from an array, an integer or an enumeration from a
/// number.
pub trait Record: Sized {
    /// Whether the document is the JSON form of the record: every required
    /// member is there with its type and is the record's field, and every
    /// optional member is missing, `null` or the record's field. Members
    /// that the record does not name are not looked at.
    spec fn describes(j: Json, v: Self) -> bool;

    /// Reads the record. It is read whole or not at all: where a required
    /// member is missing or a member has another type than the record
    /// asks for, no record comes back, and no field is ever filled in with
    /// a default.
    fn from_json(j: &Json) -> (r: Option<Self>)
        ensures
            match r {
                Some(v) => Self::describes(*j, v),
                None => forall|v: Self| !Self::describes(*j, v),
            },
    ;

    /// The keys of the members that the record requires, in the order of
    /// its fields.
    spec fn required() -> Seq<Seq<char>>;

    /// The keys of the required members.
    fn required_keys() -> (keys: Vec<&'static str>)
        ensures
            keys_of(keys@) == Self::required(),
    ;

    /// A document that is the JSON form of a record has every required
    /// member.
    proof fn required_are_needed(j: Json, v: Self, i: int)
        requires
            Self::describes(j, v),
        ensures
            0 <= i < Self::required().len() ==> j.field(Self::required()[i]) is Some,
    ;

    /// The first enumeration integer of the document that is none of the
    /// constants of its enumeration, in the order of the record's fields
    /// and, within a field, of what it holds.
    spec fn unknown(j: Json) -> Option<UnknownEnumValue>;

    /// Finds the first enumeration integer that is none of its constants.
    fn find_unknown(j: &Json) -> (r: Option<UnknownEnumValue>)
        ensures
            r == Self::unknown(*j),
    ;

    /// A document with an enumeration integer that is none of its constants
    /// is the JSON form of no record.
    proof fn unknown_is_no_record(j: Json, v: Self)
        ensures
            Self::unknown(j) is Some ==> !Self::describes(j, v),
    ;
}

/// The first of two findings: the one, or the other where the one is none.
pub open spec fn first_of(
    one: Option<UnknownEnumValue>,
    other: Option<UnknownEnumValue>,
) -> Option<UnknownEnumValue> {
    match one {
        Some(_) => one,
        None => other,
    }
}

/// The first unknown enumeration integer in the member with the given key.
pub open spec fn unknown_in_member<T: Record>(j: Json, key: Seq<char>) -> Option<
    UnknownEnumValue,
> {
    match j.field(key) {
        Some(x) => T::unknown(x),
        None => None,
    }
}

/// The first unknown enumeration integer in a sequence of documents.
pub open spec fn unknown_in_items<T: Record>(items: Seq<Json>) -> Option<UnknownEnumValue>
    decreases items.len(),
{
    if items.len() == 0 {
        None
    } else {
        first_of(T::unknown(items[0]), unknown_in_items::<T>(items.skip(1)))
    }
}

/// The first unknown enumeration integer in an array of records.
pub open spec fn unknown_in_array<T: Record>(x: Json) -> Option<UnknownEnumValue> {
    match x.as_items() {
        Some(items) => unknown_in_items::<T>(items),
        None => None,
    }
}

/// An integer that is no constant of the headset, as an unknown value.
pub open spec fn headset_fault(v: Json) -> Option<UnknownEnumValue> {
    match v.as_u32() {
        Some(n) => if HeadsetRepr::of_wire(n) is None {
            Some(UnknownEnumValue { value: n })
        } else {
            None
        },
        None => None,
    }
}

/// An integer that is no constant of the difficulty, as an unknown value.
pub open spec fn difficulty_fault(v: Json) -> Option<UnknownEnumValue> {
    match v.as_u32() {
        Some(n) => if DifficultyEnum::of_wire(n) is None {
            Some(UnknownEnumValue { value: n })
        } else {
            None
        },
        None => None,
    }
}

/// Finds the first unknown enumeration integer in a member.
pub fn find_unknown_in_member<T: Record>(j: &Json, key: &str) -> (r: Option<UnknownEnumValue>)
    ensures
        r == unknown_in_member::<T>(*j, key@),
{
    match j.get(key) {
        Some(x) => T::find_unknown(x),
        None => None,
    }
}

/// Finds the first unknown enumeration integer in an array of records.
pub fn find_unknown_in_array<T: Record>(x: &Json) -> (r: Option<UnknownEnumValue>)
    ensures
        r == unknown_in_array::<T>(*x),
{
    match x {
        Json::Array(items) => {
            let mut i: usize = 0;
            assert(items@.skip(0) =~= items@);
            while i < items.len()
                invariant
                    i <= items@.len(),
                    *x == Json::Array(*items),
                    unknown_in_items::<T>(items@) == unknown_in_items::<T>(items@.skip(i as int)),
                decreases items@.len() - i,
            {
                assert(items@.skip(i as int)[0] == items@[i as int]);
                assert(items@.skip(i as int).skip(1) =~= items@.skip(i + 1));
                match T::find_unknown(&items[i]) {
                    Some(e) => {
                        return Some(e);
                    },
                    None => {},
                }
                i += 1;
            }
            None
        },
        _ => None,
    }
}

/// Where a member holds an unknown enumeration integer, the member is the
/// JSON form of no record.
pub proof fn unknown_member_is_no_required<T: Record>(j: Json, key: Seq<char>, v: T)
    requires
        unknown_in_member::<T>(j, key) is Some,
    ensures
        !req_record(j, key, v),
{
    T::unknown_is_no_record(j.field(key)->0, v);
}

/// Where a member holds an unknown enumeration integer, it is neither
/// absent nor the JSON form of a record.
pub proof fn unknown_member_is_no_optional<T: Record>(j: Json, key: Seq<char>, v: Option<T>)
    requires
        unknown_in_member::<T>(j, key) is Some,
    ensures
        !opt_record(j, key, v),
{
    if v is Some {
        T::unknown_is_no_record(j.field(key)->0, v->0);
    }
}

/// Where one of the documents holds an unknown enumeration integer, they
/// are the JSON forms of no records.
pub proof fn unknown_item_means_no_list<T: Record>(items: Seq<Json>, v: Seq<T>)
    requires
        unknown_in_items::<T>(items) is Some,
    ensures
        !list_describes(items, v),
    decreases items.len(),
{
    if list_describes(items, v) {
        assert(T::describes(items[0], v[0]));
        if T::unknown(items[0]) is Some {
            T::unknown_is_no_record(items[0], v[0]);
        } else {
            assert forall|i: int| 0 <= i < items.skip(1).len() implies T::describes(
                #[trigger] items.skip(1)[i],
                v.skip(1)[i],
            ) by {
                assert(T::describes(items[i + 1], v[i + 1]));
            }
            unknown_item_means_no_list::<T>(items.skip(1), v.skip(1));
        }
    }
}

/// The texts of a list of keys.
pub open spec fn keys_of(keys: Seq<&'static str>) -> Seq<Seq<char>> {
    Seq::new(keys.len(), |i: int| keys[i]@)
}

/// The first of the keys under which the object has no member, or a member
/// that is `null`.
pub open spec fn first_absent(j: Json, keys: Seq<Seq<char>>) -> Option<Seq<char>>
    decreases keys.len(),
{
    if keys.len() == 0 {
        None
    } else if j.field(keys[0]) is None {
        Some(keys[0])
    } else {
        first_absent(j, keys.skip(1))
    }
}

/// Finds the first of the keys under which the object has no member.
pub fn find_absent(j: &Json, keys: &Vec<&'static str>) -> (r: Option<String>)
    ensures
        text_view(r) == first_absent(*j, keys_of(keys@)),
{
    let mut i: usize = 0;
    assert(keys_of(keys@).skip(0) =~= keys_of(keys@));
    while i < keys.len()
        invariant
            i <= keys@.len(),
            first_absent(*j, keys_of(keys@)) == first_absent(*j, keys_of(keys@).skip(i as int)),
        decreases keys@.len() - i,
    {
        let key: &'static str = keys[i];
        assert(keys_of(keys@).skip(i as int)[0] == key@);
        assert(keys_of(keys@).skip(i as int).skip(1) =~= keys_of(keys@).skip(i + 1));
        if j.get(key).is_none() {
            return Some(String::from_str(key));
        }
        i += 1;
    }
    None
}

/// Where a key is absent, the place of one such key in the list.
pub proof fn absent_place(j: Json, keys: Seq<Seq<char>>) -> (i: int)
    requires
        first_absent(j, keys) is Some,
    ensures
        0 <= i < keys.len(),
        j.field(keys[i]) is None,
        first_absent(j, keys) == Some(keys[i]),
    decreases keys.len(),
{
    if j.field(keys[0]) is None {
        0
    } else {
        absent_place(j, keys.skip(1)) + 1
    }
}

/// A document that lacks a required member is the JSON form of no record:
/// a missing member is never made up for.
pub proof fn absent_member_means_no_record<T: Record>(j: Json, v: T)
    requires
        first_absent(j, T::required()) is Some,
    ensures
        !T::describes(j, v),
{
    if T::describes(j, v) {
        let i = absent_place(j, T::required());
        T::required_are_needed(j, v, i);
    }
}

/// A required member that is a record.
pub open spec fn req_record<T: Record>(j: Json, key: Seq<char>, v: T) -> bool {
    match j.field(key) {
        Some(x) => T::describes(x, v),
        None => false,
    }
}

/// An optional member that is a record.
pub open spec fn opt_record<T: Record>(j: Json, key: Seq<char>, v: Option<T>) -> bool {
    match j.field(key) {
        Some(x) => v is Some && T::describes(x, v->0),
        None => v is None,
    }
}

/// Item by item, the documents are the JSON forms of the records: as many
/// of the one as of the other, in the same order.
pub open spec fn list_describes<T: Record>(items: Seq<Json>, v: Seq<T>) -> bool {
    &&& items.len() == v.len()
    &&& forall|i: int| 0 <= i < items.len() ==> T::describes(#[trigger] items[i], v[i])
}

/// A document that is an array of records.
pub open spec fn array_describes<T: Record>(x: Json, v: Vec<T>) -> bool {
    match x.as_items() {
        Some(items) => list_describes(items, v@),
        None => false,
    }
}

/// A required member that is an array of records.
pub open spec fn req_list<T: Record>(j: Json, key: Seq<char>, v: Vec<T>) -> bool {
    match j.field(key) {
        Some(x) => array_describes(x, v),
        None => false,
    }
}

/// An optional member that is an array of records.
pub open spec fn opt_list<T: Record>(j: Json, key: Seq<char>, v: Option<Vec<T>>) -> bool {
    match j.field(key) {
        Some(x) => v is Some && array_describes(x, v->0),
        None => v is None,
    }
}

/// Reads a required member that is a record.
pub fn take_record<T: Record>(j: &Json, key: &str) -> (r: Option<T>)
    ensures
        match r {
            Some(v) => req_record(*j, key@, v),
            None => forall|v: T| !req_record(*j, key@, v),
        },
{
    match j.get(key) {
        Some(x) => T::from_json(x),
        None => None,
    }
}

/// Reads an optional member that is a record.
pub fn take_opt_record<T: Record>(j: &Json, key: &str) -> (r: Option<Option<T>>)
    ensures
        match r {
            Some(v) => opt_record(*j, key@, v),
            None => forall|v: Option<T>| !opt_record(*j, key@, v),
        },
{
    match j.get(key) {
        Some(x) => match T::from_json(x) {
            Some(v) => Some(Some(v)),
            None => None,
        },
        None => Some(None),
    }
}

/// Reads an array of records, keeping the order of its items.
pub fn read_array<T: Record>(x: &Json) -> (r: Option<Vec<T>>)
    ensures
        match r {
            Some(v) => array_describes(*x, v),
            None => forall|v: Vec<T>| !array_describes(*x, v),
        },
{
    match x {
        Json::Array(items) => {
            let mut out: Vec<T> = Vec::new();
            let mut i: usize = 0;
            while i < items.len()
                invariant
                    i <= items@.len(),
                    out@.len() == i,
                    *x == Json::Array(*items),
                    forall|k: int| 0 <= k < i ==> T::describes(#[trigger] items@[k], out@[k]),
                decreases items@.len() - i,
            {
                match T::from_json(&items[i]) {
                    Some(v) => out.push(v),
                    None => {
                        assert forall|v: Vec<T>| !array_describes(*x, v) by {
                            if list_describes(items@, v@) {
                                assert(T::describes(items@[i as int], v@[i as int]));
                            }
                        }
                        return None;
                    },
                }
                i += 1;
            }
            Some(out)
        },
        _ => None,
    }
}

/// Reads a required member that is an array of records.
pub fn take_list<T: Record>(j: &Json, key: &str) -> (r: Option<Vec<T>>)
    ensures
        match r {
            Some(v) => req_list(*j, key@, v),
            None => forall|v: Vec<T>| !req_list(*j, key@, v),
        },
{
    match j.get(key) {
        Some(x) => read_array(x),
        None => None,
    }
}

/// Reads an optional member that is an array of records.
pub fn take_opt_list<T: Record>(j: &Json, key: &str) -> (r: Option<Option<Vec<T>>>)
    ensures
        match r {
            Some(v) => opt_list(*j, key@, v),
            None => forall|v: Option<Vec<T>>| !opt_list(*j, key@, v),
        },
{
    match j.get(key) {
        Some(x) => match read_array(x) {
            Some(v) => Some(Some(v)),
            None => None,
        },
        None => Some(None),
    }
}

impl Record for Metadata {
    open spec fn describes(j: Json, v: Metadata) -> bool {
        &&& req_u32(j, "total"@) == Some(v.total)
        &&& req_u32(j, "page"@) == Some(v.page)
        &&& req_u32(j, "itemsPerPage"@) == Some(v.items_per_page)
    }

    fn from_json(j: &Json) -> (r: Option<Metadata>) {
        let total = take_u32(j, "total")?;
        let page = take_u32(j, "page")?;
        let items_per_page = take_u32(j, "itemsPerPage")?;
        Some(Metadata { total, page, items_per_page })
    }

    open spec fn required() -> Seq<Seq<char>> {
        seq!["total"@, "page"@, "itemsPerPage"@]
    }

    fn required_keys() -> (keys: Vec<&'static str>) {
        let keys: Vec<&'static str> = vec!["total", "page", "itemsPerPage"];
        assert(keys_of(keys@) =~= Self::required());
        keys
    }

    proof fn required_are_needed(j: Json, v: Self, i: int) {
    }

    open spec fn unknown(j: Json) -> Option<UnknownEnumValue> {
        None
    }

    fn find_unknown(j: &Json) -> (r: Option<UnknownEnumValue>) {
        None
    }

    proof fn unknown_is_no_record(j: Json, v: Self) {
    }
}

impl Record for Badge {
    open spec fn describes(j: Json, v: Badge) -> bool {
        &&& req_text(j, "description"@) == Some(v.description@)
        &&& req_text(j, "image"@) == Some(v.image@)
    }

    fn from_json(j: &Json) -> (r: Option<Badge>) {
        let description = take_text(j, "description")?;
        let image = take_text(j, "image")?;
        Some(Badge { description, image })
    }

    open spec fn required() -> Seq<Seq<char>> {
        seq!["description"@, "image"@]
    }

    fn required_keys() -> (keys: Vec<&'static str>) {
        let keys: Vec<&'static str> = vec!["description", "image"];
        assert(keys_of(keys@) =~= Self::required());
        keys
    }

    proof fn required_are_needed(j: Json, v: Self, i: int) {
    }

    open spec fn unknown(j: Json) -> Option<UnknownEnumValue> {
        None
    }

    fn find_unknown(j: &Json) -> (r: Option<UnknownEnumValue>) {
        None
    }

    proof fn unknown_is_no_record(j: Json, v: Self) {
    }
}

impl<T: Record> Record for Vec<T> {
    open spec fn describes(j: Json, v: Vec<T>) -> bool {
        array_describes(j, v)
    }

    fn from_json(j: &Json) -> (r: Option<Vec<T>>) {
        read_array(j)
    }

    open spec fn required() -> Seq<Seq<char>> {
        Seq::empty()
    }

    fn required_keys() -> (keys: Vec<&'static str>) {
        let keys: Vec<&'static str> = Vec::new();
        assert(keys_of(keys@) =~= Self::required());
        keys
    }

    proof fn required_are_needed(j: Json, v: Self, i: int) {
    }

    open spec fn unknown(j: Json) -> Option<UnknownEnumValue> {
        unknown_in_array::<T>(j)
    }

    fn find_unknown(j: &Json) -> (r: Option<UnknownEnumValue>) {
        find_unknown_in_array::<T>(j)
    }

    proof fn unknown_is_no_record(j: Json, v: Self) {
        if Self::unknown(j) is Some {
            unknown_item_means_no_list::<T>(j.as_items()->0, v@);
        }
    }
}

impl Record for u32 {
    open spec fn describes(j: Json, v: u32) -> bool {
        j.as_u32() == Some(v)
    }

    fn from_json(j: &Json) -> (r: Option<u32>) {
        value_u32(j)
    }

    open spec fn required() -> Seq<Seq<char>> {
        Seq::empty()
    }

    fn required_keys() -> (keys: Vec<&'static str>) {
        let keys: Vec<&'static str> = Vec::new();
        assert(keys_of(keys@) =~= Self::required());
        keys
    }

    proof fn required_are_needed(j: Json, v: Self, i: int) {
    }

    open spec fn unknown(j: Json) -> Option<UnknownEnumValue> {
        None
    }

    fn find_unknown(j: &Json) -> (r: Option<UnknownEnumValue>) {
        None
    }

    proof fn unknown_is_no_record(j: Json, v: Self) {
    }
}

impl Record for u64 {
    open spec fn describes(j: Json, v: u64) -> bool {
        j.as_u64() == Some(v)
    }

    fn from_json(j: &Json) -> (r: Option<u64>) {
        value_u64(j)
    }

    open spec fn required() -> Seq<Seq<char>> {
        Seq::empty()
    }

    fn required_keys() -> (keys: Vec<&'static str>) {
        let keys: Vec<&'static str> = Vec::new();
        assert(keys_of(keys@) =~= Self::required());
        keys
    }

    proof fn required_are_needed(j: Json, v: Self, i: int) {
    }

    open spec fn unknown(j: Json) -> Option<UnknownEnumValue> {
        None
    }

    fn find_unknown(j: &Json) -> (r: Option<UnknownEnumValue>) {
        None
    }

    proof fn unknown_is_no_record(j: Json, v: Self) {
    }
}

impl Record for HeadsetRepr {
    open spec fn describes(j: Json, v: HeadsetRepr) -> bool {
        as_headset(j) == Some(v)
    }

    fn from_json(j: &Json) -> (r: Option<HeadsetRepr>) {
        match value_u32(j) {
            Some(n) => match HeadsetRepr::from_wire(n) {
                Ok(h) => Some(h),
                Err(_) => None,
            },
            None => None,
        }
    }

    open spec fn required() -> Seq<Seq<char>> {
        Seq::empty()
    }

    fn required_keys() -> (keys: Vec<&'static str>) {
        let keys: Vec<&'static str> = Vec::new();
        assert(keys_of(keys@) =~= Self::required());
        keys
    }

    proof fn required_are_needed(j: Json, v: Self, i: int) {
    }

    open spec fn unknown(j: Json) -> Option<UnknownEnumValue> {
        headset_fault(j)
    }

    fn find_unknown(j: &Json) -> (r: Option<UnknownEnumValue>) {
        match value_u32(j) {
            Some(n) => match HeadsetRepr::from_wire(n) {
                Ok(_) => None,
                Err(e) => Some(e),
            },
            None => None,
        }
    }

    proof fn unknown_is_no_record(j: Json, v: Self) {
    }
}

impl Record for DifficultyEnum {
    open spec fn describes(j: Json, v: DifficultyEnum) -> bool {
        as_difficulty(j) == Some(v)
    }

    fn from_json(j: &Json) -> (r: Option<DifficultyEnum>) {
        match value_u32(j) {
            Some(n) => match DifficultyEnum::from_wire(n) {
                Ok(d) => Some(d),
                Err(_) => None,
            },
            None => None,
        }
    }

    open spec fn required() -> Seq<Seq<char>> {
        Seq::empty()
    }

    fn required_keys() -> (keys: Vec<&'static str>) {
        let keys: Vec<&'static str> = Vec::new();
        assert(keys_of(keys@) =~= Self::required());
        keys
    }

    proof fn required_are_needed(j: Json, v: Self, i: int) {
    }

    open spec fn unknown(j: Json) -> Option<UnknownEnumValue> {
        difficulty_fault(j)
    }

    fn find_unknown(j: &Json) -> (r: Option<UnknownEnumValue>) {
        match value_u32(j) {
            Some(n) => match DifficultyEnum::from_wire(n) {
                Ok(_) => None,
                Err(e) => Some(e),
            },
            None => None,
        }
    }

    proof fn unknown_is_no_record(j: Json, v: Self) {
    }
}

} // verus!
