//! Ordered query pairs: how the fields of a parameter bag become the
//! key/value pairs of a query string.

use vstd::prelude::*;
use vstd::string::StringExecFns;
use vstd::utf8::encode_utf8;
use crate::text::{bool_text, decimal, hex_char, render_bool, render_u32};

verus! {

/// One key/value pair of a query, as text.
pub type Pair = (Seq<char>, Seq<char>);

/// One declared field of a parameter bag: absent, or its key and value.
pub type Slot = Option<Pair>;

/// The pairs that a vector of keys and values holds, in order.
pub open spec fn pairs_of(v: Seq<(&'static str, String)>) -> Seq<Pair> {
    Seq::new(v.len(), |i: int| (v[i].0@, v[i].1@))
}

/// The slot of a text field.
pub open spec fn text_slot(key: Seq<char>, value: Option<String>) -> Slot {
    match value {
        Some(s) => Some((key, s@)),
        None => None,
    }
}

/// The slot of a boolean field: `true` or `false` when present.
pub open spec fn bool_slot(key: Seq<char>, value: Option<bool>) -> Slot {
    match value {
        Some(b) => Some((key, bool_text(b))),
        None => None,
    }
}

/// The slot of an integer field: its decimal form when present.
pub open spec fn number_slot(key: Seq<char>, value: Option<u32>) -> Slot {
    match value {
        Some(n) => Some((key, decimal(n as nat))),
        None => None,
    }
}

/// The slot of a field that is always present.
pub open spec fn required_slot(key: Seq<char>, value: Seq<char>) -> Slot {
    Some((key, value))
}

/// The pairs of a bag: the present slots, in the order of the slots.
pub open spec fn compact(slots: Seq<Slot>) -> Seq<Pair>
    decreases slots.len(),
{
    if slots.len() == 0 {
        Seq::empty()
    } else {
        match slots.last() {
            Some(p) => compact(slots.drop_last()).push(p),
            None => compact(slots.drop_last()),
        }
    }
}

/// For each pair of `compact(slots)`, the index of the slot it came from.
pub open spec fn origins(slots: Seq<Slot>) -> Seq<int>
    decreases slots.len(),
{
    if slots.len() == 0 {
        Seq::empty()
    } else {
        match slots.last() {
            Some(_) => origins(slots.drop_last()).push(slots.len() - 1),
            None => origins(slots.drop_last()),
        }
    }
}

/// Adding a slot at the end adds its pair at the end, or nothing.
pub proof fn compact_push(slots: Seq<Slot>, slot: Slot)
    ensures
        compact(slots.push(slot)) == match slot {
            Some(p) => compact(slots).push(p),
            None => compact(slots),
        },
{
    assert(slots.push(slot).drop_last() =~= slots);
}

/// The pairs of a bag are its present fields and no others, in the order in
/// which the bag declares them: each pair is the content of the slot it
/// came from, those slots are present and ascend, and every present slot is
/// the origin of a pair.
pub proof fn compact_keeps_present_in_order(slots: Seq<Slot>)
    ensures
        origins(slots).len() == compact(slots).len(),
        forall|i: int|
            0 <= i < compact(slots).len() ==> 0 <= #[trigger] origins(slots)[i] < slots.len()
                && slots[origins(slots)[i]] == Some(compact(slots)[i]),
        forall|i: int, j: int|
            0 <= i < j < compact(slots).len() ==> #[trigger] origins(slots)[i]
                < #[trigger] origins(slots)[j],
        forall|k: int|
            0 <= k < slots.len() && (#[trigger] slots[k]) is Some ==> origins(slots).contains(k),
        forall|k: int|
            0 <= k < slots.len() && (#[trigger] slots[k]) is None ==> !origins(slots).contains(k),
    decreases slots.len(),
{
    if slots.len() > 0 {
        let front = slots.drop_last();
        compact_keeps_present_in_order(front);
        let last = slots.len() - 1;
        assert forall|k: int| 0 <= k < slots.len() && (#[trigger] slots[k]) is Some implies origins(
            slots,
        ).contains(k) by {
            if k < last {
                assert(front[k] is Some);
                let w = choose|w: int| 0 <= w < origins(front).len() && origins(front)[w] == k;
                assert(origins(slots)[w] == k);
            } else {
                assert(origins(slots)[origins(front).len() as int] == k);
            }
        }
        assert forall|k: int| 0 <= k < slots.len() && (#[trigger] slots[k]) is None implies !origins(
            slots,
        ).contains(k) by {
            if origins(slots).contains(k) {
                let w = choose|w: int| 0 <= w < origins(slots).len() && origins(slots)[w] == k;
                if w < origins(front).len() {
                    assert(origins(front)[w] == k);
                    assert(front[k] == slots[k]);
                    assert(origins(front).contains(k));
                }
            }
        }
    }
}

/// Appends the pair of a text field, if the field is present.
pub fn push_text(out: &mut Vec<(&'static str, String)>, key: &'static str, value: Option<String>)
    ensures
        pairs_of(final(out)@) == match text_slot(key@, value) {
            Some(p) => pairs_of(old(out)@).push(p),
            None => pairs_of(old(out)@),
        },
{
    if let Some(s) = value {
        out.push((key, s));
        assert(pairs_of(out@) =~= pairs_of(old(out)@).push((key@, s@)));
    }
}

/// Appends the pair of a boolean field, if the field is present.
pub fn push_bool(out: &mut Vec<(&'static str, String)>, key: &'static str, value: Option<bool>)
    ensures
        pairs_of(final(out)@) == match bool_slot(key@, value) {
            Some(p) => pairs_of(old(out)@).push(p),
            None => pairs_of(old(out)@),
        },
{
    if let Some(b) = value {
        let s = render_bool(b);
        out.push((key, s));
        assert(pairs_of(out@) =~= pairs_of(old(out)@).push((key@, bool_text(b))));
    }
}

/// Appends the pair of an integer field, if the field is present.
pub fn push_number(out: &mut Vec<(&'static str, String)>, key: &'static str, value: Option<u32>)
    ensures
        pairs_of(final(out)@) == match number_slot(key@, value) {
            Some(p) => pairs_of(old(out)@).push(p),
            None => pairs_of(old(out)@),
        },
{
    if let Some(n) = value {
        let s = render_u32(n);
        out.push((key, s));
        assert(pairs_of(out@) =~= pairs_of(old(out)@).push((key@, decimal(n as nat))));
    }
}

/// Appends the pair of a field that is always present.
pub fn push_required(out: &mut Vec<(&'static str, String)>, key: &'static str, value: String)
    ensures
        pairs_of(final(out)@) == pairs_of(old(out)@).push((key@, value@)),
{
    out.push((key, value));
    assert(pairs_of(out@) =~= pairs_of(old(out)@).push((key@, value@)));
}

/// Bytes that the form encoding of a query leaves as they are: ASCII letters
/// and digits, and `*`, `-`, `.`, `_`.
pub open spec fn form_unchanged(b: u8) -> bool {
    ||| 0x30 <= b <= 0x39
    ||| 0x41 <= b <= 0x5a
    ||| 0x61 <= b <= 0x7a
    ||| b == 0x2a
    ||| b == 0x2d
    ||| b == 0x2e
    ||| b == 0x5f
}

/// What one byte becomes in a query string: itself, `+` for a space, or `%`
/// and two upper-case hexadecimal digits.
pub open spec fn form_byte(b: u8) -> Seq<char> {
    if form_unchanged(b) {
        seq![b as char]
    } else if b == 0x20 {
        seq!['+']
    } else {
        seq!['%', hex_char(b / 16), hex_char(b % 16)]
    }
}

/// The form encoding of a sequence of bytes, byte by byte.
pub open spec fn form_bytes(bytes: Seq<u8>) -> Seq<char>
    decreases bytes.len(),
{
    if bytes.len() == 0 {
        Seq::empty()
    } else {
        form_bytes(bytes.drop_last()) + form_byte(bytes.last())
    }
}

/// The form encoding of a key or a value: that of its UTF-8 bytes.
pub open spec fn form_component(text: Seq<char>) -> Seq<char> {
    form_bytes(encode_utf8(text))
}

/// The query string of a sequence of pairs: `key=value` for each pair, in
/// order, with `&` between two of them.
pub open spec fn form_text(pairs: Seq<Pair>) -> Seq<char>
    decreases pairs.len(),
{
    if pairs.len() == 0 {
        Seq::empty()
    } else {
        let front = form_text(pairs.drop_last());
        let joint = if front.len() > 0 {
            seq!['&']
        } else {
            Seq::empty()
        };
        front + joint + form_component(pairs.last().0) + seq!['='] + form_component(pairs.last().1)
    }
}

/// `form_urlencoded::Serializer` of the url project, from `new` on an empty
/// string through `extend_pairs` to `finish`: the pairs are written in
/// order as `key=value`, joined by `&`; in keys and values every byte
/// outside letters, digits and `*-._` is written as `+` (a space) or as a
/// percent escape with upper-case digits.
#[verifier::external_body]
pub(crate) fn encode_pairs(pairs: &Vec<(&'static str, String)>) -> (s: String)
    ensures
        s@ == form_text(pairs_of(pairs@)),
{
    url::form_urlencoded::Serializer::new(String::new()).extend_pairs(pairs.iter()).finish()
}

/// A URL and a query string as one target: the URL alone where the query
/// string is empty, else the two with `?` between them.
pub open spec fn target_text(url: Seq<char>, query: Seq<char>) -> Seq<char> {
    if query.len() == 0 {
        url
    } else {
        url + seq!['?'] + query
    }
}

/// Joins a URL and an encoded query string.
pub fn with_query(url: &str, query: &str) -> (s: String)
    ensures
        s@ == target_text(url@, query@),
{
    let mut s = String::from_str(url);
    if !query.is_empty() {
        proof {
            reveal_strlit("?");
            assert("?"@ =~= seq!['?']);
        }
        s.append("?");
        s.append(query);
    }
    s
}

} // verus!
