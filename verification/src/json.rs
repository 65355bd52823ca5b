//! JSON values and their texts.
//!
//! The values themselves are `serde_json::Value`s. This module gives them a
//! mathematical model, [`JsonTree`], and states over that model what the
//! handful of `serde_json` operations used by the vocabulary do.

use vstd::prelude::*;

verus! {

/// Declares `serde_json::Value` as an opaque type.
#[verifier::external_type_specification]
#[verifier::external_body]
pub struct ExValue(serde_json::Value);

/// Declares `serde_json::Number` as an opaque type.
#[verifier::external_type_specification]
#[verifier::external_body]
pub struct ExNumber(serde_json::Number);

/// Declares `serde_json::Error` as an opaque type.
#[verifier::external_type_specification]
#[verifier::external_body]
pub struct ExJsonError(serde_json::Error);

/// The mathematical model of a JSON value.
///
/// The members of a record keep the order in which they were inserted.
pub enum JsonTree {
    Null,
    Bool(bool),
    /// A number that fits an unsigned 64-bit integer.
    Natural(u64),
    /// Any other number (negative or fractional).
    OtherNumber(serde_json::Number),
    Text(Seq<char>),
    List(Seq<JsonTree>),
    Record(Seq<(Seq<char>, JsonTree)>),
}

/// The tree that a `serde_json::Value` holds.
pub uninterp spec fn json_tree(v: serde_json::Value) -> JsonTree;

/// What `serde_json::to_string` gives for a value with this tree: the
/// compact text, or nothing where it fails.
pub uninterp spec fn compact_text(tree: JsonTree) -> Option<Seq<char>>;

/// What `serde_json::to_string_pretty` gives for a value with this tree: the
/// indented text, or nothing where it fails.
pub uninterp spec fn pretty_text(tree: JsonTree) -> Option<Seq<char>>;

/// The text that an attempt to write gave: nothing where it failed.
pub open spec fn written_text<E>(outcome: Result<String, E>) -> Option<Seq<char>> {
    match outcome {
        Ok(text) => Some(text@),
        Err(_) => None,
    }
}

/// The tree that `serde_json::from_str` reads from a text, if it accepts it.
pub uninterp spec fn parsed_tree(text: Seq<char>) -> Option<JsonTree>;

/// The index of the last member with the given key.
#[verifier::opaque]
pub open spec fn position(entries: Seq<(Seq<char>, JsonTree)>, key: Seq<char>) -> Option<int>
    decreases entries.len(),
{
    if entries.len() == 0 {
        None
    } else if entries.last().0 == key {
        Some(entries.len() - 1)
    } else {
        position(entries.drop_last(), key)
    }
}

/// The value of the member with the given key.
#[verifier::opaque]
pub open spec fn lookup(entries: Seq<(Seq<char>, JsonTree)>, key: Seq<char>) -> Option<JsonTree> {
    match position(entries, key) {
        Some(i) => Some(entries[i].1),
        None => None,
    }
}

/// The member of a tree under a key: `None` unless the tree is a record that
/// has the key.
pub open spec fn member(tree: JsonTree, key: Seq<char>) -> Option<JsonTree> {
    match tree {
        JsonTree::Record(entries) => lookup(entries, key),
        _ => None,
    }
}

/// Inserting a member into a record: an existing key keeps its place and
/// takes the new value, a new key goes to the end.
pub open spec fn put(
    entries: Seq<(Seq<char>, JsonTree)>,
    key: Seq<char>,
    value: JsonTree,
) -> Seq<(Seq<char>, JsonTree)> {
    match position(entries, key) {
        Some(i) => entries.update(i, (key, value)),
        None => entries.push((key, value)),
    }
}

/// The members of the record that results from inserting `entries` one by
/// one, in order, into an empty record.
#[verifier::opaque]
pub open spec fn record_of(entries: Seq<(Seq<char>, JsonTree)>) -> Seq<(Seq<char>, JsonTree)>
    decreases entries.len(),
{
    if entries.len() == 0 {
        Seq::empty()
    } else {
        put(record_of(entries.drop_last()), entries.last().0, entries.last().1)
    }
}

/// No key occurs twice.
#[verifier::opaque]
pub open spec fn distinct_keys(entries: Seq<(Seq<char>, JsonTree)>) -> bool
    decreases entries.len(),
{
    entries.len() == 0 || (distinct_keys(entries.drop_last()) && position(
        entries.drop_last(),
        entries.last().0,
    ) is None)
}

/// The models of a list of keyed values.
pub open spec fn entries_model(
    entries: Seq<(String, serde_json::Value)>,
) -> Seq<(Seq<char>, JsonTree)> {
    Seq::new(entries.len(), |i: int| (entries[i].0@, json_tree(entries[i].1)))
}

/// The trees of a list of values.
pub open spec fn trees_of(items: Seq<serde_json::Value>) -> Seq<JsonTree> {
    Seq::new(items.len(), |i: int| json_tree(items[i]))
}

/// An optional member: no member when the value is absent.
#[verifier::opaque]
pub open spec fn optional(key: Seq<char>, value: Option<JsonTree>) -> Seq<(Seq<char>, JsonTree)> {
    match value {
        Some(v) => seq![(key, v)],
        None => Seq::empty(),
    }
}

/// A text as a tree, where there is one.
pub open spec fn text_tree(text: Option<Seq<char>>) -> Option<JsonTree> {
    match text {
        Some(t) => Some(JsonTree::Text(t)),
        None => None,
    }
}

/// A position that `position` finds is in range and holds the key.
pub proof fn lemma_position(entries: Seq<(Seq<char>, JsonTree)>, key: Seq<char>)
    ensures
        position(entries, key) matches Some(i) ==> 0 <= i < entries.len() && entries[i].0 == key,
    decreases entries.len(),
{
    reveal(position);
    if entries.len() > 0 {
        lemma_position(entries.drop_last(), key);
    }
}

/// A member of a record is a smaller tree than the record.
pub proof fn lemma_member_decreases(tree: JsonTree, key: Seq<char>)
    ensures
        member(tree, key) is Some ==> decreases_to!(tree => member(tree, key).unwrap()),
{
    reveal(lookup);
    if let JsonTree::Record(entries) = tree {
        lemma_position(entries, key);
    }
}

/// Looking a key up in a concatenation: the later part decides first.
pub broadcast proof fn lemma_position_concat(
    a: Seq<(Seq<char>, JsonTree)>,
    b: Seq<(Seq<char>, JsonTree)>,
    key: Seq<char>,
)
    ensures
        #[trigger] position(a + b, key) == match position(b, key) {
            Some(j) => Some(a.len() + j),
            None => position(a, key),
        },
    decreases b.len(),
{
    reveal(position);
    if b.len() == 0 {
        assert(a + b =~= a);
    } else {
        assert((a + b).drop_last() =~= a + b.drop_last());
        lemma_position_concat(a, b.drop_last(), key);
    }
}

/// Looking a key up in an optional member.
pub broadcast proof fn lemma_position_optional(
    key: Seq<char>,
    value: Option<JsonTree>,
    k: Seq<char>,
)
    ensures
        #[trigger] position(optional(key, value), k) == if value is Some && key == k {
            Some(0int)
        } else {
            None
        },
{
    reveal(position);
    reveal(optional);
    let e = optional(key, value);
    if value is Some {
        assert(e.drop_last() =~= Seq::empty());
        assert(position(e.drop_last(), k) is None);
        assert(e.last() == (key, value.unwrap()));
    }
}

/// Looking a key up in a concatenation, by value.
pub broadcast proof fn lemma_lookup_concat(
    a: Seq<(Seq<char>, JsonTree)>,
    b: Seq<(Seq<char>, JsonTree)>,
    key: Seq<char>,
)
    ensures
        #[trigger] lookup(a + b, key) == match lookup(b, key) {
            Some(v) => Some(v),
            None => lookup(a, key),
        },
{
    reveal(lookup);
    lemma_position_concat(a, b, key);
    lemma_position(a, key);
    lemma_position(b, key);
}

/// Looking a key up in an optional member, by value.
pub broadcast proof fn lemma_lookup_optional(key: Seq<char>, value: Option<JsonTree>, k: Seq<char>)
    ensures
        #[trigger] lookup(optional(key, value), k) == if key == k {
            value
        } else {
            None
        },
{
    reveal(lookup);
    reveal(optional);
    lemma_position_optional(key, value, k);
}

/// One optional member alone has distinct keys.
pub proof fn lemma_distinct_optional(key: Seq<char>, value: Option<JsonTree>)
    ensures
        distinct_keys(optional(key, value)),
{
    reveal(distinct_keys);
    reveal(position);
    reveal(optional);
    let e = optional(key, value);
    if value is Some {
        assert(e.drop_last() =~= Seq::empty());
        assert(distinct_keys(e.drop_last()));
        assert(position(e.drop_last(), key) is None);
    }
}

/// Appending an optional member under a fresh key keeps the keys distinct.
pub proof fn lemma_distinct_concat_optional(
    a: Seq<(Seq<char>, JsonTree)>,
    key: Seq<char>,
    value: Option<JsonTree>,
)
    requires
        distinct_keys(a),
        lookup(a, key) is None,
    ensures
        distinct_keys(a + optional(key, value)),
{
    reveal(distinct_keys);
    reveal(lookup);
    reveal(optional);
    if value is Some {
        assert((a + optional(key, value)).drop_last() =~= a);
    } else {
        assert(a + optional(key, value) =~= a);
    }
}

/// Putting an optional member under a fresh key in front keeps the keys
/// distinct.
pub proof fn lemma_distinct_prepend(
    key: Seq<char>,
    value: Option<JsonTree>,
    b: Seq<(Seq<char>, JsonTree)>,
)
    requires
        distinct_keys(b),
        lookup(b, key) is None,
    ensures
        distinct_keys(optional(key, value) + b),
    decreases b.len(),
{
    reveal(distinct_keys);
    reveal(position);
    reveal(lookup);
    let a = optional(key, value);
    if b.len() == 0 {
        assert(a + b =~= a);
        lemma_distinct_optional(key, value);
    } else {
        assert((a + b).drop_last() =~= a + b.drop_last());
        assert((a + b).last() == b.last());
        lemma_distinct_prepend(key, value, b.drop_last());
        lemma_position_concat(a, b.drop_last(), b.last().0);
        lemma_position_optional(key, value, b.last().0);
    }
}

/// A member put in front of others under a key of its own is found under
/// that key.
pub proof fn lemma_lookup_front(key: Seq<char>, value: JsonTree, b: Seq<(Seq<char>, JsonTree)>)
    requires
        distinct_keys(optional(key, Some(value)) + b),
    ensures
        lookup(optional(key, Some(value)) + b, key) == Some(value),
    decreases b.len(),
{
    reveal(distinct_keys);
    reveal(position);
    reveal(lookup);
    let a = optional(key, Some(value));
    lemma_position_optional(key, Some(value), key);
    if b.len() == 0 {
        assert(a + b =~= a);
        reveal(optional);
    } else {
        assert((a + b).drop_last() =~= a + b.drop_last());
        assert((a + b).last() == b.last());
        lemma_lookup_front(key, value, b.drop_last());
        lemma_position(a + b.drop_last(), key);
        reveal(optional);
    }
}

/// In a list with distinct keys, a key of the front part is no key of the
/// rest.
pub proof fn lemma_distinct_parts(
    base: Seq<(Seq<char>, JsonTree)>,
    own: Seq<(Seq<char>, JsonTree)>,
    key: Seq<char>,
)
    requires
        distinct_keys(base + own),
        lookup(base, key) is Some,
    ensures
        lookup(own, key) is None,
    decreases own.len(),
{
    reveal(distinct_keys);
    reveal(position);
    reveal(lookup);
    if own.len() > 0 {
        assert((base + own).drop_last() =~= base + own.drop_last());
        assert((base + own).last() == own.last());
        lemma_distinct_parts(base, own.drop_last(), key);
        lemma_position_concat(base, own.drop_last(), key);
    }
}

/// Members that are embedded in a longer list with distinct keys stand in
/// it under their own keys, with their own values; the other members of the
/// list are those that follow them.
pub proof fn lemma_embedded_members(
    base: Seq<(Seq<char>, JsonTree)>,
    own: Seq<(Seq<char>, JsonTree)>,
    key: Seq<char>,
)
    requires
        distinct_keys(base + own),
    ensures
        lookup(base + own, key) == if lookup(base, key) is Some {
            lookup(base, key)
        } else {
            lookup(own, key)
        },
{
    lemma_lookup_concat(base, own, key);
    if lookup(base, key) is Some {
        lemma_distinct_parts(base, own, key);
    }
}

/// A tree is sound when it holds no null anywhere and no record in it has a
/// key twice.
pub open spec fn sound(tree: JsonTree) -> bool
    decreases tree,
{
    match tree {
        JsonTree::Null => false,
        JsonTree::List(items) => forall|i: int|
            0 <= i < items.len() ==> sound(#[trigger] items[i]),
        JsonTree::Record(entries) => distinct_keys(entries) && forall|i: int|
            0 <= i < entries.len() ==> sound((#[trigger] entries[i]).1),
        _ => true,
    }
}

/// Every value of a list of members is sound.
pub open spec fn all_sound(entries: Seq<(Seq<char>, JsonTree)>) -> bool {
    forall|i: int| 0 <= i < entries.len() ==> sound((#[trigger] entries[i]).1)
}

/// One optional member with a sound value is a list of sound members.
pub proof fn lemma_all_sound_optional(key: Seq<char>, value: Option<JsonTree>)
    requires
        value matches Some(t) ==> sound(t),
    ensures
        all_sound(optional(key, value)),
{
    reveal(optional);
}

/// Two lists of sound members make one when joined.
pub proof fn lemma_all_sound_concat(
    a: Seq<(Seq<char>, JsonTree)>,
    b: Seq<(Seq<char>, JsonTree)>,
)
    requires
        all_sound(a),
        all_sound(b),
    ensures
        all_sound(a + b),
{
    assert forall|i: int| 0 <= i < (a + b).len() implies sound((#[trigger] (a + b)[i]).1) by {
        if i < a.len() {
            assert((a + b)[i] == a[i]);
        } else {
            assert((a + b)[i] == b[i - a.len()]);
        }
    }
}

/// A list of sound members stays one when an optional member with a sound
/// value is added.
pub proof fn lemma_all_sound_add(
    a: Seq<(Seq<char>, JsonTree)>,
    key: Seq<char>,
    value: Option<JsonTree>,
)
    requires
        all_sound(a),
        value matches Some(t) ==> sound(t),
    ensures
        all_sound(a + optional(key, value)),
{
    lemma_all_sound_optional(key, value);
    lemma_all_sound_concat(a, optional(key, value));
}

/// Inserting members with distinct keys one by one keeps them as they are.
pub proof fn lemma_record_of_distinct(entries: Seq<(Seq<char>, JsonTree)>)
    requires
        distinct_keys(entries),
    ensures
        record_of(entries) == entries,
    decreases entries.len(),
{
    reveal(distinct_keys);
    reveal(record_of);
    if entries.len() > 0 {
        lemma_record_of_distinct(entries.drop_last());
        assert(entries.drop_last().push(entries.last()) =~= entries);
    } else {
        assert(entries =~= Seq::empty());
    }
}

pub broadcast group group_members {
    lemma_lookup_concat,
    lemma_lookup_optional,
}

/// `serde_json::Value::from` on a string slice: a value that holds the text.
#[verifier::external_body]
pub(crate) fn text_value(s: &str) -> (v: serde_json::Value)
    ensures
        json_tree(v) == JsonTree::Text(s@),
{
    serde_json::Value::from(s)
}

/// `serde_json::Value::from` on a `u64`: a value that holds the number.
#[verifier::external_body]
pub(crate) fn number_value(n: u64) -> (v: serde_json::Value)
    ensures
        json_tree(v) == JsonTree::Natural(n),
{
    serde_json::Value::from(n)
}

/// `serde_json::Value::from` on a vector of values: the array of those
/// values, in order.
#[verifier::external_body]
pub(crate) fn list_value(items: Vec<serde_json::Value>) -> (v: serde_json::Value)
    ensures
        json_tree(v) == JsonTree::List(trees_of(items@)),
{
    serde_json::Value::from(items)
}

/// `serde_json::Map::from_iter`, wrapped as an object: the members are
/// inserted one by one into a map that keeps insertion order (the crate is
/// built with `preserve_order`), so a repeated key keeps its first place and
/// takes its last value.
#[verifier::external_body]
pub(crate) fn record_value(entries: Vec<(String, serde_json::Value)>) -> (v: serde_json::Value)
    ensures
        json_tree(v) == JsonTree::Record(record_of(entries_model(entries@))),
{
    serde_json::Value::Object(serde_json::Map::from_iter(entries))
}

/// `serde_json::Value::get` with a string key: the member of an object under
/// that key, and nothing for any other kind of value.
#[verifier::external_body]
pub(crate) fn get_member<'a>(v: &'a serde_json::Value, key: &str) -> (r: Option<
    &'a serde_json::Value,
>)
    ensures
        match r {
            Some(m) => member(json_tree(*v), key@) == Some(json_tree(*m)),
            None => member(json_tree(*v), key@) is None,
        },
{
    v.get(key)
}

/// `serde_json::Value::is_object`: whether the value is an object.
#[verifier::external_body]
pub(crate) fn is_record(v: &serde_json::Value) -> (r: bool)
    ensures
        r == (json_tree(*v) is Record),
{
    v.is_object()
}

/// `serde_json::Value::as_str`: the text of a string value, and nothing for
/// any other kind of value.
#[verifier::external_body]
pub(crate) fn as_text<'a>(v: &'a serde_json::Value) -> (r: Option<&'a str>)
    ensures
        match r {
            Some(s) => json_tree(*v) == JsonTree::Text(s@),
            None => !(json_tree(*v) is Text),
        },
{
    v.as_str()
}

/// `serde_json::Value::as_u64`: the number, where the value is a number that
/// fits a `u64`, and nothing otherwise.
#[verifier::external_body]
pub(crate) fn as_natural(v: &serde_json::Value) -> (r: Option<u64>)
    ensures
        match r {
            Some(n) => json_tree(*v) == JsonTree::Natural(n),
            None => !(json_tree(*v) is Natural),
        },
{
    v.as_u64()
}

/// `serde_json::Value::as_array`: the items of an array, and nothing for any
/// other kind of value.
#[verifier::external_body]
pub(crate) fn as_items<'a>(v: &'a serde_json::Value) -> (r: Option<&'a Vec<serde_json::Value>>)
    ensures
        match r {
            Some(items) => json_tree(*v) == JsonTree::List(trees_of(items@)),
            None => !(json_tree(*v) is List),
        },
{
    v.as_array()
}

/// `serde_json::to_string` on a value: the text it gives depends on the
/// value's tree alone, and it does give one. The call is documented to fail
/// only where a `Serialize` impl decides to fail or a map has keys that are
/// not strings; the impl of `Value` only hands its parts to the serializer,
/// its keys are strings, and the serializer's own errors all come from its
/// writer, which here is a byte vector.
#[verifier::external_body]
pub(crate) fn render_compact(v: &serde_json::Value) -> (r: Result<String, serde_json::Error>)
    ensures
        written_text(r) == compact_text(json_tree(*v)),
        r is Ok,
{
    serde_json::to_string(v)
}

/// `serde_json::to_string_pretty` on a value: the text it gives depends on
/// the value's tree alone, and it does give one, for the reasons given for
/// the compact text.
#[verifier::external_body]
pub(crate) fn render_pretty(v: &serde_json::Value) -> (r: Result<String, serde_json::Error>)
    ensures
        written_text(r) == pretty_text(json_tree(*v)),
        r is Ok,
{
    serde_json::to_string_pretty(v)
}

/// `serde_json::from_str` into a value: the value whose tree the text
/// denotes, or an error where the text is not one JSON value.
#[verifier::external_body]
pub(crate) fn parse_value(text: &str) -> (r: Result<serde_json::Value, serde_json::Error>)
    ensures
        match r {
            Ok(v) => parsed_tree(text@) == Some(json_tree(v)),
            Err(_) => parsed_tree(text@) is None,
        },
{
    serde_json::from_str::<serde_json::Value>(text)
}

/// The model of an optional string.
pub open spec fn text_model(text: Option<String>) -> Option<Seq<char>> {
    match text {
        Some(t) => Some(t@),
        None => None,
    }
}

/// An optional text property read from a tree: absent where the tree has no
/// such member, and a failure (the outer `None`) where the member is not a
/// string.
pub open spec fn text_field(tree: JsonTree, key: Seq<char>) -> Option<Option<Seq<char>>> {
    match member(tree, key) {
        None => Some(None),
        Some(JsonTree::Text(t)) => Some(Some(t)),
        Some(_) => None,
    }
}

/// An optional number property read from a tree that must fit 32 bits:
/// absent where the tree has no such member, and a failure (the outer
/// `None`) where the member is anything but such a number.
pub open spec fn natural_field(tree: JsonTree, key: Seq<char>) -> Option<Option<u32>> {
    match member(tree, key) {
        None => Some(None),
        Some(JsonTree::Natural(n)) => if n <= u32::MAX {
            Some(Some(n as u32))
        } else {
            None
        },
        Some(_) => None,
    }
}

/// Appends a member to a list of keyed values.
pub fn push_member(
    entries: &mut Vec<(String, serde_json::Value)>,
    key: &str,
    value: serde_json::Value,
)
    ensures
        entries_model(final(entries)@) == entries_model(old(entries)@) + optional(
            key@,
            Some(json_tree(value)),
        ),
{
    proof {
        reveal(optional);
    }
    entries.push((key.to_owned(), value));
    assert(entries_model(entries@) =~= entries_model(old(entries)@) + optional(
        key@,
        Some(json_tree(value)),
    ));
}

/// Appends a text member where the text is present.
pub fn push_text(entries: &mut Vec<(String, serde_json::Value)>, key: &str, text: &Option<String>)
    ensures
        entries_model(final(entries)@) == entries_model(old(entries)@) + optional(
            key@,
            text_tree(text_model(*text)),
        ),
{
    proof {
        reveal(optional);
    }
    match text {
        Some(t) => push_member(entries, key, text_value(t.as_str())),
        None => {
            assert(entries_model(entries@) =~= entries_model(old(entries)@) + optional(
                key@,
                text_tree(text_model(*text)),
            ));
        },
    }
}

/// Reads an optional text property of a value.
pub fn read_text(v: &serde_json::Value, key: &str) -> (r: Option<Option<String>>)
    ensures
        match r {
            Some(t) => text_field(json_tree(*v), key@) == Some(text_model(t)),
            None => text_field(json_tree(*v), key@) is None,
        },
{
    match get_member(v, key) {
        None => Some(None),
        Some(m) => match as_text(m) {
            Some(s) => Some(Some(s.to_owned())),
            None => None,
        },
    }
}

/// The models of a list of strings.
pub open spec fn texts_model(texts: Seq<String>) -> Seq<Seq<char>> {
    Seq::new(texts.len(), |i: int| texts[i]@)
}

/// A list of texts as a list of trees.
pub open spec fn text_list(texts: Seq<Seq<char>>) -> Seq<JsonTree> {
    Seq::new(texts.len(), |i: int| JsonTree::Text(texts[i]))
}

/// A list of texts as a tree: an empty list is left out.
pub open spec fn texts_tree(texts: Seq<Seq<char>>) -> Option<JsonTree> {
    if texts.len() == 0 {
        None
    } else {
        Some(JsonTree::List(text_list(texts)))
    }
}

/// Every item is a string.
pub open spec fn all_texts(items: Seq<JsonTree>) -> bool {
    forall|i: int| 0 <= i < items.len() ==> (#[trigger] items[i]) is Text
}

/// The texts of a list of string items.
pub open spec fn texts_of(items: Seq<JsonTree>) -> Seq<Seq<char>> {
    Seq::new(
        items.len(),
        |i: int|
            match items[i] {
                JsonTree::Text(t) => t,
                _ => Seq::empty(),
            },
    )
}

/// A list-of-texts property read from a tree: empty where the tree has no
/// such member, and a failure where the member is not a list of strings.
pub open spec fn texts_field(tree: JsonTree, key: Seq<char>) -> Option<Seq<Seq<char>>> {
    match member(tree, key) {
        None => Some(Seq::empty()),
        Some(JsonTree::List(items)) => if all_texts(items) {
            Some(texts_of(items))
        } else {
            None
        },
        Some(_) => None,
    }
}

/// A 32-bit number as a tree, where there is one.
pub open spec fn natural32_tree(n: Option<u32>) -> Option<JsonTree> {
    match n {
        Some(n) => Some(JsonTree::Natural(n as u64)),
        None => None,
    }
}

/// A list of texts with one more added as to a set: a text that the list
/// holds already leaves it as it is, a new one goes to the end.
pub open spec fn with_text(texts: Seq<Seq<char>>, text: Seq<char>) -> Seq<Seq<char>> {
    if texts.contains(text) {
        texts
    } else {
        texts.push(text)
    }
}

/// A list of texts with its repeats left out: every text stands once, where
/// it first occurs.
pub open spec fn without_repeats(texts: Seq<Seq<char>>) -> Seq<Seq<char>>
    decreases texts.len(),
{
    if texts.len() == 0 {
        Seq::empty()
    } else {
        with_text(without_repeats(texts.drop_last()), texts.last())
    }
}

/// Adding a text to a list without repeats gives a list without repeats
/// that holds the text.
pub proof fn lemma_with_text(texts: Seq<Seq<char>>, text: Seq<char>)
    requires
        texts.no_duplicates(),
    ensures
        with_text(texts, text).no_duplicates(),
        with_text(texts, text).contains(text),
{
    if !texts.contains(text) {
        let r = texts.push(text);
        assert(r[texts.len() as int] == text);
        assert forall|i: int, j: int| 0 <= i < r.len() && 0 <= j < r.len() && i != j implies r[i]
            != r[j] by {
            if i < texts.len() && j < texts.len() {
                assert(texts[i] != texts[j]);
            } else if i < texts.len() {
                assert(texts.contains(texts[i]));
            } else {
                assert(texts.contains(texts[j]));
            }
        }
    }
}

/// Leaving the repeats out gives a list without repeats, and changes
/// nothing in a list that has none.
pub proof fn lemma_without_repeats(texts: Seq<Seq<char>>)
    ensures
        without_repeats(texts).no_duplicates(),
        texts.no_duplicates() ==> without_repeats(texts) == texts,
    decreases texts.len(),
{
    if texts.len() > 0 {
        let front = texts.drop_last();
        lemma_without_repeats(front);
        lemma_with_text(without_repeats(front), texts.last());
        if texts.no_duplicates() {
            assert forall|i: int, j: int|
                0 <= i < front.len() && 0 <= j < front.len() && i != j implies front[i]
                != front[j] by {
                assert(front[i] == texts[i] && front[j] == texts[j]);
            }
            if front.contains(texts.last()) {
                let i = choose|i: int| 0 <= i < front.len() && front[i] == texts.last();
                assert(texts[i] == texts[texts.len() - 1]);
            }
            assert(front.push(texts.last()) =~= texts);
        }
    } else {
        assert(texts =~= Seq::empty());
    }
}

/// Reading a list of texts back from its tree gives the list.
pub proof fn lemma_texts_round_trip(texts: Seq<Seq<char>>)
    ensures
        all_texts(text_list(texts)),
        texts_of(text_list(texts)) == texts,
{
    assert(texts_of(text_list(texts)) =~= texts);
}

/// Appends a number member where the number is present.
pub fn push_natural(entries: &mut Vec<(String, serde_json::Value)>, key: &str, n: Option<u32>)
    ensures
        entries_model(final(entries)@) == entries_model(old(entries)@) + optional(
            key@,
            natural32_tree(n),
        ),
{
    proof {
        reveal(optional);
    }
    match n {
        Some(n) => push_member(entries, key, number_value(n as u64)),
        None => {
            assert(entries_model(entries@) =~= entries_model(old(entries)@) + optional(
                key@,
                natural32_tree(n),
            ));
        },
    }
}

/// Appends a member that may be absent.
pub fn push_optional(
    entries: &mut Vec<(String, serde_json::Value)>,
    key: &str,
    value: Option<serde_json::Value>,
)
    ensures
        entries_model(final(entries)@) == entries_model(old(entries)@) + optional(
            key@,
            match value {
                Some(v) => Some(json_tree(v)),
                None => None,
            },
        ),
{
    proof {
        reveal(optional);
    }
    match value {
        Some(v) => push_member(entries, key, v),
        None => {
            assert(entries_model(entries@) =~= entries_model(old(entries)@) + optional(key@, None));
        },
    }
}

/// Appends a list-of-texts member unless the list is empty.
pub fn push_texts(entries: &mut Vec<(String, serde_json::Value)>, key: &str, texts: &Vec<String>)
    ensures
        entries_model(final(entries)@) == entries_model(old(entries)@) + optional(
            key@,
            texts_tree(texts_model(texts@)),
        ),
{
    proof {
        reveal(optional);
    }
    if texts.len() == 0 {
        assert(entries_model(entries@) =~= entries_model(old(entries)@) + optional(key@, None));
    } else {
        let mut items: Vec<serde_json::Value> = Vec::new();
        let mut i: usize = 0;
        while i < texts.len()
            invariant
                0 <= i <= texts.len(),
                items.len() == i,
                forall|j: int|
                    0 <= j < i ==> json_tree(#[trigger] items[j]) == JsonTree::Text(texts[j]@),
            decreases texts.len() - i,
        {
            items.push(text_value(texts[i].as_str()));
            i = i + 1;
        }
        assert(trees_of(items@) =~= text_list(texts_model(texts@)));
        push_member(entries, key, list_value(items));
    }
}

/// Reads an optional 32-bit number property of a value.
pub fn read_natural(v: &serde_json::Value, key: &str) -> (r: Option<Option<u32>>)
    ensures
        r == natural_field(json_tree(*v), key@),
{
    match get_member(v, key) {
        None => Some(None),
        Some(m) => match as_natural(m) {
            Some(n) => if n <= 0xffff_ffff {
                Some(Some(n as u32))
            } else {
                None
            },
            None => None,
        },
    }
}

/// Reads a list-of-texts property of a value.
pub fn read_texts(v: &serde_json::Value, key: &str) -> (r: Option<Vec<String>>)
    ensures
        match r {
            Some(texts) => texts_field(json_tree(*v), key@) == Some(texts_model(texts@)),
            None => texts_field(json_tree(*v), key@) is None,
        },
{
    let items = match get_member(v, key) {
        None => {
            let none: Vec<String> = Vec::new();
            assert(texts_model(none@) =~= Seq::empty());
            return Some(none);
        },
        Some(m) => match as_items(m) {
            Some(items) => items,
            None => { return None; },
        },
    };
    let ghost trees = trees_of(items@);
    let mut texts: Vec<String> = Vec::new();
    let mut i: usize = 0;
    while i < items.len()
        invariant
            0 <= i <= items.len(),
            texts.len() == i,
            trees == trees_of(items@),
            member(json_tree(*v), key@) == Some(JsonTree::List(trees)),
            forall|j: int| 0 <= j < i ==> #[trigger] trees[j] == JsonTree::Text(texts[j]@),
        decreases items.len() - i,
    {
        match as_text(&items[i]) {
            Some(s) => texts.push(s.to_owned()),
            None => {
                assert(!(trees[i as int] is Text));
                assert(!all_texts(trees));
                return None;
            },
        }
        i = i + 1;
    }
    assert(all_texts(trees));
    assert(texts_model(texts@) =~= texts_of(trees));
    Some(texts)
}

/// Whether a list of strings holds a text.
pub fn holds_text(texts: &Vec<String>, text: &String) -> (r: bool)
    ensures
        r == texts_model(texts@).contains(text@),
{
    let mut i: usize = 0;
    while i < texts.len()
        invariant
            0 <= i <= texts.len(),
            forall|j: int| 0 <= j < i ==> (#[trigger] texts_model(texts@)[j]) != text@,
        decreases texts.len() - i,
    {
        if texts[i] == *text {
            assert(texts_model(texts@)[i as int] == text@);
            return true;
        }
        i = i + 1;
    }
    false
}

/// Adds a string to a list as to a set: one that the list holds already is
/// dropped, a new one goes to the end.
pub fn add_text(texts: &mut Vec<String>, text: String)
    ensures
        texts_model(final(texts)@) == with_text(texts_model(old(texts)@), text@),
{
    if !holds_text(texts, &text) {
        texts.push(text);
        assert(texts_model(texts@) =~= texts_model(old(texts)@).push(text@));
    }
}

/// A list of strings with its repeats left out.
pub fn drop_repeats(texts: &Vec<String>) -> (r: Vec<String>)
    ensures
        texts_model(r@) == without_repeats(texts_model(texts@)),
{
    let ghost all = texts_model(texts@);
    let mut kept: Vec<String> = Vec::new();
    let mut i: usize = 0;
    assert(texts_model(kept@) =~= without_repeats(all.take(0)));
    while i < texts.len()
        invariant
            0 <= i <= texts.len(),
            all == texts_model(texts@),
            texts_model(kept@) == without_repeats(all.take(i as int)),
        decreases texts.len() - i,
    {
        proof {
            assert(all.take(i + 1).drop_last() =~= all.take(i as int));
            assert(all.take(i + 1).last() == texts[i as int]@);
        }
        add_text(&mut kept, texts[i].clone());
        i = i + 1;
    }
    assert(all.take(texts.len() as int) =~= all);
    kept
}

} // verus!
