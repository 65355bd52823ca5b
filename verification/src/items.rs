//! Lists of terms, as the items of a collection.

use crate::json::{
    as_items, as_natural, get_member, json_tree, list_value, member, number_value, trees_of,
    JsonTree,
};
use crate::term::{lemma_term_round_trip, term_tree, ActivityStreamsSerialize};
use vstd::prelude::*;

verus! {

/// The models of a list of terms.
pub open spec fn models<T: ActivityStreamsSerialize>(items: Seq<T>) -> Seq<T::Model> {
    Seq::new(items.len(), |i: int| items[i].model())
}

/// The JSON forms of a list of terms, in order.
pub open spec fn item_trees<T: ActivityStreamsSerialize>(items: Seq<T::Model>) -> Seq<JsonTree> {
    Seq::new(items.len(), |i: int| term_tree::<T>(items[i]))
}

/// Every tree of a list denotes a term.
pub open spec fn all_parse<T: ActivityStreamsSerialize>(trees: Seq<JsonTree>) -> bool {
    forall|i: int| 0 <= i < trees.len() ==> T::parsed(#[trigger] trees[i]) is Some
}

/// The terms that the trees of a list denote.
pub open spec fn items_parsed<T: ActivityStreamsSerialize>(trees: Seq<JsonTree>) -> Seq<T::Model> {
    Seq::new(trees.len(), |i: int| T::parsed(trees[i]).unwrap())
}

/// A list-of-terms property read from a tree: empty where the tree has no
/// such member, and a failure where the member is not a list or one of its
/// items does not denote a term.
pub open spec fn items_field<T: ActivityStreamsSerialize>(tree: JsonTree, key: Seq<char>) -> Option<
    Seq<T::Model>,
> {
    match member(tree, key) {
        None => Some(Seq::empty()),
        Some(JsonTree::List(trees)) => if all_parse::<T>(trees) {
            Some(items_parsed::<T>(trees))
        } else {
            None
        },
        Some(_) => None,
    }
}

/// Every term of a list is valid.
pub open spec fn all_valid<T: ActivityStreamsSerialize>(items: Seq<T::Model>) -> bool {
    forall|i: int| 0 <= i < items.len() ==> T::valid(#[trigger] items[i])
}

/// A count as a tree, where there is one.
pub open spec fn count_tree(n: Option<usize>) -> Option<JsonTree> {
    match n {
        Some(n) => Some(JsonTree::Natural(n as u64)),
        None => None,
    }
}

/// An optional count read from a tree: absent where the tree has no such
/// member, and a failure where the member is anything but a number that a
/// count can hold.
pub open spec fn count_field(tree: JsonTree, key: Seq<char>) -> Option<Option<usize>> {
    match member(tree, key) {
        None => Some(None),
        Some(JsonTree::Natural(n)) => if n <= usize::MAX {
            Some(Some(n as usize))
        } else {
            None
        },
        Some(_) => None,
    }
}

/// The terms that a list-of-terms property is read as are valid.
pub proof fn lemma_items_parsed_valid<T: ActivityStreamsSerialize>(tree: JsonTree, key: Seq<char>)
    ensures
        items_field::<T>(tree, key) matches Some(items) ==> all_valid::<T>(items),
{
    if let Some(items) = items_field::<T>(tree, key) {
        if let Some(JsonTree::List(trees)) = member(tree, key) {
            assert forall|i: int| 0 <= i < items.len() implies T::valid(#[trigger] items[i]) by {
                T::lemma_parsed_valid(trees[i]);
            }
        }
    }
}

/// Reading the JSON forms of valid terms gives the terms back, in order.
pub proof fn lemma_items_round_trip<T: ActivityStreamsSerialize>(items: Seq<T::Model>)
    requires
        all_valid::<T>(items),
    ensures
        all_parse::<T>(item_trees::<T>(items)),
        items_parsed::<T>(item_trees::<T>(items)) == items,
{
    let trees = item_trees::<T>(items);
    assert forall|i: int| 0 <= i < trees.len() implies T::parsed(#[trigger] trees[i]) == Some(
        items[i],
    ) by {
        lemma_term_round_trip::<T>(items[i]);
    }
    assert(items_parsed::<T>(trees) =~= items);
}

/// The JSON value of a list of terms.
pub fn items_value<T: ActivityStreamsSerialize>(items: &Vec<T>) -> (v: serde_json::Value)
    ensures
        json_tree(v) == JsonTree::List(item_trees::<T>(models(items@))),
{
    let mut values: Vec<serde_json::Value> = Vec::new();
    let mut i: usize = 0;
    while i < items.len()
        invariant
            0 <= i <= items.len(),
            values.len() == i,
            forall|j: int|
                0 <= j < i ==> json_tree(#[trigger] values[j]) == term_tree::<T>(items[j].model()),
        decreases items.len() - i,
    {
        values.push(items[i].to_value());
        i = i + 1;
    }
    assert(trees_of(values@) =~= item_trees::<T>(models(items@)));
    list_value(values)
}

/// Reads a list-of-terms property of a value.
pub fn read_items<T: ActivityStreamsSerialize>(v: &serde_json::Value, key: &str) -> (r: Option<
    Vec<T>,
>)
    ensures
        match r {
            Some(items) => items_field::<T>(json_tree(*v), key@) == Some(models(items@)),
            None => items_field::<T>(json_tree(*v), key@) is None,
        },
{
    let values = match get_member(v, key) {
        None => {
            let none: Vec<T> = Vec::new();
            assert(models(none@) =~= Seq::<T::Model>::empty());
            return Some(none);
        },
        Some(m) => match as_items(m) {
            Some(values) => values,
            None => { return None; },
        },
    };
    let ghost trees = trees_of(values@);
    let mut items: Vec<T> = Vec::new();
    let mut i: usize = 0;
    while i < values.len()
        invariant
            0 <= i <= values.len(),
            items.len() == i,
            trees == trees_of(values@),
            member(json_tree(*v), key@) == Some(JsonTree::List(trees)),
            forall|j: int| 0 <= j < i ==> T::parsed(#[trigger] trees[j]) == Some(items[j].model()),
        decreases values.len() - i,
    {
        match T::from_value(&values[i]) {
            Some(item) => items.push(item),
            None => {
                assert(T::parsed(trees[i as int]) is None);
                assert(!all_parse::<T>(trees));
                return None;
            },
        }
        i = i + 1;
    }
    assert(all_parse::<T>(trees));
    assert(models(items@) =~= items_parsed::<T>(trees));
    Some(items)
}

/// The JSON value of a count.
pub fn count_value(n: usize) -> (v: serde_json::Value)
    ensures
        Some(json_tree(v)) == count_tree(Some(n)),
{
    number_value(n as u64)
}

/// Reads an optional count property of a value.
pub fn read_count(v: &serde_json::Value, key: &str) -> (r: Option<Option<usize>>)
    ensures
        r == count_field(json_tree(*v), key@),
{
    match get_member(v, key) {
        None => Some(None),
        Some(m) => match as_natural(m) {
            Some(n) => if n <= usize::MAX as u64 {
                Some(Some(n as usize))
            } else {
                None
            },
            None => None,
        },
    }
}

} // verus!
