//! Collections of terms: unordered and ordered, whole and in pages.
//!
//! A collection is an object with a list of items and, optionally, the total
//! number of items. The stated total is the caller's to keep true: nothing
//! here compares it with the list.

use crate::builders::ActivityStreamsObjectBuilder;
use crate::items::{
    all_valid, count_field, count_tree, count_value, item_trees, items_field, items_value,
    lemma_items_parsed_valid, lemma_items_round_trip, models, read_count, read_items,
};
use crate::json::{
    as_text, distinct_keys, get_member, group_members, lemma_all_sound_add,
    lemma_distinct_concat_optional, lemma_distinct_prepend, lemma_record_of_distinct, lookup,
    member, optional, push_member, push_optional, record_of, sound, text_value, JsonTree,
};
use crate::keys::lemma_key_shapes;
use crate::object::{object_members, object_parsed, ActivityStreamsObject, ObjectModel};
use crate::object_laws::{
    embeds, is_object_key, lemma_object_key_set, lemma_object_member_keys,
    lemma_object_members_distinct, lemma_object_own_reads, lemma_object_parsed_valid,
    lemma_object_parses, lemma_object_sound, object_has, object_reads, object_valid,
};
use crate::term::{lemma_term_round_trip, ActivityStreamsSerialize};
use crate::uri::uri_string;
use vstd::prelude::*;

verus! {

/// An unordered collection of terms.
#[derive(Debug)]
pub struct Collection<T: ActivityStreamsSerialize> {
    pub base: ActivityStreamsObject,
    pub total_items: Option<usize>,
    pub items: Vec<T>,
}

/// The mathematical model of such a collection, over the model of its items.
pub struct CollectionModel<M> {
    pub base: ObjectModel,
    pub total_items: Option<usize>,
    pub items: Seq<M>,
}

impl<T: ActivityStreamsSerialize> View for Collection<T> {
    type V = CollectionModel<T::Model>;

    open spec fn view(&self) -> CollectionModel<T::Model> {
        CollectionModel {
            base: self.base@,
            total_items: self.total_items,
            items: models(self.items@),
        }
    }
}

/// The members of the collection: those of its base object, then its own.
/// The list of items is always written, even when empty.
pub open spec fn collection_members<T: ActivityStreamsSerialize>(
    m: CollectionModel<T::Model>,
) -> Seq<(Seq<char>, JsonTree)> {
    object_members(m.base)
        + optional("totalItems"@, count_tree(m.total_items))
        + optional("items"@, Some(JsonTree::List(item_trees::<T>(m.items))))
}

/// The collection that a tree denotes: its base object is read from the same
/// tree; a missing list of items is an empty one.
pub open spec fn collection_parsed<T: ActivityStreamsSerialize>(tree: JsonTree) -> Option<
    CollectionModel<T::Model>,
> {
    match (
        object_parsed(tree, true),
        count_field(tree, "totalItems"@),
        items_field::<T>(tree, "items"@),
    ) {
        (Some(base), Some(total_items), Some(items)) => Some(
            CollectionModel { base, total_items, items },
        ),
        _ => None,
    }
}

/// A collection is valid when its base object and its items are. Nothing
/// ties the stated total to the number of items.
pub open spec fn collection_valid<T: ActivityStreamsSerialize>(
    m: CollectionModel<T::Model>,
) -> bool {
    object_valid(m.base) && all_valid::<T>(m.items)
}

/// A list of members holds every property of a collection under its key.
pub open spec fn collection_reads<T: ActivityStreamsSerialize>(
    entries: Seq<(Seq<char>, JsonTree)>,
    m: CollectionModel<T::Model>,
) -> bool {
    &&& object_reads(entries, m.base, true)
    &&& lookup(entries, "totalItems"@) == count_tree(m.total_items)
    &&& lookup(entries, "items"@) == Some(JsonTree::List(item_trees::<T>(m.items)))
}

/// No two members of a collection share a key.
#[verifier::rlimit(50)]
pub proof fn lemma_collection_members_distinct<T: ActivityStreamsSerialize>(
    m: CollectionModel<T::Model>,
)
    ensures
        distinct_keys(collection_members::<T>(m)),
        record_of(collection_members::<T>(m)) == collection_members::<T>(m),
{
    broadcast use group_members;

    lemma_key_shapes();
    lemma_object_members_distinct(m.base);
    lemma_object_own_reads(m.base);
    let p0 = object_members(m.base);
    lemma_distinct_concat_optional(p0, "totalItems"@, count_tree(m.total_items));
    let p1 = p0 + optional("totalItems"@, count_tree(m.total_items));
    let items = Some(JsonTree::List(item_trees::<T>(m.items)));
    lemma_distinct_concat_optional(p1, "items"@, items);
    assert(p1 + optional("items"@, items) == collection_members::<T>(m));
    lemma_record_of_distinct(collection_members::<T>(m));
}

/// The members of a collection hold each of its properties under its key.
#[verifier::rlimit(50)]
pub proof fn lemma_collection_own_reads<T: ActivityStreamsSerialize>(m: CollectionModel<T::Model>)
    ensures
        collection_reads::<T>(collection_members::<T>(m), m),
{
    broadcast use group_members;

    lemma_key_shapes();
    lemma_object_own_reads(m.base);
}

/// A collection has `totalItems` exactly where a total is stated, and always
/// has its list of items.
pub proof fn lemma_collection_omission<T: ActivityStreamsSerialize>(m: CollectionModel<T::Model>)
    ensures
        lookup(record_of(collection_members::<T>(m)), "totalItems"@) is Some <==>
            m.total_items is Some,
        lookup(record_of(collection_members::<T>(m)), "items"@) is Some,
{
    lemma_collection_members_distinct::<T>(m);
    lemma_collection_own_reads::<T>(m);
}

/// Whatever list of members holds the properties of a valid collection is
/// read as that collection.
pub proof fn lemma_collection_parses<T: ActivityStreamsSerialize>(
    entries: Seq<(Seq<char>, JsonTree)>,
    m: CollectionModel<T::Model>,
)
    requires
        collection_valid::<T>(m),
        collection_reads::<T>(entries, m),
    ensures
        collection_parsed::<T>(JsonTree::Record(entries)) == Some(m),
{
    lemma_object_parses(entries, m.base, true);
    lemma_items_round_trip::<T>(m.items);
}

/// The keys under which a collection writes properties of its own.
pub open spec fn is_collection_key(key: Seq<char>) -> bool {
    key == "totalItems"@ || key == "items"@
}

/// The members of a collection begin with those of its base object.
pub proof fn lemma_collection_embeds<T: ActivityStreamsSerialize>(m: CollectionModel<T::Model>)
    ensures
        embeds(collection_members::<T>(m), m.base),
{
    let own = optional("totalItems"@, count_tree(m.total_items))
        + optional("items"@, Some(JsonTree::List(item_trees::<T>(m.items))));
    assert(collection_members::<T>(m) =~= object_members(m.base) + own);
}

/// The members of a collection stand under the keys of its base object and its
/// own keys only; none stands under `base`.
#[verifier::rlimit(50)]
pub proof fn lemma_collection_member_keys<T: ActivityStreamsSerialize>(
    m: CollectionModel<T::Model>,
    key: Seq<char>,
)
    ensures
        lookup(collection_members::<T>(m), key) is Some ==>
            is_object_key(key) || is_collection_key(key),
        lookup(collection_members::<T>(m), "base"@) is None,
{
    broadcast use group_members;

    lemma_key_shapes();
    lemma_object_member_keys(m.base, key);
    lemma_object_member_keys(m.base, "base"@);
}

/// Whether a collection has a property under the key: one that is always written,
/// or one that is set.
pub open spec fn collection_has<T: ActivityStreamsSerialize>(
    m: CollectionModel<T::Model>,
    key: Seq<char>,
) -> bool {
    ||| object_has(m.base, key)
    ||| key == "totalItems"@ && m.total_items is Some
    ||| key == "items"@
}

/// A collection has a member under a key exactly where it has a property
/// under that key: what is unset leaves no key behind, and no other key is
/// written.
#[verifier::rlimit(50)]
pub proof fn lemma_collection_key_set<T: ActivityStreamsSerialize>(
    m: CollectionModel<T::Model>,
    key: Seq<char>,
)
    ensures
        lookup(collection_members::<T>(m), key) is Some <==> collection_has::<T>(m, key),
{
    broadcast use group_members;

    lemma_object_key_set(m.base, key);
}

impl<T: ActivityStreamsSerialize> ActivityStreamsSerialize for Collection<T> {
    type Model = CollectionModel<T::Model>;

    open spec fn model(&self) -> CollectionModel<T::Model> {
        self@
    }

    open spec fn members(m: CollectionModel<T::Model>) -> Seq<(Seq<char>, JsonTree)> {
        collection_members::<T>(m)
    }

    open spec fn parsed(tree: JsonTree) -> Option<CollectionModel<T::Model>> {
        collection_parsed::<T>(tree)
    }

    open spec fn valid(m: CollectionModel<T::Model>) -> bool {
        collection_valid::<T>(m)
    }

    fn entries(&self) -> (r: Vec<(String, serde_json::Value)>) {
        let mut entries = self.base.entries();
        match self.total_items {
            Some(n) => push_member(&mut entries, "totalItems", count_value(n)),
            None => push_optional(&mut entries, "totalItems", None),
        }
        push_member(&mut entries, "items", items_value(&self.items));
        entries
    }

    fn from_value(v: &serde_json::Value) -> (r: Option<Self>) {
        let base = match ActivityStreamsObject::read(v, true) {
            Some(x) => x,
            None => { return None; },
        };
        let total_items = match read_count(v, "totalItems") {
            Some(x) => x,
            None => { return None; },
        };
        match read_items::<T>(v, "items") {
            Some(items) => Some(Collection { base, total_items, items }),
            None => None,
        }
    }

    proof fn lemma_parsed_valid(tree: JsonTree) {
        lemma_object_parsed_valid(tree, true);
        lemma_items_parsed_valid::<T>(tree, "items"@);
    }

    open spec fn has_property(m: CollectionModel<T::Model>, key: Seq<char>) -> bool {
        collection_has::<T>(m, key)
    }

    proof fn lemma_key_set(m: CollectionModel<T::Model>, key: Seq<char>) {
        lemma_collection_key_set::<T>(m, key);
    }

    proof fn lemma_sound(m: CollectionModel<T::Model>) {
        lemma_collection_members_distinct::<T>(m);
        lemma_object_sound(m.base);
        let trees = item_trees::<T>(m.items);
        assert forall|i: int| 0 <= i < trees.len() implies sound(#[trigger] trees[i]) by {
            T::lemma_sound(m.items[i]);
            lemma_term_round_trip::<T>(m.items[i]);
        }
        let p0 = object_members(m.base);
        lemma_all_sound_add(p0, "totalItems"@, count_tree(m.total_items));
        let p1 = p0 + optional("totalItems"@, count_tree(m.total_items));
        lemma_all_sound_add(p1, "items"@, Some(JsonTree::List(trees)));
        let p2 = p1 + optional("items"@, Some(JsonTree::List(trees)));
        assert(p2 == collection_members::<T>(m));
    }

    #[verifier::rlimit(50)]
    proof fn lemma_reads_back(m: CollectionModel<T::Model>, context: Option<JsonTree>) {
        broadcast use group_members;

        lemma_key_shapes();
        lemma_collection_members_distinct::<T>(m);
        lemma_collection_own_reads::<T>(m);
        lemma_distinct_prepend("@context"@, context, collection_members::<T>(m));
        let entries = optional("@context"@, context) + collection_members::<T>(m);
        assert(collection_reads::<T>(entries, m));
        lemma_collection_parses::<T>(entries, m);
    }
}

/// Builds such a collection from its type.
pub struct CollectionBuilder<T: ActivityStreamsSerialize> {
    pub base: ActivityStreamsObjectBuilder,
    pub total_items: Option<usize>,
    pub items: Vec<T>,
}

impl<T: ActivityStreamsSerialize> View for CollectionBuilder<T> {
    type V = CollectionModel<T::Model>;

    open spec fn view(&self) -> CollectionModel<T::Model> {
        CollectionModel {
            base: self.base@,
            total_items: self.total_items,
            items: models(self.items@),
        }
    }
}

impl<T: ActivityStreamsSerialize> CollectionBuilder<T> {
    /// A builder for an empty collection of the given type.
    pub fn new(collection_type: String) -> (r: Self)
        ensures
            r@ == (CollectionModel {
                base: ObjectModel { object_type: Some(collection_type@), ..ObjectModel::empty() },
                total_items: None,
                items: Seq::<T::Model>::empty(),
            }),
            collection_valid::<T>(r@),
    {
        let r = CollectionBuilder {
            base: ActivityStreamsObjectBuilder::new().object_type(collection_type),
            total_items: None,
            items: Vec::new(),
        };
        assert(models(r.items@) =~= Seq::<T::Model>::empty());
        r
    }

    /// Sets the identifier to the text of a reference.
    pub fn id(self, id: http::Uri) -> (r: Self)
        ensures
            r@ == (CollectionModel {
                base: ObjectModel { id: Some(uri_string(id)), ..self@.base },
                ..self@
            }),
            collection_valid::<T>(self@) ==> collection_valid::<T>(r@),
    {
        let CollectionBuilder { base, total_items, items } = self;
        CollectionBuilder { base: base.id(id), total_items, items }
    }

    /// Sets the name.
    pub fn name(self, name: String) -> (r: Self)
        ensures
            r@ == (CollectionModel {
                base: ObjectModel { name: Some(name@), ..self@.base },
                ..self@
            }),
            collection_valid::<T>(self@) ==> collection_valid::<T>(r@),
    {
        let CollectionBuilder { base, total_items, items } = self;
        CollectionBuilder { base: base.name(name), total_items, items }
    }

    /// Sets the summary.
    pub fn summary(self, summary: String) -> (r: Self)
        ensures
            r@ == (CollectionModel {
                base: ObjectModel { summary: Some(summary@), ..self@.base },
                ..self@
            }),
            collection_valid::<T>(self@) ==> collection_valid::<T>(r@),
    {
        let CollectionBuilder { base, total_items, items } = self;
        CollectionBuilder { base: base.summary(summary), total_items, items }
    }

    /// States the total number of items. It is kept as stated, whatever the
    /// number of items added.
    pub fn total_items(self, total_items: usize) -> (r: Self)
        ensures
            r@ == (CollectionModel { total_items: Some(total_items), ..self@ }),
            collection_valid::<T>(self@) ==> collection_valid::<T>(r@),
    {
        let mut builder = self;
        builder.total_items = Some(total_items);
        builder
    }

    /// Adds an item after those already there.
    pub fn add_item(self, item: T) -> (r: Self)
        ensures
            r@ == (CollectionModel { items: self@.items.push(item.model()), ..self@ }),
            collection_valid::<T>(self@) && T::valid(item.model()) ==> collection_valid::<T>(r@),
    {
        let mut builder = self;
        builder.items.push(item);
        assert(models(builder.items@) =~= self@.items.push(item.model()));
        builder
    }

    /// The collection that was built.
    pub fn build(self) -> (r: Collection<T>)
        ensures
            r@ == self@,
    {
        Collection {
            base: self.base.build(),
            total_items: self.total_items,
            items: self.items,
        }
    }
}

/// A collection whose items are in a meaningful order.
#[derive(Debug)]
pub struct OrderedCollection<T: ActivityStreamsSerialize> {
    pub base: ActivityStreamsObject,
    pub total_items: Option<usize>,
    pub ordered_items: Vec<T>,
}

/// The mathematical model of such a collection, over the model of its items.
pub struct OrderedCollectionModel<M> {
    pub base: ObjectModel,
    pub total_items: Option<usize>,
    pub ordered_items: Seq<M>,
}

impl<T: ActivityStreamsSerialize> View for OrderedCollection<T> {
    type V = OrderedCollectionModel<T::Model>;

    open spec fn view(&self) -> OrderedCollectionModel<T::Model> {
        OrderedCollectionModel {
            base: self.base@,
            total_items: self.total_items,
            ordered_items: models(self.ordered_items@),
        }
    }
}

/// The members of the collection: those of its base object, then its own.
/// The list of items is always written, even when empty.
pub open spec fn ordered_collection_members<T: ActivityStreamsSerialize>(
    m: OrderedCollectionModel<T::Model>,
) -> Seq<(Seq<char>, JsonTree)> {
    object_members(m.base)
        + optional("totalItems"@, count_tree(m.total_items))
        + optional("orderedItems"@, Some(JsonTree::List(item_trees::<T>(m.ordered_items))))
}

/// The collection that a tree denotes: its base object is read from the same
/// tree; a missing list of items is an empty one.
pub open spec fn ordered_collection_parsed<T: ActivityStreamsSerialize>(tree: JsonTree) -> Option<
    OrderedCollectionModel<T::Model>,
> {
    match (
        object_parsed(tree, true),
        count_field(tree, "totalItems"@),
        items_field::<T>(tree, "orderedItems"@),
    ) {
        (Some(base), Some(total_items), Some(ordered_items)) => Some(
            OrderedCollectionModel { base, total_items, ordered_items },
        ),
        _ => None,
    }
}

/// A collection is valid when its base object and its items are. Nothing
/// ties the stated total to the number of items.
pub open spec fn ordered_collection_valid<T: ActivityStreamsSerialize>(
    m: OrderedCollectionModel<T::Model>,
) -> bool {
    object_valid(m.base) && all_valid::<T>(m.ordered_items)
}

/// A list of members holds every property of a collection under its key.
pub open spec fn ordered_collection_reads<T: ActivityStreamsSerialize>(
    entries: Seq<(Seq<char>, JsonTree)>,
    m: OrderedCollectionModel<T::Model>,
) -> bool {
    &&& object_reads(entries, m.base, true)
    &&& lookup(entries, "totalItems"@) == count_tree(m.total_items)
    &&& lookup(entries, "orderedItems"@) == Some(JsonTree::List(item_trees::<T>(m.ordered_items)))
}

/// No two members of a collection share a key.
#[verifier::rlimit(50)]
pub proof fn lemma_ordered_collection_members_distinct<T: ActivityStreamsSerialize>(
    m: OrderedCollectionModel<T::Model>,
)
    ensures
        distinct_keys(ordered_collection_members::<T>(m)),
        record_of(ordered_collection_members::<T>(m)) == ordered_collection_members::<T>(m),
{
    broadcast use group_members;

    lemma_key_shapes();
    lemma_object_members_distinct(m.base);
    lemma_object_own_reads(m.base);
    let p0 = object_members(m.base);
    lemma_distinct_concat_optional(p0, "totalItems"@, count_tree(m.total_items));
    let p1 = p0 + optional("totalItems"@, count_tree(m.total_items));
    let items = Some(JsonTree::List(item_trees::<T>(m.ordered_items)));
    lemma_distinct_concat_optional(p1, "orderedItems"@, items);
    assert(p1 + optional("orderedItems"@, items) == ordered_collection_members::<T>(m));
    lemma_record_of_distinct(ordered_collection_members::<T>(m));
}

/// The members of a collection hold each of its properties under its key.
#[verifier::rlimit(50)]
pub proof fn lemma_ordered_collection_own_reads<T: ActivityStreamsSerialize>(
    m: OrderedCollectionModel<T::Model>,
)
    ensures
        ordered_collection_reads::<T>(ordered_collection_members::<T>(m), m),
{
    broadcast use group_members;

    lemma_key_shapes();
    lemma_object_own_reads(m.base);
}

/// A collection has `totalItems` exactly where a total is stated, and always
/// has its list of items.
pub proof fn lemma_ordered_collection_omission<T: ActivityStreamsSerialize>(
    m: OrderedCollectionModel<T::Model>,
)
    ensures
        lookup(record_of(ordered_collection_members::<T>(m)), "totalItems"@) is Some <==>
            m.total_items is Some,
        lookup(record_of(ordered_collection_members::<T>(m)), "orderedItems"@) is Some,
{
    lemma_ordered_collection_members_distinct::<T>(m);
    lemma_ordered_collection_own_reads::<T>(m);
}

/// Whatever list of members holds the properties of a valid collection is
/// read as that collection.
pub proof fn lemma_ordered_collection_parses<T: ActivityStreamsSerialize>(
    entries: Seq<(Seq<char>, JsonTree)>,
    m: OrderedCollectionModel<T::Model>,
)
    requires
        ordered_collection_valid::<T>(m),
        ordered_collection_reads::<T>(entries, m),
    ensures
        ordered_collection_parsed::<T>(JsonTree::Record(entries)) == Some(m),
{
    lemma_object_parses(entries, m.base, true);
    lemma_items_round_trip::<T>(m.ordered_items);
}

/// The keys under which a collection writes properties of its own.
pub open spec fn is_ordered_collection_key(key: Seq<char>) -> bool {
    key == "totalItems"@ || key == "orderedItems"@
}

/// The members of a collection begin with those of its base object.
pub proof fn lemma_ordered_collection_embeds<T: ActivityStreamsSerialize>(
    m: OrderedCollectionModel<T::Model>,
)
    ensures
        embeds(ordered_collection_members::<T>(m), m.base),
{
    let own = optional("totalItems"@, count_tree(m.total_items))
        + optional("orderedItems"@, Some(JsonTree::List(item_trees::<T>(m.ordered_items))));
    assert(ordered_collection_members::<T>(m) =~= object_members(m.base) + own);
}

/// The members of a collection stand under the keys of its base object and its
/// own keys only; none stands under `base`.
#[verifier::rlimit(50)]
pub proof fn lemma_ordered_collection_member_keys<T: ActivityStreamsSerialize>(
    m: OrderedCollectionModel<T::Model>,
    key: Seq<char>,
)
    ensures
        lookup(ordered_collection_members::<T>(m), key) is Some ==>
            is_object_key(key) || is_ordered_collection_key(key),
        lookup(ordered_collection_members::<T>(m), "base"@) is None,
{
    broadcast use group_members;

    lemma_key_shapes();
    lemma_object_member_keys(m.base, key);
    lemma_object_member_keys(m.base, "base"@);
}

/// Whether a collection has a property under the key: one that is always written,
/// or one that is set.
pub open spec fn ordered_collection_has<T: ActivityStreamsSerialize>(
    m: OrderedCollectionModel<T::Model>,
    key: Seq<char>,
) -> bool {
    ||| object_has(m.base, key)
    ||| key == "totalItems"@ && m.total_items is Some
    ||| key == "orderedItems"@
}

/// A collection has a member under a key exactly where it has a property
/// under that key: what is unset leaves no key behind, and no other key is
/// written.
#[verifier::rlimit(50)]
pub proof fn lemma_ordered_collection_key_set<T: ActivityStreamsSerialize>(
    m: OrderedCollectionModel<T::Model>,
    key: Seq<char>,
)
    ensures
        lookup(ordered_collection_members::<T>(m), key) is Some <==>
            ordered_collection_has::<T>(m, key),
{
    broadcast use group_members;

    lemma_object_key_set(m.base, key);
}

impl<T: ActivityStreamsSerialize> ActivityStreamsSerialize for OrderedCollection<T> {
    type Model = OrderedCollectionModel<T::Model>;

    open spec fn model(&self) -> OrderedCollectionModel<T::Model> {
        self@
    }

    open spec fn members(m: OrderedCollectionModel<T::Model>) -> Seq<(Seq<char>, JsonTree)> {
        ordered_collection_members::<T>(m)
    }

    open spec fn parsed(tree: JsonTree) -> Option<OrderedCollectionModel<T::Model>> {
        ordered_collection_parsed::<T>(tree)
    }

    open spec fn valid(m: OrderedCollectionModel<T::Model>) -> bool {
        ordered_collection_valid::<T>(m)
    }

    fn entries(&self) -> (r: Vec<(String, serde_json::Value)>) {
        let mut entries = self.base.entries();
        match self.total_items {
            Some(n) => push_member(&mut entries, "totalItems", count_value(n)),
            None => push_optional(&mut entries, "totalItems", None),
        }
        push_member(&mut entries, "orderedItems", items_value(&self.ordered_items));
        entries
    }

    fn from_value(v: &serde_json::Value) -> (r: Option<Self>) {
        let base = match ActivityStreamsObject::read(v, true) {
            Some(x) => x,
            None => { return None; },
        };
        let total_items = match read_count(v, "totalItems") {
            Some(x) => x,
            None => { return None; },
        };
        match read_items::<T>(v, "orderedItems") {
            Some(ordered_items) => Some(OrderedCollection { base, total_items, ordered_items }),
            None => None,
        }
    }

    proof fn lemma_parsed_valid(tree: JsonTree) {
        lemma_object_parsed_valid(tree, true);
        lemma_items_parsed_valid::<T>(tree, "orderedItems"@);
    }

    open spec fn has_property(m: OrderedCollectionModel<T::Model>, key: Seq<char>) -> bool {
        ordered_collection_has::<T>(m, key)
    }

    proof fn lemma_key_set(m: OrderedCollectionModel<T::Model>, key: Seq<char>) {
        lemma_ordered_collection_key_set::<T>(m, key);
    }

    proof fn lemma_sound(m: OrderedCollectionModel<T::Model>) {
        lemma_ordered_collection_members_distinct::<T>(m);
        lemma_object_sound(m.base);
        let trees = item_trees::<T>(m.ordered_items);
        assert forall|i: int| 0 <= i < trees.len() implies sound(#[trigger] trees[i]) by {
            T::lemma_sound(m.ordered_items[i]);
            lemma_term_round_trip::<T>(m.ordered_items[i]);
        }
        let p0 = object_members(m.base);
        lemma_all_sound_add(p0, "totalItems"@, count_tree(m.total_items));
        let p1 = p0 + optional("totalItems"@, count_tree(m.total_items));
        lemma_all_sound_add(p1, "orderedItems"@, Some(JsonTree::List(trees)));
        let p2 = p1 + optional("orderedItems"@, Some(JsonTree::List(trees)));
        assert(p2 == ordered_collection_members::<T>(m));
    }

    #[verifier::rlimit(50)]
    proof fn lemma_reads_back(m: OrderedCollectionModel<T::Model>, context: Option<JsonTree>) {
        broadcast use group_members;

        lemma_key_shapes();
        lemma_ordered_collection_members_distinct::<T>(m);
        lemma_ordered_collection_own_reads::<T>(m);
        lemma_distinct_prepend("@context"@, context, ordered_collection_members::<T>(m));
        let entries = optional("@context"@, context) + ordered_collection_members::<T>(m);
        assert(ordered_collection_reads::<T>(entries, m));
        lemma_ordered_collection_parses::<T>(entries, m);
    }
}

/// Builds such a collection from its type.
pub struct OrderedCollectionBuilder<T: ActivityStreamsSerialize> {
    pub base: ActivityStreamsObjectBuilder,
    pub total_items: Option<usize>,
    pub ordered_items: Vec<T>,
}

impl<T: ActivityStreamsSerialize> View for OrderedCollectionBuilder<T> {
    type V = OrderedCollectionModel<T::Model>;

    open spec fn view(&self) -> OrderedCollectionModel<T::Model> {
        OrderedCollectionModel {
            base: self.base@,
            total_items: self.total_items,
            ordered_items: models(self.ordered_items@),
        }
    }
}

impl<T: ActivityStreamsSerialize> OrderedCollectionBuilder<T> {
    /// A builder for an empty collection of the given type.
    pub fn new(collection_type: String) -> (r: Self)
        ensures
            r@ == (OrderedCollectionModel {
                base: ObjectModel { object_type: Some(collection_type@), ..ObjectModel::empty() },
                total_items: None,
                ordered_items: Seq::<T::Model>::empty(),
            }),
            ordered_collection_valid::<T>(r@),
    {
        let r = OrderedCollectionBuilder {
            base: ActivityStreamsObjectBuilder::new().object_type(collection_type),
            total_items: None,
            ordered_items: Vec::new(),
        };
        assert(models(r.ordered_items@) =~= Seq::<T::Model>::empty());
        r
    }

    /// Sets the identifier to the text of a reference.
    pub fn id(self, id: http::Uri) -> (r: Self)
        ensures
            r@ == (OrderedCollectionModel {
                base: ObjectModel { id: Some(uri_string(id)), ..self@.base },
                ..self@
            }),
            ordered_collection_valid::<T>(self@) ==> ordered_collection_valid::<T>(r@),
    {
        let OrderedCollectionBuilder { base, total_items, ordered_items } = self;
        OrderedCollectionBuilder { base: base.id(id), total_items, ordered_items }
    }

    /// Sets the name.
    pub fn name(self, name: String) -> (r: Self)
        ensures
            r@ == (OrderedCollectionModel {
                base: ObjectModel { name: Some(name@), ..self@.base },
                ..self@
            }),
            ordered_collection_valid::<T>(self@) ==> ordered_collection_valid::<T>(r@),
    {
        let OrderedCollectionBuilder { base, total_items, ordered_items } = self;
        OrderedCollectionBuilder { base: base.name(name), total_items, ordered_items }
    }

    /// Sets the summary.
    pub fn summary(self, summary: String) -> (r: Self)
        ensures
            r@ == (OrderedCollectionModel {
                base: ObjectModel { summary: Some(summary@), ..self@.base },
                ..self@
            }),
            ordered_collection_valid::<T>(self@) ==> ordered_collection_valid::<T>(r@),
    {
        let OrderedCollectionBuilder { base, total_items, ordered_items } = self;
        OrderedCollectionBuilder { base: base.summary(summary), total_items, ordered_items }
    }

    /// States the total number of items. It is kept as stated, whatever the
    /// number of items added.
    pub fn total_items(self, total_items: usize) -> (r: Self)
        ensures
            r@ == (OrderedCollectionModel { total_items: Some(total_items), ..self@ }),
            ordered_collection_valid::<T>(self@) ==> ordered_collection_valid::<T>(r@),
    {
        let mut builder = self;
        builder.total_items = Some(total_items);
        builder
    }

    /// Adds an item after those already there.
    pub fn add_item(self, item: T) -> (r: Self)
        ensures
            r@ == (OrderedCollectionModel {
                ordered_items: self@.ordered_items.push(item.model()),
                ..self@
            }),
            ordered_collection_valid::<T>(self@) && T::valid(item.model()) ==>
                ordered_collection_valid::<T>(r@),
    {
        let mut builder = self;
        builder.ordered_items.push(item);
        assert(models(builder.ordered_items@) =~= self@.ordered_items.push(item.model()));
        builder
    }

    /// The collection that was built.
    pub fn build(self) -> (r: OrderedCollection<T>)
        ensures
            r@ == self@,
    {
        OrderedCollection {
            base: self.base.build(),
            total_items: self.total_items,
            ordered_items: self.ordered_items,
        }
    }
}

/// One page of the items of a collection.
#[derive(Debug)]
pub struct CollectionPage<T: ActivityStreamsSerialize> {
    pub base: ActivityStreamsObject,
    pub part_of: String,
    pub total_items: Option<usize>,
    pub items: Vec<T>,
}

/// The mathematical model of such a collection, over the model of its items.
pub struct CollectionPageModel<M> {
    pub base: ObjectModel,
    pub part_of: Seq<char>,
    pub total_items: Option<usize>,
    pub items: Seq<M>,
}

impl<T: ActivityStreamsSerialize> View for CollectionPage<T> {
    type V = CollectionPageModel<T::Model>;

    open spec fn view(&self) -> CollectionPageModel<T::Model> {
        CollectionPageModel {
            base: self.base@,
            part_of: self.part_of@,
            total_items: self.total_items,
            items: models(self.items@),
        }
    }
}

/// The members of the collection: those of its base object, then its own.
/// The list of items is always written, even when empty.
pub open spec fn collection_page_members<T: ActivityStreamsSerialize>(
    m: CollectionPageModel<T::Model>,
) -> Seq<(Seq<char>, JsonTree)> {
    object_members(m.base)
        + optional("partOf"@, Some(JsonTree::Text(m.part_of)))
        + optional("totalItems"@, count_tree(m.total_items))
        + optional("items"@, Some(JsonTree::List(item_trees::<T>(m.items))))
}

/// The collection that a tree denotes: its base object is read from the same
/// tree; a missing list of items is an empty one.
pub open spec fn collection_page_parsed<T: ActivityStreamsSerialize>(tree: JsonTree) -> Option<
    CollectionPageModel<T::Model>,
> {
    match (
        object_parsed(tree, true),
        member(tree, "partOf"@),
        count_field(tree, "totalItems"@),
        items_field::<T>(tree, "items"@),
    ) {
        (Some(base), Some(JsonTree::Text(part_of)), Some(total_items), Some(items)) => Some(
            CollectionPageModel { base, part_of, total_items, items },
        ),
        _ => None,
    }
}

/// A collection is valid when its base object and its items are. Nothing
/// ties the stated total to the number of items.
pub open spec fn collection_page_valid<T: ActivityStreamsSerialize>(
    m: CollectionPageModel<T::Model>,
) -> bool {
    object_valid(m.base) && all_valid::<T>(m.items)
}

/// A list of members holds every property of a collection under its key.
pub open spec fn collection_page_reads<T: ActivityStreamsSerialize>(
    entries: Seq<(Seq<char>, JsonTree)>,
    m: CollectionPageModel<T::Model>,
) -> bool {
    &&& object_reads(entries, m.base, true)
    &&& lookup(entries, "partOf"@) == Some(JsonTree::Text(m.part_of))
    &&& lookup(entries, "totalItems"@) == count_tree(m.total_items)
    &&& lookup(entries, "items"@) == Some(JsonTree::List(item_trees::<T>(m.items)))
}

/// No two members of a collection share a key.
#[verifier::rlimit(50)]
pub proof fn lemma_collection_page_members_distinct<T: ActivityStreamsSerialize>(
    m: CollectionPageModel<T::Model>,
)
    ensures
        distinct_keys(collection_page_members::<T>(m)),
        record_of(collection_page_members::<T>(m)) == collection_page_members::<T>(m),
{
    broadcast use group_members;

    lemma_key_shapes();
    lemma_object_members_distinct(m.base);
    lemma_object_own_reads(m.base);
    let p0 = object_members(m.base);
    lemma_distinct_concat_optional(p0, "partOf"@, Some(JsonTree::Text(m.part_of)));
    let p1 = p0 + optional("partOf"@, Some(JsonTree::Text(m.part_of)));
    lemma_distinct_concat_optional(p1, "totalItems"@, count_tree(m.total_items));
    let p2 = p1 + optional("totalItems"@, count_tree(m.total_items));
    let items = Some(JsonTree::List(item_trees::<T>(m.items)));
    lemma_distinct_concat_optional(p2, "items"@, items);
    assert(p2 + optional("items"@, items) == collection_page_members::<T>(m));
    lemma_record_of_distinct(collection_page_members::<T>(m));
}

/// The members of a collection hold each of its properties under its key.
#[verifier::rlimit(50)]
pub proof fn lemma_collection_page_own_reads<T: ActivityStreamsSerialize>(
    m: CollectionPageModel<T::Model>,
)
    ensures
        collection_page_reads::<T>(collection_page_members::<T>(m), m),
{
    broadcast use group_members;

    lemma_key_shapes();
    lemma_object_own_reads(m.base);
}

/// A collection has `totalItems` exactly where a total is stated, and always
/// has its list of items.
pub proof fn lemma_collection_page_omission<T: ActivityStreamsSerialize>(
    m: CollectionPageModel<T::Model>,
)
    ensures
        lookup(record_of(collection_page_members::<T>(m)), "totalItems"@) is Some <==>
            m.total_items is Some,
        lookup(record_of(collection_page_members::<T>(m)), "items"@) is Some,
{
    lemma_collection_page_members_distinct::<T>(m);
    lemma_collection_page_own_reads::<T>(m);
}

/// Whatever list of members holds the properties of a valid collection is
/// read as that collection.
pub proof fn lemma_collection_page_parses<T: ActivityStreamsSerialize>(
    entries: Seq<(Seq<char>, JsonTree)>,
    m: CollectionPageModel<T::Model>,
)
    requires
        collection_page_valid::<T>(m),
        collection_page_reads::<T>(entries, m),
    ensures
        collection_page_parsed::<T>(JsonTree::Record(entries)) == Some(m),
{
    lemma_object_parses(entries, m.base, true);
    lemma_items_round_trip::<T>(m.items);
}

/// The keys under which a page writes properties of its own.
pub open spec fn is_collection_page_key(key: Seq<char>) -> bool {
    key == "partOf"@ || key == "totalItems"@ || key == "items"@
}

/// The members of a page begin with those of its base object.
pub proof fn lemma_collection_page_embeds<T: ActivityStreamsSerialize>(
    m: CollectionPageModel<T::Model>,
)
    ensures
        embeds(collection_page_members::<T>(m), m.base),
{
    let own = optional("partOf"@, Some(JsonTree::Text(m.part_of)))
        + optional("totalItems"@, count_tree(m.total_items))
        + optional("items"@, Some(JsonTree::List(item_trees::<T>(m.items))));
    assert(collection_page_members::<T>(m) =~= object_members(m.base) + own);
}

/// The members of a page stand under the keys of its base object and its
/// own keys only; none stands under `base`.
#[verifier::rlimit(50)]
pub proof fn lemma_collection_page_member_keys<T: ActivityStreamsSerialize>(
    m: CollectionPageModel<T::Model>,
    key: Seq<char>,
)
    ensures
        lookup(collection_page_members::<T>(m), key) is Some ==>
            is_object_key(key) || is_collection_page_key(key),
        lookup(collection_page_members::<T>(m), "base"@) is None,
{
    broadcast use group_members;

    lemma_key_shapes();
    lemma_object_member_keys(m.base, key);
    lemma_object_member_keys(m.base, "base"@);
}

/// Whether a page has a property under the key: one that is always written,
/// or one that is set.
pub open spec fn collection_page_has<T: ActivityStreamsSerialize>(
    m: CollectionPageModel<T::Model>,
    key: Seq<char>,
) -> bool {
    ||| object_has(m.base, key)
    ||| key == "partOf"@
    ||| key == "totalItems"@ && m.total_items is Some
    ||| key == "items"@
}

/// A page has a member under a key exactly where it has a property
/// under that key: what is unset leaves no key behind, and no other key is
/// written.
#[verifier::rlimit(50)]
pub proof fn lemma_collection_page_key_set<T: ActivityStreamsSerialize>(
    m: CollectionPageModel<T::Model>,
    key: Seq<char>,
)
    ensures
        lookup(collection_page_members::<T>(m), key) is Some <==> collection_page_has::<T>(m, key),
{
    broadcast use group_members;

    lemma_object_key_set(m.base, key);
}

impl<T: ActivityStreamsSerialize> ActivityStreamsSerialize for CollectionPage<T> {
    type Model = CollectionPageModel<T::Model>;

    open spec fn model(&self) -> CollectionPageModel<T::Model> {
        self@
    }

    open spec fn members(m: CollectionPageModel<T::Model>) -> Seq<(Seq<char>, JsonTree)> {
        collection_page_members::<T>(m)
    }

    open spec fn parsed(tree: JsonTree) -> Option<CollectionPageModel<T::Model>> {
        collection_page_parsed::<T>(tree)
    }

    open spec fn valid(m: CollectionPageModel<T::Model>) -> bool {
        collection_page_valid::<T>(m)
    }

    fn entries(&self) -> (r: Vec<(String, serde_json::Value)>) {
        let mut entries = self.base.entries();
        push_member(&mut entries, "partOf", text_value(self.part_of.as_str()));
        match self.total_items {
            Some(n) => push_member(&mut entries, "totalItems", count_value(n)),
            None => push_optional(&mut entries, "totalItems", None),
        }
        push_member(&mut entries, "items", items_value(&self.items));
        entries
    }

    fn from_value(v: &serde_json::Value) -> (r: Option<Self>) {
        let base = match ActivityStreamsObject::read(v, true) {
            Some(x) => x,
            None => { return None; },
        };
        let part_of = match get_member(v, "partOf") {
            Some(m) => match as_text(m) {
                Some(s) => s.to_owned(),
                None => { return None; },
            },
            None => { return None; },
        };
        let total_items = match read_count(v, "totalItems") {
            Some(x) => x,
            None => { return None; },
        };
        match read_items::<T>(v, "items") {
            Some(items) => Some(CollectionPage { base, part_of, total_items, items }),
            None => None,
        }
    }

    proof fn lemma_parsed_valid(tree: JsonTree) {
        lemma_object_parsed_valid(tree, true);
        lemma_items_parsed_valid::<T>(tree, "items"@);
    }

    open spec fn has_property(m: CollectionPageModel<T::Model>, key: Seq<char>) -> bool {
        collection_page_has::<T>(m, key)
    }

    proof fn lemma_key_set(m: CollectionPageModel<T::Model>, key: Seq<char>) {
        lemma_collection_page_key_set::<T>(m, key);
    }

    proof fn lemma_sound(m: CollectionPageModel<T::Model>) {
        lemma_collection_page_members_distinct::<T>(m);
        lemma_object_sound(m.base);
        let trees = item_trees::<T>(m.items);
        assert forall|i: int| 0 <= i < trees.len() implies sound(#[trigger] trees[i]) by {
            T::lemma_sound(m.items[i]);
            lemma_term_round_trip::<T>(m.items[i]);
        }
        let p0 = object_members(m.base);
        lemma_all_sound_add(p0, "partOf"@, Some(JsonTree::Text(m.part_of)));
        let p1 = p0 + optional("partOf"@, Some(JsonTree::Text(m.part_of)));
        lemma_all_sound_add(p1, "totalItems"@, count_tree(m.total_items));
        let p2 = p1 + optional("totalItems"@, count_tree(m.total_items));
        lemma_all_sound_add(p2, "items"@, Some(JsonTree::List(trees)));
        let p3 = p2 + optional("items"@, Some(JsonTree::List(trees)));
        assert(p3 == collection_page_members::<T>(m));
    }

    #[verifier::rlimit(50)]
    proof fn lemma_reads_back(m: CollectionPageModel<T::Model>, context: Option<JsonTree>) {
        broadcast use group_members;

        lemma_key_shapes();
        lemma_collection_page_members_distinct::<T>(m);
        lemma_collection_page_own_reads::<T>(m);
        lemma_distinct_prepend("@context"@, context, collection_page_members::<T>(m));
        let entries = optional("@context"@, context) + collection_page_members::<T>(m);
        assert(collection_page_reads::<T>(entries, m));
        lemma_collection_page_parses::<T>(entries, m);
    }
}

/// Builds such a collection from its type and the collection it is part of.
pub struct CollectionPageBuilder<T: ActivityStreamsSerialize> {
    pub base: ActivityStreamsObjectBuilder,
    pub part_of: String,
    pub total_items: Option<usize>,
    pub items: Vec<T>,
}

impl<T: ActivityStreamsSerialize> View for CollectionPageBuilder<T> {
    type V = CollectionPageModel<T::Model>;

    open spec fn view(&self) -> CollectionPageModel<T::Model> {
        CollectionPageModel {
            base: self.base@,
            part_of: self.part_of@,
            total_items: self.total_items,
            items: models(self.items@),
        }
    }
}

impl<T: ActivityStreamsSerialize> CollectionPageBuilder<T> {
    /// A builder for an empty collection of the given type, part of the
    /// collection with the given identifier.
    pub fn new(collection_type: String, part_of: String) -> (r: Self)
        ensures
            r@ == (CollectionPageModel {
                base: ObjectModel { object_type: Some(collection_type@), ..ObjectModel::empty() },
                part_of: part_of@,
                total_items: None,
                items: Seq::<T::Model>::empty(),
            }),
            collection_page_valid::<T>(r@),
    {
        let r = CollectionPageBuilder {
            base: ActivityStreamsObjectBuilder::new().object_type(collection_type),
            part_of,
            total_items: None,
            items: Vec::new(),
        };
        assert(models(r.items@) =~= Seq::<T::Model>::empty());
        r
    }

    /// Sets the identifier to the text of a reference.
    pub fn id(self, id: http::Uri) -> (r: Self)
        ensures
            r@ == (CollectionPageModel {
                base: ObjectModel { id: Some(uri_string(id)), ..self@.base },
                ..self@
            }),
            collection_page_valid::<T>(self@) ==> collection_page_valid::<T>(r@),
    {
        let CollectionPageBuilder { base, part_of, total_items, items } = self;
        CollectionPageBuilder { base: base.id(id), part_of, total_items, items }
    }

    /// Sets the name.
    pub fn name(self, name: String) -> (r: Self)
        ensures
            r@ == (CollectionPageModel {
                base: ObjectModel { name: Some(name@), ..self@.base },
                ..self@
            }),
            collection_page_valid::<T>(self@) ==> collection_page_valid::<T>(r@),
    {
        let CollectionPageBuilder { base, part_of, total_items, items } = self;
        CollectionPageBuilder { base: base.name(name), part_of, total_items, items }
    }

    /// Sets the summary.
    pub fn summary(self, summary: String) -> (r: Self)
        ensures
            r@ == (CollectionPageModel {
                base: ObjectModel { summary: Some(summary@), ..self@.base },
                ..self@
            }),
            collection_page_valid::<T>(self@) ==> collection_page_valid::<T>(r@),
    {
        let CollectionPageBuilder { base, part_of, total_items, items } = self;
        CollectionPageBuilder { base: base.summary(summary), part_of, total_items, items }
    }

    /// States the total number of items. It is kept as stated, whatever the
    /// number of items added.
    pub fn total_items(self, total_items: usize) -> (r: Self)
        ensures
            r@ == (CollectionPageModel { total_items: Some(total_items), ..self@ }),
            collection_page_valid::<T>(self@) ==> collection_page_valid::<T>(r@),
    {
        let mut builder = self;
        builder.total_items = Some(total_items);
        builder
    }

    /// Adds an item after those already there.
    pub fn add_item(self, item: T) -> (r: Self)
        ensures
            r@ == (CollectionPageModel { items: self@.items.push(item.model()), ..self@ }),
            collection_page_valid::<T>(self@) && T::valid(item.model()) ==>
                collection_page_valid::<T>(r@),
    {
        let mut builder = self;
        builder.items.push(item);
        assert(models(builder.items@) =~= self@.items.push(item.model()));
        builder
    }

    /// The collection that was built.
    pub fn build(self) -> (r: CollectionPage<T>)
        ensures
            r@ == self@,
    {
        CollectionPage {
            base: self.base.build(),
            part_of: self.part_of,
            total_items: self.total_items,
            items: self.items,
        }
    }
}

/// One page of the items of an ordered collection.
#[derive(Debug)]
pub struct OrderedCollectionPage<T: ActivityStreamsSerialize> {
    pub base: ActivityStreamsObject,
    pub part_of: String,
    pub total_items: Option<usize>,
    pub ordered_items: Vec<T>,
}

/// The mathematical model of such a collection, over the model of its items.
pub struct OrderedCollectionPageModel<M> {
    pub base: ObjectModel,
    pub part_of: Seq<char>,
    pub total_items: Option<usize>,
    pub ordered_items: Seq<M>,
}

impl<T: ActivityStreamsSerialize> View for OrderedCollectionPage<T> {
    type V = OrderedCollectionPageModel<T::Model>;

    open spec fn view(&self) -> OrderedCollectionPageModel<T::Model> {
        OrderedCollectionPageModel {
            base: self.base@,
            part_of: self.part_of@,
            total_items: self.total_items,
            ordered_items: models(self.ordered_items@),
        }
    }
}

/// The members of the collection: those of its base object, then its own.
/// The list of items is always written, even when empty.
pub open spec fn ordered_collection_page_members<T: ActivityStreamsSerialize>(
    m: OrderedCollectionPageModel<T::Model>,
) -> Seq<(Seq<char>, JsonTree)> {
    object_members(m.base)
        + optional("partOf"@, Some(JsonTree::Text(m.part_of)))
        + optional("totalItems"@, count_tree(m.total_items))
        + optional("orderedItems"@, Some(JsonTree::List(item_trees::<T>(m.ordered_items))))
}

/// The collection that a tree denotes: its base object is read from the same
/// tree; a missing list of items is an empty one.
pub open spec fn ordered_collection_page_parsed<T: ActivityStreamsSerialize>(
    tree: JsonTree,
) -> Option<
    OrderedCollectionPageModel<T::Model>,
> {
    match (
        object_parsed(tree, true),
        member(tree, "partOf"@),
        count_field(tree, "totalItems"@),
        items_field::<T>(tree, "orderedItems"@),
    ) {
        (Some(base), Some(JsonTree::Text(part_of)), Some(total_items), Some(ordered_items)) => Some(
            OrderedCollectionPageModel { base, part_of, total_items, ordered_items },
        ),
        _ => None,
    }
}

/// A collection is valid when its base object and its items are. Nothing
/// ties the stated total to the number of items.
pub open spec fn ordered_collection_page_valid<T: ActivityStreamsSerialize>(
    m: OrderedCollectionPageModel<T::Model>,
) -> bool {
    object_valid(m.base) && all_valid::<T>(m.ordered_items)
}

/// A list of members holds every property of a collection under its key.
pub open spec fn ordered_collection_page_reads<T: ActivityStreamsSerialize>(
    entries: Seq<(Seq<char>, JsonTree)>,
    m: OrderedCollectionPageModel<T::Model>,
) -> bool {
    &&& object_reads(entries, m.base, true)
    &&& lookup(entries, "partOf"@) == Some(JsonTree::Text(m.part_of))
    &&& lookup(entries, "totalItems"@) == count_tree(m.total_items)
    &&& lookup(entries, "orderedItems"@) == Some(JsonTree::List(item_trees::<T>(m.ordered_items)))
}

/// No two members of a collection share a key.
#[verifier::rlimit(50)]
pub proof fn lemma_ordered_collection_page_members_distinct<T: ActivityStreamsSerialize>(
    m: OrderedCollectionPageModel<T::Model>,
)
    ensures
        distinct_keys(ordered_collection_page_members::<T>(m)),
        record_of(ordered_collection_page_members::<T>(
            m,
        )) == ordered_collection_page_members::<T>(m),
{
    broadcast use group_members;

    lemma_key_shapes();
    lemma_object_members_distinct(m.base);
    lemma_object_own_reads(m.base);
    let p0 = object_members(m.base);
    lemma_distinct_concat_optional(p0, "partOf"@, Some(JsonTree::Text(m.part_of)));
    let p1 = p0 + optional("partOf"@, Some(JsonTree::Text(m.part_of)));
    lemma_distinct_concat_optional(p1, "totalItems"@, count_tree(m.total_items));
    let p2 = p1 + optional("totalItems"@, count_tree(m.total_items));
    let items = Some(JsonTree::List(item_trees::<T>(m.ordered_items)));
    lemma_distinct_concat_optional(p2, "orderedItems"@, items);
    assert(p2 + optional("orderedItems"@, items) == ordered_collection_page_members::<T>(m));
    lemma_record_of_distinct(ordered_collection_page_members::<T>(m));
}

/// The members of a collection hold each of its properties under its key.
#[verifier::rlimit(50)]
pub proof fn lemma_ordered_collection_page_own_reads<T: ActivityStreamsSerialize>(
    m: OrderedCollectionPageModel<T::Model>,
)
    ensures
        ordered_collection_page_reads::<T>(ordered_collection_page_members::<T>(m), m),
{
    broadcast use group_members;

    lemma_key_shapes();
    lemma_object_own_reads(m.base);
}

/// A collection has `totalItems` exactly where a total is stated, and always
/// has its list of items.
pub proof fn lemma_ordered_collection_page_omission<T: ActivityStreamsSerialize>(
    m: OrderedCollectionPageModel<T::Model>,
)
    ensures
        lookup(record_of(ordered_collection_page_members::<T>(m)), "totalItems"@) is Some <==>
            m.total_items is Some,
        lookup(record_of(ordered_collection_page_members::<T>(m)), "orderedItems"@) is Some,
{
    lemma_ordered_collection_page_members_distinct::<T>(m);
    lemma_ordered_collection_page_own_reads::<T>(m);
}

/// Whatever list of members holds the properties of a valid collection is
/// read as that collection.
pub proof fn lemma_ordered_collection_page_parses<T: ActivityStreamsSerialize>(
    entries: Seq<(Seq<char>, JsonTree)>,
    m: OrderedCollectionPageModel<T::Model>,
)
    requires
        ordered_collection_page_valid::<T>(m),
        ordered_collection_page_reads::<T>(entries, m),
    ensures
        ordered_collection_page_parsed::<T>(JsonTree::Record(entries)) == Some(m),
{
    lemma_object_parses(entries, m.base, true);
    lemma_items_round_trip::<T>(m.ordered_items);
}

/// The keys under which a page writes properties of its own.
pub open spec fn is_ordered_collection_page_key(key: Seq<char>) -> bool {
    key == "partOf"@ || key == "totalItems"@ || key == "orderedItems"@
}

/// The members of a page begin with those of its base object.
pub proof fn lemma_ordered_collection_page_embeds<T: ActivityStreamsSerialize>(
    m: OrderedCollectionPageModel<T::Model>,
)
    ensures
        embeds(ordered_collection_page_members::<T>(m), m.base),
{
    let own = optional("partOf"@, Some(JsonTree::Text(m.part_of)))
        + optional("totalItems"@, count_tree(m.total_items))
        + optional("orderedItems"@, Some(JsonTree::List(item_trees::<T>(m.ordered_items))));
    assert(ordered_collection_page_members::<T>(m) =~= object_members(m.base) + own);
}

/// The members of a page stand under the keys of its base object and its
/// own keys only; none stands under `base`.
#[verifier::rlimit(50)]
pub proof fn lemma_ordered_collection_page_member_keys<T: ActivityStreamsSerialize>(
    m: OrderedCollectionPageModel<T::Model>,
    key: Seq<char>,
)
    ensures
        lookup(ordered_collection_page_members::<T>(m), key) is Some ==>
            is_object_key(key) || is_ordered_collection_page_key(key),
        lookup(ordered_collection_page_members::<T>(m), "base"@) is None,
{
    broadcast use group_members;

    lemma_key_shapes();
    lemma_object_member_keys(m.base, key);
    lemma_object_member_keys(m.base, "base"@);
}

/// Whether a page has a property under the key: one that is always written,
/// or one that is set.
pub open spec fn ordered_collection_page_has<T: ActivityStreamsSerialize>(
    m: OrderedCollectionPageModel<T::Model>,
    key: Seq<char>,
) -> bool {
    ||| object_has(m.base, key)
    ||| key == "partOf"@
    ||| key == "totalItems"@ && m.total_items is Some
    ||| key == "orderedItems"@
}

/// A page has a member under a key exactly where it has a property
/// under that key: what is unset leaves no key behind, and no other key is
/// written.
#[verifier::rlimit(50)]
pub proof fn lemma_ordered_collection_page_key_set<T: ActivityStreamsSerialize>(
    m: OrderedCollectionPageModel<T::Model>,
    key: Seq<char>,
)
    ensures
        lookup(ordered_collection_page_members::<T>(m), key) is Some <==>
            ordered_collection_page_has::<T>(m, key),
{
    broadcast use group_members;

    lemma_object_key_set(m.base, key);
}

impl<T: ActivityStreamsSerialize> ActivityStreamsSerialize for OrderedCollectionPage<T> {
    type Model = OrderedCollectionPageModel<T::Model>;

    open spec fn model(&self) -> OrderedCollectionPageModel<T::Model> {
        self@
    }

    open spec fn members(m: OrderedCollectionPageModel<T::Model>) -> Seq<(Seq<char>, JsonTree)> {
        ordered_collection_page_members::<T>(m)
    }

    open spec fn parsed(tree: JsonTree) -> Option<OrderedCollectionPageModel<T::Model>> {
        ordered_collection_page_parsed::<T>(tree)
    }

    open spec fn valid(m: OrderedCollectionPageModel<T::Model>) -> bool {
        ordered_collection_page_valid::<T>(m)
    }

    fn entries(&self) -> (r: Vec<(String, serde_json::Value)>) {
        let mut entries = self.base.entries();
        push_member(&mut entries, "partOf", text_value(self.part_of.as_str()));
        match self.total_items {
            Some(n) => push_member(&mut entries, "totalItems", count_value(n)),
            None => push_optional(&mut entries, "totalItems", None),
        }
        push_member(&mut entries, "orderedItems", items_value(&self.ordered_items));
        entries
    }

    fn from_value(v: &serde_json::Value) -> (r: Option<Self>) {
        let base = match ActivityStreamsObject::read(v, true) {
            Some(x) => x,
            None => { return None; },
        };
        let part_of = match get_member(v, "partOf") {
            Some(m) => match as_text(m) {
                Some(s) => s.to_owned(),
                None => { return None; },
            },
            None => { return None; },
        };
        let total_items = match read_count(v, "totalItems") {
            Some(x) => x,
            None => { return None; },
        };
        match read_items::<T>(v, "orderedItems") {
            Some(ordered_items) => Some(
                OrderedCollectionPage { base, part_of, total_items, ordered_items },
            ),
            None => None,
        }
    }

    proof fn lemma_parsed_valid(tree: JsonTree) {
        lemma_object_parsed_valid(tree, true);
        lemma_items_parsed_valid::<T>(tree, "orderedItems"@);
    }

    open spec fn has_property(m: OrderedCollectionPageModel<T::Model>, key: Seq<char>) -> bool {
        ordered_collection_page_has::<T>(m, key)
    }

    proof fn lemma_key_set(m: OrderedCollectionPageModel<T::Model>, key: Seq<char>) {
        lemma_ordered_collection_page_key_set::<T>(m, key);
    }

    proof fn lemma_sound(m: OrderedCollectionPageModel<T::Model>) {
        lemma_ordered_collection_page_members_distinct::<T>(m);
        lemma_object_sound(m.base);
        let trees = item_trees::<T>(m.ordered_items);
        assert forall|i: int| 0 <= i < trees.len() implies sound(#[trigger] trees[i]) by {
            T::lemma_sound(m.ordered_items[i]);
            lemma_term_round_trip::<T>(m.ordered_items[i]);
        }
        let p0 = object_members(m.base);
        lemma_all_sound_add(p0, "partOf"@, Some(JsonTree::Text(m.part_of)));
        let p1 = p0 + optional("partOf"@, Some(JsonTree::Text(m.part_of)));
        lemma_all_sound_add(p1, "totalItems"@, count_tree(m.total_items));
        let p2 = p1 + optional("totalItems"@, count_tree(m.total_items));
        lemma_all_sound_add(p2, "orderedItems"@, Some(JsonTree::List(trees)));
        let p3 = p2 + optional("orderedItems"@, Some(JsonTree::List(trees)));
        assert(p3 == ordered_collection_page_members::<T>(m));
    }

    #[verifier::rlimit(50)]
    proof fn lemma_reads_back(m: OrderedCollectionPageModel<T::Model>, context: Option<JsonTree>) {
        broadcast use group_members;

        lemma_key_shapes();
        lemma_ordered_collection_page_members_distinct::<T>(m);
        lemma_ordered_collection_page_own_reads::<T>(m);
        lemma_distinct_prepend("@context"@, context, ordered_collection_page_members::<T>(m));
        let entries = optional("@context"@, context) + ordered_collection_page_members::<T>(m);
        assert(ordered_collection_page_reads::<T>(entries, m));
        lemma_ordered_collection_page_parses::<T>(entries, m);
    }
}

/// Builds such a collection from its type and the collection it is part of.
pub struct OrderedCollectionPageBuilder<T: ActivityStreamsSerialize> {
    pub base: ActivityStreamsObjectBuilder,
    pub part_of: String,
    pub total_items: Option<usize>,
    pub ordered_items: Vec<T>,
}

impl<T: ActivityStreamsSerialize> View for OrderedCollectionPageBuilder<T> {
    type V = OrderedCollectionPageModel<T::Model>;

    open spec fn view(&self) -> OrderedCollectionPageModel<T::Model> {
        OrderedCollectionPageModel {
            base: self.base@,
            part_of: self.part_of@,
            total_items: self.total_items,
            ordered_items: models(self.ordered_items@),
        }
    }
}

impl<T: ActivityStreamsSerialize> OrderedCollectionPageBuilder<T> {
    /// A builder for an empty collection of the given type, part of the
    /// collection with the given identifier.
    pub fn new(collection_type: String, part_of: String) -> (r: Self)
        ensures
            r@ == (OrderedCollectionPageModel {
                base: ObjectModel { object_type: Some(collection_type@), ..ObjectModel::empty() },
                part_of: part_of@,
                total_items: None,
                ordered_items: Seq::<T::Model>::empty(),
            }),
            ordered_collection_page_valid::<T>(r@),
    {
        let r = OrderedCollectionPageBuilder {
            base: ActivityStreamsObjectBuilder::new().object_type(collection_type),
            part_of,
            total_items: None,
            ordered_items: Vec::new(),
        };
        assert(models(r.ordered_items@) =~= Seq::<T::Model>::empty());
        r
    }

    /// Sets the identifier to the text of a reference.
    pub fn id(self, id: http::Uri) -> (r: Self)
        ensures
            r@ == (OrderedCollectionPageModel {
                base: ObjectModel { id: Some(uri_string(id)), ..self@.base },
                ..self@
            }),
            ordered_collection_page_valid::<T>(self@) ==> ordered_collection_page_valid::<T>(r@),
    {
        let OrderedCollectionPageBuilder { base, part_of, total_items, ordered_items } = self;
        OrderedCollectionPageBuilder { base: base.id(id), part_of, total_items, ordered_items }
    }

    /// Sets the name.
    pub fn name(self, name: String) -> (r: Self)
        ensures
            r@ == (OrderedCollectionPageModel {
                base: ObjectModel { name: Some(name@), ..self@.base },
                ..self@
            }),
            ordered_collection_page_valid::<T>(self@) ==> ordered_collection_page_valid::<T>(r@),
    {
        let OrderedCollectionPageBuilder { base, part_of, total_items, ordered_items } = self;
        OrderedCollectionPageBuilder { base: base.name(name), part_of, total_items, ordered_items }
    }

    /// Sets the summary.
    pub fn summary(self, summary: String) -> (r: Self)
        ensures
            r@ == (OrderedCollectionPageModel {
                base: ObjectModel { summary: Some(summary@), ..self@.base },
                ..self@
            }),
            ordered_collection_page_valid::<T>(self@) ==> ordered_collection_page_valid::<T>(r@),
    {
        let OrderedCollectionPageBuilder { base, part_of, total_items, ordered_items } = self;
        OrderedCollectionPageBuilder {
            base: base.summary(summary),
            part_of,
            total_items,
            ordered_items,
        }
    }

    /// States the total number of items. It is kept as stated, whatever the
    /// number of items added.
    pub fn total_items(self, total_items: usize) -> (r: Self)
        ensures
            r@ == (OrderedCollectionPageModel { total_items: Some(total_items), ..self@ }),
            ordered_collection_page_valid::<T>(self@) ==> ordered_collection_page_valid::<T>(r@),
    {
        let mut builder = self;
        builder.total_items = Some(total_items);
        builder
    }

    /// Adds an item after those already there.
    pub fn add_item(self, item: T) -> (r: Self)
        ensures
            r@ == (OrderedCollectionPageModel {
                ordered_items: self@.ordered_items.push(item.model()),
                ..self@
            }),
            ordered_collection_page_valid::<T>(self@) && T::valid(item.model()) ==>
                ordered_collection_page_valid::<T>(r@),
    {
        let mut builder = self;
        builder.ordered_items.push(item);
        assert(models(builder.ordered_items@) =~= self@.ordered_items.push(item.model()));
        builder
    }

    /// The collection that was built.
    pub fn build(self) -> (r: OrderedCollectionPage<T>)
        ensures
            r@ == self@,
    {
        OrderedCollectionPage {
            base: self.base.build(),
            part_of: self.part_of,
            total_items: self.total_items,
            ordered_items: self.ordered_items,
        }
    }
}

} // verus!
