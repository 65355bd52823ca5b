//! Activities without an object.

use crate::builders::ActivityStreamsObjectBuilder;
use crate::extended::ActorBuilder;
use crate::json::{
    distinct_keys, group_members, lemma_all_sound_add, lemma_distinct_concat_optional,
    lemma_distinct_prepend, lemma_record_of_distinct, lookup, member, optional, push_optional,
    push_text, read_text, record_of, text_field, text_model, text_tree, JsonTree,
};
use crate::keys::lemma_key_shapes;
use crate::object::{
    object_field, object_members, object_parsed, optional_object, read_object, tree_of_object,
    ActivityStreamsObject, ObjectModel,
};
use crate::object_laws::{
    embeds, is_object_key, lemma_object_key_set, lemma_object_member_keys,
    lemma_object_members_distinct, lemma_object_on_its_own, lemma_object_own_reads,
    lemma_object_parsed_valid, lemma_object_parses, lemma_object_sound, object_has, object_reads,
    object_valid,
};
use crate::term::ActivityStreamsSerialize;
use crate::time::Timestamp;
use vstd::prelude::*;

verus! {

/// An activity that has no object, such as travelling to a place. Its base
/// object's properties stand among its own in the JSON form, and it must have
/// a summary.
#[derive(Debug)]
pub struct IntransitiveActivity {
    pub base: ActivityStreamsObject,
    pub actor: Option<ActivityStreamsObject>,
    pub target: Option<ActivityStreamsObject>,
    pub result: Option<String>,
    pub origin: Option<String>,
    pub instrument: Option<String>,
}

/// The mathematical model of such an activity.
pub struct IntransitiveActivityModel {
    pub base: ObjectModel,
    pub actor: Option<ObjectModel>,
    pub target: Option<ObjectModel>,
    pub result: Option<Seq<char>>,
    pub origin: Option<Seq<char>>,
    pub instrument: Option<Seq<char>>,
}

impl View for IntransitiveActivity {
    type V = IntransitiveActivityModel;

    open spec fn view(&self) -> IntransitiveActivityModel {
        IntransitiveActivityModel {
            base: self.base@,
            actor: optional_object(self.actor),
            target: optional_object(self.target),
            result: text_model(self.result),
            origin: text_model(self.origin),
            instrument: text_model(self.instrument),
        }
    }
}

/// The members of the activity: those of its base object, then its own.
pub open spec fn intransitive_members(m: IntransitiveActivityModel) -> Seq<(Seq<char>, JsonTree)> {
    object_members(m.base)
        + optional("actor"@, tree_of_object(m.actor))
        + optional("target"@, tree_of_object(m.target))
        + optional("result"@, text_tree(m.result))
        + optional("origin"@, text_tree(m.origin))
        + optional("instrument"@, text_tree(m.instrument))
}

/// The activity that a tree denotes: its base object is read from the same
/// tree and must have a summary.
pub open spec fn intransitive_parsed(tree: JsonTree) -> Option<IntransitiveActivityModel> {
    match (
        object_parsed(tree, true),
        object_field(tree, "actor"@),
        object_field(tree, "target"@),
        text_field(tree, "result"@),
        text_field(tree, "origin"@),
        text_field(tree, "instrument"@),
    ) {
        (
            Some(base),
            Some(actor),
            Some(target),
            Some(result),
            Some(origin),
            Some(instrument),
        ) => if base.summary is Some {
            Some(IntransitiveActivityModel { base, actor, target, result, origin, instrument })
        } else {
            None
        },
        _ => None,
    }
}

/// An activity is valid when it has a summary and the objects in it are
/// valid.
pub open spec fn intransitive_valid(m: IntransitiveActivityModel) -> bool {
    &&& object_valid(m.base)
    &&& m.base.summary is Some
    &&& m.actor matches Some(o) ==> object_valid(o)
    &&& m.target matches Some(o) ==> object_valid(o)
}

/// A list of members holds every property of an activity under its key.
pub open spec fn intransitive_reads(
    entries: Seq<(Seq<char>, JsonTree)>,
    m: IntransitiveActivityModel,
) -> bool {
    &&& object_reads(entries, m.base, true)
    &&& lookup(entries, "actor"@) == tree_of_object(m.actor)
    &&& lookup(entries, "target"@) == tree_of_object(m.target)
    &&& lookup(entries, "result"@) == text_tree(m.result)
    &&& lookup(entries, "origin"@) == text_tree(m.origin)
    &&& lookup(entries, "instrument"@) == text_tree(m.instrument)
}

/// No two members of an activity share a key.
#[verifier::rlimit(50)]
pub proof fn lemma_intransitive_members_distinct(m: IntransitiveActivityModel)
    ensures
        distinct_keys(intransitive_members(m)),
        record_of(intransitive_members(m)) == intransitive_members(m),
{
    broadcast use group_members;

    lemma_key_shapes();
    lemma_object_members_distinct(m.base);
    lemma_object_own_reads(m.base);
    let p0 = object_members(m.base);
    lemma_distinct_concat_optional(p0, "actor"@, tree_of_object(m.actor));
    let p1 = p0 + optional("actor"@, tree_of_object(m.actor));
    lemma_distinct_concat_optional(p1, "target"@, tree_of_object(m.target));
    let p2 = p1 + optional("target"@, tree_of_object(m.target));
    lemma_distinct_concat_optional(p2, "result"@, text_tree(m.result));
    let p3 = p2 + optional("result"@, text_tree(m.result));
    lemma_distinct_concat_optional(p3, "origin"@, text_tree(m.origin));
    let p4 = p3 + optional("origin"@, text_tree(m.origin));
    lemma_distinct_concat_optional(p4, "instrument"@, text_tree(m.instrument));
    let p5 = p4 + optional("instrument"@, text_tree(m.instrument));
    assert(p5 == intransitive_members(m));
    lemma_record_of_distinct(intransitive_members(m));
}

/// The members of an activity hold each of its properties under its key.
#[verifier::rlimit(50)]
pub proof fn lemma_intransitive_own_reads(m: IntransitiveActivityModel)
    ensures
        intransitive_reads(intransitive_members(m), m),
{
    broadcast use group_members;

    lemma_key_shapes();
    lemma_object_own_reads(m.base);
}

/// Whatever list of members holds the properties of a valid activity is
/// read as that activity.
pub proof fn lemma_intransitive_parses(
    entries: Seq<(Seq<char>, JsonTree)>,
    m: IntransitiveActivityModel,
)
    requires
        intransitive_valid(m),
        intransitive_reads(entries, m),
    ensures
        intransitive_parsed(JsonTree::Record(entries)) == Some(m),
{
    lemma_object_parses(entries, m.base, true);
    if let Some(o) = m.actor {
        lemma_object_on_its_own(o);
    }
    if let Some(o) = m.target {
        lemma_object_on_its_own(o);
    }
}

/// Reading the JSON form of a valid activity gives the activity back.
pub proof fn lemma_intransitive_round_trip(m: IntransitiveActivityModel)
    requires
        intransitive_valid(m),
    ensures
        intransitive_parsed(JsonTree::Record(record_of(intransitive_members(m)))) == Some(m),
{
    lemma_intransitive_members_distinct(m);
    lemma_intransitive_own_reads(m);
    lemma_intransitive_parses(intransitive_members(m), m);
}

/// An activity has a member under a key of its own exactly where it has the
/// property: an absent property leaves no key behind.
pub proof fn lemma_intransitive_omission(m: IntransitiveActivityModel)
    ensures
        lookup(record_of(intransitive_members(m)), "actor"@) is Some <==> m.actor is Some,
        lookup(record_of(intransitive_members(m)), "target"@) is Some <==> m.target is Some,
        lookup(record_of(intransitive_members(m)), "result"@) is Some <==> m.result is Some,
        lookup(record_of(intransitive_members(m)), "origin"@) is Some <==> m.origin is Some,
        lookup(record_of(intransitive_members(m)), "instrument"@) is Some <==> m.instrument is Some,
{
    lemma_intransitive_members_distinct(m);
    lemma_intransitive_own_reads(m);
}

/// The keys under which an activity writes properties of its own.
pub open spec fn is_intransitive_key(key: Seq<char>) -> bool {
    key == "actor"@
        || key == "target"@
        || key == "result"@
        || key == "origin"@
        || key == "instrument"@
}

/// The members of an activity begin with those of its base object.
pub proof fn lemma_intransitive_embeds(m: IntransitiveActivityModel)
    ensures
        embeds(intransitive_members(m), m.base),
{
    let own = optional("actor"@, tree_of_object(m.actor))
        + optional("target"@, tree_of_object(m.target))
        + optional("result"@, text_tree(m.result))
        + optional("origin"@, text_tree(m.origin))
        + optional("instrument"@, text_tree(m.instrument));
    assert(intransitive_members(m) =~= object_members(m.base) + own);
}

/// The members of an activity stand under the keys of its base object and its
/// own keys only; none stands under `base`.
#[verifier::rlimit(50)]
pub proof fn lemma_intransitive_member_keys(m: IntransitiveActivityModel, key: Seq<char>)
    ensures
        lookup(intransitive_members(m), key) is Some ==>
            is_object_key(key) || is_intransitive_key(key),
        lookup(intransitive_members(m), "base"@) is None,
{
    broadcast use group_members;

    lemma_key_shapes();
    lemma_object_member_keys(m.base, key);
    lemma_object_member_keys(m.base, "base"@);
}

/// Every member of the base object is a member of the activity itself,
/// under the same key and with the same value.
#[verifier::rlimit(50)]
pub proof fn lemma_intransitive_flattening(m: IntransitiveActivityModel, key: Seq<char>)
    ensures
        lookup(object_members(m.base), key) matches Some(value) ==> lookup(
            intransitive_members(m),
            key,
        ) == Some(value),
{
    broadcast use group_members;

    lemma_key_shapes();
    lemma_object_own_reads(m.base);
    lemma_object_member_keys(m.base, key);
}

/// Whether an activity has a property under the key: one that is always written,
/// or one that is set.
pub open spec fn intransitive_has(m: IntransitiveActivityModel, key: Seq<char>) -> bool {
    ||| object_has(m.base, key)
    ||| key == "actor"@ && m.actor is Some
    ||| key == "target"@ && m.target is Some
    ||| key == "result"@ && m.result is Some
    ||| key == "origin"@ && m.origin is Some
    ||| key == "instrument"@ && m.instrument is Some
}

/// An activity has a member under a key exactly where it has a property
/// under that key: what is unset leaves no key behind, and no other key is
/// written.
#[verifier::rlimit(50)]
pub proof fn lemma_intransitive_key_set(m: IntransitiveActivityModel, key: Seq<char>)
    ensures
        lookup(intransitive_members(m), key) is Some <==> intransitive_has(m, key),
{
    broadcast use group_members;

    lemma_object_key_set(m.base, key);
}

impl ActivityStreamsSerialize for IntransitiveActivity {
    type Model = IntransitiveActivityModel;

    open spec fn model(&self) -> IntransitiveActivityModel {
        self@
    }

    open spec fn members(m: IntransitiveActivityModel) -> Seq<(Seq<char>, JsonTree)> {
        intransitive_members(m)
    }

    open spec fn parsed(tree: JsonTree) -> Option<IntransitiveActivityModel> {
        intransitive_parsed(tree)
    }

    open spec fn valid(m: IntransitiveActivityModel) -> bool {
        intransitive_valid(m)
    }

    fn entries(&self) -> (r: Vec<(String, serde_json::Value)>) {
        let mut entries = self.base.entries();
        let actor = match &self.actor {
            Some(o) => Some(o.to_value()),
            None => None,
        };
        push_optional(&mut entries, "actor", actor);
        let target = match &self.target {
            Some(o) => Some(o.to_value()),
            None => None,
        };
        push_optional(&mut entries, "target", target);
        push_text(&mut entries, "result", &self.result);
        push_text(&mut entries, "origin", &self.origin);
        push_text(&mut entries, "instrument", &self.instrument);
        entries
    }

    fn from_value(v: &serde_json::Value) -> (r: Option<Self>) {
        let base = match ActivityStreamsObject::read(v, true) {
            Some(x) => x,
            None => { return None; },
        };
        let actor = match read_object(v, "actor") {
            Some(x) => x,
            None => { return None; },
        };
        let target = match read_object(v, "target") {
            Some(x) => x,
            None => { return None; },
        };
        let result = match read_text(v, "result") {
            Some(x) => x,
            None => { return None; },
        };
        let origin = match read_text(v, "origin") {
            Some(x) => x,
            None => { return None; },
        };
        let instrument = match read_text(v, "instrument") {
            Some(x) => x,
            None => { return None; },
        };
        if base.summary.is_none() {
            return None;
        }
        Some(IntransitiveActivity { base, actor, target, result, origin, instrument })
    }

    proof fn lemma_parsed_valid(tree: JsonTree) {
        lemma_object_parsed_valid(tree, true);
        if let Some(t) = member(tree, "actor"@) {
            lemma_object_parsed_valid(t, true);
        }
        if let Some(t) = member(tree, "target"@) {
            lemma_object_parsed_valid(t, true);
        }
    }

    open spec fn has_property(m: IntransitiveActivityModel, key: Seq<char>) -> bool {
        intransitive_has(m, key)
    }

    proof fn lemma_key_set(m: IntransitiveActivityModel, key: Seq<char>) {
        lemma_intransitive_key_set(m, key);
    }

    proof fn lemma_sound(m: IntransitiveActivityModel) {
        lemma_intransitive_members_distinct(m);
        lemma_object_sound(m.base);
        if let Some(o) = m.actor {
            lemma_object_sound(o);
        }
        if let Some(o) = m.target {
            lemma_object_sound(o);
        }
        let p0 = object_members(m.base);
        lemma_all_sound_add(p0, "actor"@, tree_of_object(m.actor));
        let p1 = p0 + optional("actor"@, tree_of_object(m.actor));
        lemma_all_sound_add(p1, "target"@, tree_of_object(m.target));
        let p2 = p1 + optional("target"@, tree_of_object(m.target));
        lemma_all_sound_add(p2, "result"@, text_tree(m.result));
        let p3 = p2 + optional("result"@, text_tree(m.result));
        lemma_all_sound_add(p3, "origin"@, text_tree(m.origin));
        let p4 = p3 + optional("origin"@, text_tree(m.origin));
        lemma_all_sound_add(p4, "instrument"@, text_tree(m.instrument));
        let p5 = p4 + optional("instrument"@, text_tree(m.instrument));
        assert(p5 == intransitive_members(m));
    }

    #[verifier::rlimit(50)]
    proof fn lemma_reads_back(m: IntransitiveActivityModel, context: Option<JsonTree>) {
        broadcast use group_members;

        lemma_key_shapes();
        lemma_intransitive_members_distinct(m);
        lemma_intransitive_own_reads(m);
        lemma_distinct_prepend("@context"@, context, intransitive_members(m));
        let entries = optional("@context"@, context) + intransitive_members(m);
        assert(intransitive_reads(entries, m));
        lemma_intransitive_parses(entries, m);
    }
}

/// Builds an activity from its type and summary.
pub struct IntransitiveActivityBuilder {
    pub base: ActivityStreamsObjectBuilder,
    pub actor: Option<ActorBuilder>,
    pub target: Option<ActivityStreamsObjectBuilder>,
    pub result: Option<String>,
    pub origin: Option<String>,
    pub instrument: Option<String>,
}

impl View for IntransitiveActivityBuilder {
    type V = IntransitiveActivityModel;

    open spec fn view(&self) -> IntransitiveActivityModel {
        IntransitiveActivityModel {
            base: self.base@,
            actor: match self.actor {
                Some(b) => Some(b@),
                None => None,
            },
            target: match self.target {
                Some(b) => Some(b@),
                None => None,
            },
            result: text_model(self.result),
            origin: text_model(self.origin),
            instrument: text_model(self.instrument),
        }
    }
}

impl IntransitiveActivityBuilder {
    /// A builder for an activity of the given type, with the given summary
    /// and nothing else.
    pub fn new(activity_type: String, summary: String) -> (r: Self)
        ensures
            r@ == (IntransitiveActivityModel {
                base: ObjectModel {
                    object_type: Some(activity_type@),
                    summary: Some(summary@),
                    ..ObjectModel::empty()
                },
                actor: None,
                target: None,
                result: None,
                origin: None,
                instrument: None,
            }),
            intransitive_valid(r@),
    {
        IntransitiveActivityBuilder {
            base: ActivityStreamsObjectBuilder::new().object_type(activity_type).summary(summary),
            actor: None,
            target: None,
            result: None,
            origin: None,
            instrument: None,
        }
    }

    /// Sets the time of publication.
    pub fn published(self, datetime: Timestamp) -> (r: Self)
        ensures
            r@ == (IntransitiveActivityModel {
                base: ObjectModel { published: Some(datetime@), ..self@.base },
                ..self@
            }),
            intransitive_valid(self@) && datetime.valid() ==> intransitive_valid(r@),
    {
        let IntransitiveActivityBuilder { base, actor, target, result, origin, instrument } = self;
        IntransitiveActivityBuilder {
            base: base.published(datetime),
            actor,
            target,
            result,
            origin,
            instrument,
        }
    }

    /// Sets the actor to what the given builder describes.
    pub fn actor(self, actor: ActorBuilder) -> (r: Self)
        ensures
            r@ == (IntransitiveActivityModel { actor: Some(actor@), ..self@ }),
            intransitive_valid(self@) && object_valid(actor@) ==> intransitive_valid(r@),
    {
        let mut builder = self;
        builder.actor = Some(actor);
        builder
    }

    /// Sets the target to what the given builder describes.
    pub fn target(self, target: ActivityStreamsObjectBuilder) -> (r: Self)
        ensures
            r@ == (IntransitiveActivityModel { target: Some(target@), ..self@ }),
            intransitive_valid(self@) && object_valid(target@) ==> intransitive_valid(r@),
    {
        let mut builder = self;
        builder.target = Some(target);
        builder
    }

    /// Sets the result.
    pub fn result(self, result: String) -> (r: Self)
        ensures
            r@ == (IntransitiveActivityModel { result: Some(result@), ..self@ }),
            intransitive_valid(self@) ==> intransitive_valid(r@),
    {
        let mut builder = self;
        builder.result = Some(result);
        builder
    }

    /// Sets the origin.
    pub fn origin(self, origin: String) -> (r: Self)
        ensures
            r@ == (IntransitiveActivityModel { origin: Some(origin@), ..self@ }),
            intransitive_valid(self@) ==> intransitive_valid(r@),
    {
        let mut builder = self;
        builder.origin = Some(origin);
        builder
    }

    /// Sets the instrument.
    pub fn instrument(self, instrument: String) -> (r: Self)
        ensures
            r@ == (IntransitiveActivityModel { instrument: Some(instrument@), ..self@ }),
            intransitive_valid(self@) ==> intransitive_valid(r@),
    {
        let mut builder = self;
        builder.instrument = Some(instrument);
        builder
    }

    /// The activity that was built; nested builders are finished along with
    /// it.
    pub fn build(self) -> (r: IntransitiveActivity)
        ensures
            r@ == self@,
    {
        IntransitiveActivity {
            base: self.base.build(),
            actor: match self.actor {
                Some(b) => Some(b.build()),
                None => None,
            },
            target: match self.target {
                Some(b) => Some(b.build()),
                None => None,
            },
            result: self.result,
            origin: self.origin,
            instrument: self.instrument,
        }
    }
}

} // verus!
