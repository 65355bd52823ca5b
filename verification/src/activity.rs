//! Activities: what an actor does to an object.

use crate::builders::ActivityStreamsObjectBuilder;
use crate::extended::ActorBuilder;
use crate::json::{
    distinct_keys, group_members, lemma_all_sound_add, lemma_distinct_concat_optional,
    lemma_distinct_prepend, lemma_record_of_distinct, lookup, member, optional, push_optional,
    push_text, read_text, record_of, text_field, text_model, text_tree, JsonTree,
};
use crate::keys::lemma_key_shapes;
use crate::object::{
    object_field, object_members, object_parsed, optional_object, read_object, tree_of_object,
    ActivityStreamsObject, ObjectModel,
};
use crate::object_laws::{
    embeds, is_object_key, lemma_object_key_set, lemma_object_member_keys,
    lemma_object_members_distinct, lemma_object_on_its_own, lemma_object_own_reads,
    lemma_object_parsed_valid, lemma_object_parses, lemma_object_sound, object_has, object_reads,
    object_valid,
};
use crate::term::ActivityStreamsSerialize;
use crate::time::Timestamp;
use vstd::prelude::*;

verus! {

/// An activity: something that an actor does, usually to an object. Its base
/// object's properties stand among its own in the JSON form, and it must have
/// a summary.
#[derive(Debug)]
pub struct ActivityStreamsActivity {
    pub base: ActivityStreamsObject,
    pub actor: Option<ActivityStreamsObject>,
    pub object: Option<ActivityStreamsObject>,
    pub target: Option<ActivityStreamsObject>,
    pub result: Option<String>,
    pub origin: Option<String>,
    pub instrument: Option<String>,
}

/// The mathematical model of such an activity.
pub struct ActivityModel {
    pub base: ObjectModel,
    pub actor: Option<ObjectModel>,
    pub object: Option<ObjectModel>,
    pub target: Option<ObjectModel>,
    pub result: Option<Seq<char>>,
    pub origin: Option<Seq<char>>,
    pub instrument: Option<Seq<char>>,
}

impl View for ActivityStreamsActivity {
    type V = ActivityModel;

    open spec fn view(&self) -> ActivityModel {
        ActivityModel {
            base: self.base@,
            actor: optional_object(self.actor),
            object: optional_object(self.object),
            target: optional_object(self.target),
            result: text_model(self.result),
            origin: text_model(self.origin),
            instrument: text_model(self.instrument),
        }
    }
}

/// The members of the activity: those of its base object, then its own.
pub open spec fn activity_members(m: ActivityModel) -> Seq<(Seq<char>, JsonTree)> {
    object_members(m.base)
        + optional("actor"@, tree_of_object(m.actor))
        + optional("object"@, tree_of_object(m.object))
        + optional("target"@, tree_of_object(m.target))
        + optional("result"@, text_tree(m.result))
        + optional("origin"@, text_tree(m.origin))
        + optional("instrument"@, text_tree(m.instrument))
}

/// The activity that a tree denotes: its base object is read from the same
/// tree and must have a summary.
pub open spec fn activity_parsed(tree: JsonTree) -> Option<ActivityModel> {
    match (
        object_parsed(tree, true),
        object_field(tree, "actor"@),
        object_field(tree, "object"@),
        object_field(tree, "target"@),
        text_field(tree, "result"@),
        text_field(tree, "origin"@),
        text_field(tree, "instrument"@),
    ) {
        (
            Some(base),
            Some(actor),
            Some(object),
            Some(target),
            Some(result),
            Some(origin),
            Some(instrument),
        ) => if base.summary is Some {
            Some(ActivityModel { base, actor, object, target, result, origin, instrument })
        } else {
            None
        },
        _ => None,
    }
}

/// An activity is valid when it has a summary and the objects in it are
/// valid.
pub open spec fn activity_valid(m: ActivityModel) -> bool {
    &&& object_valid(m.base)
    &&& m.base.summary is Some
    &&& m.actor matches Some(o) ==> object_valid(o)
    &&& m.object matches Some(o) ==> object_valid(o)
    &&& m.target matches Some(o) ==> object_valid(o)
}

/// A list of members holds every property of an activity under its key.
pub open spec fn activity_reads(entries: Seq<(Seq<char>, JsonTree)>, m: ActivityModel) -> bool {
    &&& object_reads(entries, m.base, true)
    &&& lookup(entries, "actor"@) == tree_of_object(m.actor)
    &&& lookup(entries, "object"@) == tree_of_object(m.object)
    &&& lookup(entries, "target"@) == tree_of_object(m.target)
    &&& lookup(entries, "result"@) == text_tree(m.result)
    &&& lookup(entries, "origin"@) == text_tree(m.origin)
    &&& lookup(entries, "instrument"@) == text_tree(m.instrument)
}

/// No two members of an activity share a key.
#[verifier::rlimit(50)]
pub proof fn lemma_activity_members_distinct(m: ActivityModel)
    ensures
        distinct_keys(activity_members(m)),
        record_of(activity_members(m)) == activity_members(m),
{
    broadcast use group_members;

    lemma_key_shapes();
    lemma_object_members_distinct(m.base);
    lemma_object_own_reads(m.base);
    let p0 = object_members(m.base);
    lemma_distinct_concat_optional(p0, "actor"@, tree_of_object(m.actor));
    let p1 = p0 + optional("actor"@, tree_of_object(m.actor));
    lemma_distinct_concat_optional(p1, "object"@, tree_of_object(m.object));
    let p2 = p1 + optional("object"@, tree_of_object(m.object));
    lemma_distinct_concat_optional(p2, "target"@, tree_of_object(m.target));
    let p3 = p2 + optional("target"@, tree_of_object(m.target));
    lemma_distinct_concat_optional(p3, "result"@, text_tree(m.result));
    let p4 = p3 + optional("result"@, text_tree(m.result));
    lemma_distinct_concat_optional(p4, "origin"@, text_tree(m.origin));
    let p5 = p4 + optional("origin"@, text_tree(m.origin));
    lemma_distinct_concat_optional(p5, "instrument"@, text_tree(m.instrument));
    let p6 = p5 + optional("instrument"@, text_tree(m.instrument));
    assert(p6 == activity_members(m));
    lemma_record_of_distinct(activity_members(m));
}

/// The members of an activity hold each of its properties under its key.
#[verifier::rlimit(50)]
pub proof fn lemma_activity_own_reads(m: ActivityModel)
    ensures
        activity_reads(activity_members(m), m),
{
    broadcast use group_members;

    lemma_key_shapes();
    lemma_object_own_reads(m.base);
}

/// Whatever list of members holds the properties of a valid activity is
/// read as that activity.
pub proof fn lemma_activity_parses(entries: Seq<(Seq<char>, JsonTree)>, m: ActivityModel)
    requires
        activity_valid(m),
        activity_reads(entries, m),
    ensures
        activity_parsed(JsonTree::Record(entries)) == Some(m),
{
    lemma_object_parses(entries, m.base, true);
    if let Some(o) = m.actor {
        lemma_object_on_its_own(o);
    }
    if let Some(o) = m.object {
        lemma_object_on_its_own(o);
    }
    if let Some(o) = m.target {
        lemma_object_on_its_own(o);
    }
}

/// Reading the JSON form of a valid activity gives the activity back.
pub proof fn lemma_activity_round_trip(m: ActivityModel)
    requires
        activity_valid(m),
    ensures
        activity_parsed(JsonTree::Record(record_of(activity_members(m)))) == Some(m),
{
    lemma_activity_members_distinct(m);
    lemma_activity_own_reads(m);
    lemma_activity_parses(activity_members(m), m);
}

/// An activity has a member under a key of its own exactly where it has the
/// property: an absent property leaves no key behind.
pub proof fn lemma_activity_omission(m: ActivityModel)
    ensures
        lookup(record_of(activity_members(m)), "actor"@) is Some <==> m.actor is Some,
        lookup(record_of(activity_members(m)), "object"@) is Some <==> m.object is Some,
        lookup(record_of(activity_members(m)), "target"@) is Some <==> m.target is Some,
        lookup(record_of(activity_members(m)), "result"@) is Some <==> m.result is Some,
        lookup(record_of(activity_members(m)), "origin"@) is Some <==> m.origin is Some,
        lookup(record_of(activity_members(m)), "instrument"@) is Some <==> m.instrument is Some,
{
    lemma_activity_members_distinct(m);
    lemma_activity_own_reads(m);
}

/// The keys under which an activity writes properties of its own.
pub open spec fn is_activity_key(key: Seq<char>) -> bool {
    key == "actor"@
        || key == "object"@
        || key == "target"@
        || key == "result"@
        || key == "origin"@
        || key == "instrument"@
}

/// The members of an activity begin with those of its base object.
pub proof fn lemma_activity_embeds(m: ActivityModel)
    ensures
        embeds(activity_members(m), m.base),
{
    let own = optional("actor"@, tree_of_object(m.actor))
        + optional("object"@, tree_of_object(m.object))
        + optional("target"@, tree_of_object(m.target))
        + optional("result"@, text_tree(m.result))
        + optional("origin"@, text_tree(m.origin))
        + optional("instrument"@, text_tree(m.instrument));
    assert(activity_members(m) =~= object_members(m.base) + own);
}

/// The members of an activity stand under the keys of its base object and its
/// own keys only; none stands under `base`.
#[verifier::rlimit(50)]
pub proof fn lemma_activity_member_keys(m: ActivityModel, key: Seq<char>)
    ensures
        lookup(activity_members(m), key) is Some ==> is_object_key(key) || is_activity_key(key),
        lookup(activity_members(m), "base"@) is None,
{
    broadcast use group_members;

    lemma_key_shapes();
    lemma_object_member_keys(m.base, key);
    lemma_object_member_keys(m.base, "base"@);
}

/// Every member of the base object is a member of the activity itself,
/// under the same key and with the same value.
#[verifier::rlimit(50)]
pub proof fn lemma_activity_flattening(m: ActivityModel, key: Seq<char>)
    ensures
        lookup(object_members(m.base), key) matches Some(value) ==> lookup(
            activity_members(m),
            key,
        ) == Some(value),
{
    broadcast use group_members;

    lemma_key_shapes();
    lemma_object_own_reads(m.base);
    lemma_object_member_keys(m.base, key);
}

/// Whether an activity has a property under the key: one that is always written,
/// or one that is set.
pub open spec fn activity_has(m: ActivityModel, key: Seq<char>) -> bool {
    ||| object_has(m.base, key)
    ||| key == "actor"@ && m.actor is Some
    ||| key == "object"@ && m.object is Some
    ||| key == "target"@ && m.target is Some
    ||| key == "result"@ && m.result is Some
    ||| key == "origin"@ && m.origin is Some
    ||| key == "instrument"@ && m.instrument is Some
}

/// An activity has a member under a key exactly where it has a property
/// under that key: what is unset leaves no key behind, and no other key is
/// written.
#[verifier::rlimit(50)]
pub proof fn lemma_activity_key_set(m: ActivityModel, key: Seq<char>)
    ensures
        lookup(activity_members(m), key) is Some <==> activity_has(m, key),
{
    broadcast use group_members;

    lemma_object_key_set(m.base, key);
}

impl ActivityStreamsSerialize for ActivityStreamsActivity {
    type Model = ActivityModel;

    open spec fn model(&self) -> ActivityModel {
        self@
    }

    open spec fn members(m: ActivityModel) -> Seq<(Seq<char>, JsonTree)> {
        activity_members(m)
    }

    open spec fn parsed(tree: JsonTree) -> Option<ActivityModel> {
        activity_parsed(tree)
    }

    open spec fn valid(m: ActivityModel) -> bool {
        activity_valid(m)
    }

    fn entries(&self) -> (r: Vec<(String, serde_json::Value)>) {
        let mut entries = self.base.entries();
        let actor = match &self.actor {
            Some(o) => Some(o.to_value()),
            None => None,
        };
        push_optional(&mut entries, "actor", actor);
        let object = match &self.object {
            Some(o) => Some(o.to_value()),
            None => None,
        };
        push_optional(&mut entries, "object", object);
        let target = match &self.target {
            Some(o) => Some(o.to_value()),
            None => None,
        };
        push_optional(&mut entries, "target", target);
        push_text(&mut entries, "result", &self.result);
        push_text(&mut entries, "origin", &self.origin);
        push_text(&mut entries, "instrument", &self.instrument);
        entries
    }

    fn from_value(v: &serde_json::Value) -> (r: Option<Self>) {
        let base = match ActivityStreamsObject::read(v, true) {
            Some(x) => x,
            None => { return None; },
        };
        let actor = match read_object(v, "actor") {
            Some(x) => x,
            None => { return None; },
        };
        let object = match read_object(v, "object") {
            Some(x) => x,
            None => { return None; },
        };
        let target = match read_object(v, "target") {
            Some(x) => x,
            None => { return None; },
        };
        let result = match read_text(v, "result") {
            Some(x) => x,
            None => { return None; },
        };
        let origin = match read_text(v, "origin") {
            Some(x) => x,
            None => { return None; },
        };
        let instrument = match read_text(v, "instrument") {
            Some(x) => x,
            None => { return None; },
        };
        if base.summary.is_none() {
            return None;
        }
        Some(ActivityStreamsActivity { base, actor, object, target, result, origin, instrument })
    }

    proof fn lemma_parsed_valid(tree: JsonTree) {
        lemma_object_parsed_valid(tree, true);
        if let Some(t) = member(tree, "actor"@) {
            lemma_object_parsed_valid(t, true);
        }
        if let Some(t) = member(tree, "object"@) {
            lemma_object_parsed_valid(t, true);
        }
        if let Some(t) = member(tree, "target"@) {
            lemma_object_parsed_valid(t, true);
        }
    }

    open spec fn has_property(m: ActivityModel, key: Seq<char>) -> bool {
        activity_has(m, key)
    }

    proof fn lemma_key_set(m: ActivityModel, key: Seq<char>) {
        lemma_activity_key_set(m, key);
    }

    proof fn lemma_sound(m: ActivityModel) {
        lemma_activity_members_distinct(m);
        lemma_object_sound(m.base);
        if let Some(o) = m.actor {
            lemma_object_sound(o);
        }
        if let Some(o) = m.object {
            lemma_object_sound(o);
        }
        if let Some(o) = m.target {
            lemma_object_sound(o);
        }
        let p0 = object_members(m.base);
        lemma_all_sound_add(p0, "actor"@, tree_of_object(m.actor));
        let p1 = p0 + optional("actor"@, tree_of_object(m.actor));
        lemma_all_sound_add(p1, "object"@, tree_of_object(m.object));
        let p2 = p1 + optional("object"@, tree_of_object(m.object));
        lemma_all_sound_add(p2, "target"@, tree_of_object(m.target));
        let p3 = p2 + optional("target"@, tree_of_object(m.target));
        lemma_all_sound_add(p3, "result"@, text_tree(m.result));
        let p4 = p3 + optional("result"@, text_tree(m.result));
        lemma_all_sound_add(p4, "origin"@, text_tree(m.origin));
        let p5 = p4 + optional("origin"@, text_tree(m.origin));
        lemma_all_sound_add(p5, "instrument"@, text_tree(m.instrument));
        let p6 = p5 + optional("instrument"@, text_tree(m.instrument));
        assert(p6 == activity_members(m));
    }

    #[verifier::rlimit(50)]
    proof fn lemma_reads_back(m: ActivityModel, context: Option<JsonTree>) {
        broadcast use group_members;

        lemma_key_shapes();
        lemma_activity_members_distinct(m);
        lemma_activity_own_reads(m);
        lemma_distinct_prepend("@context"@, context, activity_members(m));
        let entries = optional("@context"@, context) + activity_members(m);
        assert(activity_reads(entries, m));
        lemma_activity_parses(entries, m);
    }
}

/// Builds an activity from its type and summary.
pub struct ActivityStreamsActivityBuilder {
    pub base: ActivityStreamsObjectBuilder,
    pub actor: Option<ActorBuilder>,
    pub object: Option<ActivityStreamsObjectBuilder>,
    pub target: Option<ActivityStreamsObjectBuilder>,
    pub result: Option<String>,
    pub origin: Option<String>,
    pub instrument: Option<String>,
}

impl View for ActivityStreamsActivityBuilder {
    type V = ActivityModel;

    open spec fn view(&self) -> ActivityModel {
        ActivityModel {
            base: self.base@,
            actor: match self.actor {
                Some(b) => Some(b@),
                None => None,
            },
            object: match self.object {
                Some(b) => Some(b@),
                None => None,
            },
            target: match self.target {
                Some(b) => Some(b@),
                None => None,
            },
            result: text_model(self.result),
            origin: text_model(self.origin),
            instrument: text_model(self.instrument),
        }
    }
}

impl ActivityStreamsActivityBuilder {
    /// A builder for an activity of the given type, with the given summary
    /// and nothing else.
    pub fn new(activity_type: String, summary: String) -> (r: Self)
        ensures
            r@ == (ActivityModel {
                base: ObjectModel {
                    object_type: Some(activity_type@),
                    summary: Some(summary@),
                    ..ObjectModel::empty()
                },
                actor: None,
                object: None,
                target: None,
                result: None,
                origin: None,
                instrument: None,
            }),
            activity_valid(r@),
    {
        ActivityStreamsActivityBuilder {
            base: ActivityStreamsObjectBuilder::new().object_type(activity_type).summary(summary),
            actor: None,
            object: None,
            target: None,
            result: None,
            origin: None,
            instrument: None,
        }
    }

    /// Sets the time of publication.
    pub fn published(self, datetime: Timestamp) -> (r: Self)
        ensures
            r@ == (ActivityModel {
                base: ObjectModel { published: Some(datetime@), ..self@.base },
                ..self@
            }),
            activity_valid(self@) && datetime.valid() ==> activity_valid(r@),
    {
        let ActivityStreamsActivityBuilder {
            base,
            actor,
            object,
            target,
            result,
            origin,
            instrument,
        } = self;
        ActivityStreamsActivityBuilder {
            base: base.published(datetime),
            actor,
            object,
            target,
            result,
            origin,
            instrument,
        }
    }

    /// Sets the actor to what the given builder describes.
    pub fn actor(self, actor: ActorBuilder) -> (r: Self)
        ensures
            r@ == (ActivityModel { actor: Some(actor@), ..self@ }),
            activity_valid(self@) && object_valid(actor@) ==> activity_valid(r@),
    {
        let mut builder = self;
        builder.actor = Some(actor);
        builder
    }

    /// Sets the object acted upon to what the given builder describes.
    pub fn object(self, object: ActivityStreamsObjectBuilder) -> (r: Self)
        ensures
            r@ == (ActivityModel { object: Some(object@), ..self@ }),
            activity_valid(self@) && object_valid(object@) ==> activity_valid(r@),
    {
        let mut builder = self;
        builder.object = Some(object);
        builder
    }

    /// Sets the target to what the given builder describes.
    pub fn target(self, target: ActivityStreamsObjectBuilder) -> (r: Self)
        ensures
            r@ == (ActivityModel { target: Some(target@), ..self@ }),
            activity_valid(self@) && object_valid(target@) ==> activity_valid(r@),
    {
        let mut builder = self;
        builder.target = Some(target);
        builder
    }

    /// Sets the result.
    pub fn result(self, result: String) -> (r: Self)
        ensures
            r@ == (ActivityModel { result: Some(result@), ..self@ }),
            activity_valid(self@) ==> activity_valid(r@),
    {
        let mut builder = self;
        builder.result = Some(result);
        builder
    }

    /// Sets the origin.
    pub fn origin(self, origin: String) -> (r: Self)
        ensures
            r@ == (ActivityModel { origin: Some(origin@), ..self@ }),
            activity_valid(self@) ==> activity_valid(r@),
    {
        let mut builder = self;
        builder.origin = Some(origin);
        builder
    }

    /// Sets the instrument.
    pub fn instrument(self, instrument: String) -> (r: Self)
        ensures
            r@ == (ActivityModel { instrument: Some(instrument@), ..self@ }),
            activity_valid(self@) ==> activity_valid(r@),
    {
        let mut builder = self;
        builder.instrument = Some(instrument);
        builder
    }

    /// The activity that was built; nested builders are finished along with
    /// it.
    pub fn build(self) -> (r: ActivityStreamsActivity)
        ensures
            r@ == self@,
    {
        ActivityStreamsActivity {
            base: self.base.build(),
            actor: match self.actor {
                Some(b) => Some(b.build()),
                None => None,
            },
            object: match self.object {
                Some(b) => Some(b.build()),
                None => None,
            },
            target: match self.target {
                Some(b) => Some(b.build()),
                None => None,
            },
            result: self.result,
            origin: self.origin,
            instrument: self.instrument,
        }
    }
}

} // verus!
