//! Terms beside the core ones: actors, and the term without properties.

use crate::builders::{ActivityStreamsLinkBuilder, ActivityStreamsObjectBuilder};
use crate::json::{
    entries_model, is_record, lemma_all_sound_optional, lemma_distinct_optional,
    lemma_lookup_optional, optional, JsonTree,
};
pub use crate::object::Actor;
use crate::object_laws::{link_valid, object_valid};
use crate::object::ObjectModel;
use crate::term::ActivityStreamsSerialize;
use crate::uri::uri_string;
use vstd::prelude::*;

verus! {


/// Builds an actor from its type.
pub struct ActorBuilder {
    pub base: ActivityStreamsObjectBuilder,
}

impl View for ActorBuilder {
    type V = ObjectModel;

    open spec fn view(&self) -> ObjectModel {
        self.base@
    }
}

impl ActorBuilder {
    /// A builder for an actor of the given type and nothing else.
    pub fn new(actor_type: String) -> (r: Self)
        ensures
            r@ == (ObjectModel { object_type: Some(actor_type@), ..ObjectModel::empty() }),
            object_valid(r@),
    {
        ActorBuilder { base: ActivityStreamsObjectBuilder::new().object_type(actor_type) }
    }

    /// Sets the identifier to the text of a reference.
    pub fn id(self, id: http::Uri) -> (r: Self)
        ensures
            r@ == (ObjectModel { id: Some(uri_string(id)), ..self@ }),
            object_valid(self@) ==> object_valid(r@),
    {
        ActorBuilder { base: self.base.id(id) }
    }

    /// Sets the name.
    pub fn name(self, name: String) -> (r: Self)
        ensures
            r@ == (ObjectModel { name: Some(name@), ..self@ }),
            object_valid(self@) ==> object_valid(r@),
    {
        ActorBuilder { base: self.base.name(name) }
    }

    /// Sets the URL to the text of a reference.
    pub fn url(self, url: http::Uri) -> (r: Self)
        ensures
            r@ == (ObjectModel { url: Some(uri_string(url)), ..self@ }),
            object_valid(self@) ==> object_valid(r@),
    {
        ActorBuilder { base: self.base.url(url) }
    }

    /// Sets the image to the link that the given builder describes.
    pub fn image(self, image: ActivityStreamsLinkBuilder) -> (r: Self)
        ensures
            r@ == (ObjectModel { image: Some(Box::new(image@)), ..self@ }),
            object_valid(self@) && link_valid(image@) ==> object_valid(r@),
    {
        ActorBuilder { base: self.base.image(image) }
    }

    /// The actor that was built.
    pub fn build(self) -> (r: Actor)
        ensures
            r@ == self@,
    {
        self.base.build()
    }
}

/// The term without properties: it stands where a term is asked for and
/// there is nothing to say.
#[derive(Debug, Clone, Copy, PartialEq, Eq)]
pub struct Null;

impl ActivityStreamsSerialize for Null {
    type Model = ();

    open spec fn model(&self) -> () {
        ()
    }

    open spec fn members(m: ()) -> Seq<(Seq<char>, JsonTree)> {
        Seq::empty()
    }

    open spec fn parsed(tree: JsonTree) -> Option<()> {
        if tree is Record {
            Some(())
        } else {
            None
        }
    }

    open spec fn valid(m: ()) -> bool {
        true
    }

    fn entries(&self) -> (r: Vec<(String, serde_json::Value)>) {
        let entries: Vec<(String, serde_json::Value)> = Vec::new();
        assert(entries_model(entries@) =~= Seq::empty());
        entries
    }

    fn from_value(v: &serde_json::Value) -> (r: Option<Self>) {
        if is_record(v) {
            Some(Null)
        } else {
            None
        }
    }

    proof fn lemma_parsed_valid(tree: JsonTree) {
    }

    open spec fn has_property(m: (), key: Seq<char>) -> bool {
        false
    }

    proof fn lemma_key_set(m: (), key: Seq<char>) {
        lemma_lookup_optional("@context"@, None, key);
        assert(optional("@context"@, None) =~= Seq::empty()) by {
            reveal(optional);
        }
    }

    proof fn lemma_sound(m: ()) {
        lemma_distinct_optional("@context"@, None);
        lemma_all_sound_optional("@context"@, None);
        assert(optional("@context"@, None) =~= Seq::empty()) by {
            reveal(optional);
        }
    }

    proof fn lemma_reads_back(m: (), context: Option<JsonTree>) {
        lemma_distinct_optional("@context"@, context);
        assert(optional("@context"@, context) + Seq::empty() =~= optional("@context"@, context));
    }
}

} // verus!
