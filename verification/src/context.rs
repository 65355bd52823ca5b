//! The processing context of a document.

use crate::json::{
    as_text, distinct_keys, entries_model, get_member, group_members, json_tree,
    lemma_all_sound_add, lemma_all_sound_optional, lemma_distinct_concat_optional,
    lemma_distinct_optional, lemma_record_of_distinct, member, optional, push_member, push_text,
    read_text, record_of, record_value, sound, text_field, text_model, text_tree, text_value,
    JsonTree,
};
use crate::keys::lemma_key_shapes;
use vstd::prelude::*;

verus! {

/// The `@context` declaration: the vocabulary's namespace and an optional
/// default language.
#[derive(Debug, Clone)]
pub struct ActivityStreamsContext {
    pub namespace: String,
    pub language: Option<String>,
}

/// The mathematical model of a context.
pub struct ContextModel {
    pub namespace: Seq<char>,
    pub language: Option<Seq<char>>,
}

impl View for ActivityStreamsContext {
    type V = ContextModel;

    open spec fn view(&self) -> ContextModel {
        ContextModel { namespace: self.namespace@, language: text_model(self.language) }
    }
}

/// The namespace of the Activity Streams vocabulary.
pub open spec fn vocabulary_namespace() -> Seq<char> {
    "https://www.w3.org/ns/activitystreams"@
}

/// The members of a context: the namespace, then the language if there is
/// one.
pub open spec fn context_members(c: ContextModel) -> Seq<(Seq<char>, JsonTree)> {
    optional("@vocab"@, Some(JsonTree::Text(c.namespace))) + optional(
        "@language"@,
        text_tree(c.language),
    )
}

/// The JSON form of a context.
pub open spec fn context_tree(c: ContextModel) -> JsonTree {
    JsonTree::Record(context_members(c))
}

/// The context that a tree denotes: its `@vocab` member must be a non-empty
/// string, its `@language` member a string if present.
pub open spec fn context_parsed(tree: JsonTree) -> Option<ContextModel> {
    match (member(tree, "@vocab"@), text_field(tree, "@language"@)) {
        (Some(JsonTree::Text(namespace)), Some(language)) => if namespace.len() > 0 {
            Some(ContextModel { namespace, language })
        } else {
            None
        },
        _ => None,
    }
}

impl ContextModel {
    /// A context always names a namespace.
    pub open spec fn valid(self) -> bool {
        self.namespace.len() > 0
    }
}

/// The members of a context have distinct keys.
#[verifier::rlimit(50)]
pub proof fn lemma_context_members_distinct(c: ContextModel)
    ensures
        distinct_keys(context_members(c)),
        record_of(context_members(c)) == context_members(c),
{
    broadcast use group_members;

    lemma_key_shapes();
    lemma_distinct_optional("@vocab"@, Some(JsonTree::Text(c.namespace)));
    lemma_distinct_concat_optional(
        optional("@vocab"@, Some(JsonTree::Text(c.namespace))),
        "@language"@,
        text_tree(c.language),
    );
    lemma_record_of_distinct(context_members(c));
}

/// A context without a language is the record of its namespace under
/// `@vocab`; with a language, `@language` follows.
pub proof fn lemma_context_shape(c: ContextModel)
    ensures
        context_tree(c) == JsonTree::Record(
            match c.language {
                None => seq![("@vocab"@, JsonTree::Text(c.namespace))],
                Some(language) => seq![
                    ("@vocab"@, JsonTree::Text(c.namespace)),
                    ("@language"@, JsonTree::Text(language)),
                ],
            },
        ),
{
    reveal(optional);
    match c.language {
        None => {
            assert(context_members(c) =~= seq![("@vocab"@, JsonTree::Text(c.namespace))]);
        },
        Some(language) => {
            assert(context_members(c) =~= seq![
                ("@vocab"@, JsonTree::Text(c.namespace)),
                ("@language"@, JsonTree::Text(language)),
            ]);
        },
    }
}

/// The JSON form of a context holds no null and no key twice.
pub proof fn lemma_context_sound(c: ContextModel)
    ensures
        sound(context_tree(c)),
{
    lemma_context_members_distinct(c);
    lemma_all_sound_optional("@vocab"@, Some(JsonTree::Text(c.namespace)));
    lemma_all_sound_add(
        optional("@vocab"@, Some(JsonTree::Text(c.namespace))),
        "@language"@,
        text_tree(c.language),
    );
}

/// Reading the JSON form of a valid context gives the context back.
#[verifier::rlimit(50)]
pub proof fn lemma_context_round_trip(c: ContextModel)
    requires
        c.valid(),
    ensures
        context_parsed(context_tree(c)) == Some(c),
{
    broadcast use group_members;

    lemma_key_shapes();
}

impl ActivityStreamsContext {
    /// The context as a JSON value.
    pub fn to_value(&self) -> (v: serde_json::Value)
        ensures
            json_tree(v) == context_tree(self@),
    {
        let mut entries: Vec<(String, serde_json::Value)> = Vec::new();
        assert(entries_model(entries@) =~= Seq::empty());
        push_member(&mut entries, "@vocab", text_value(self.namespace.as_str()));
        push_text(&mut entries, "@language", &self.language);
        proof {
            assert(entries_model(entries@) =~= context_members(self@));
            lemma_context_members_distinct(self@);
        }
        record_value(entries)
    }

    /// Reads a context from a JSON value.
    pub fn from_value(v: &serde_json::Value) -> (r: Option<ActivityStreamsContext>)
        ensures
            match r {
                Some(c) => context_parsed(json_tree(*v)) == Some(c@),
                None => context_parsed(json_tree(*v)) is None,
            },
    {
        let namespace = match get_member(v, "@vocab") {
            Some(m) => match as_text(m) {
                Some(s) => s.to_owned(),
                None => { return None; },
            },
            None => { return None; },
        };
        if namespace.as_str().unicode_len() == 0 {
            return None;
        }
        match read_text(v, "@language") {
            Some(language) => Some(ActivityStreamsContext { namespace, language }),
            None => None,
        }
    }
}

/// Builds a context, starting from the vocabulary's namespace.
#[derive(Clone)]
pub struct ActivityStreamsContextBuilder {
    pub namespace: String,
    pub language: Option<String>,
}

impl View for ActivityStreamsContextBuilder {
    type V = ContextModel;

    open spec fn view(&self) -> ContextModel {
        ContextModel { namespace: self.namespace@, language: text_model(self.language) }
    }
}

impl ActivityStreamsContextBuilder {
    /// A builder for the context of the vocabulary, without a language.
    pub fn new() -> (r: Self)
        ensures
            r@ == (ContextModel { namespace: vocabulary_namespace(), language: None }),
            r@.valid(),
    {
        proof {
            reveal_strlit("https://www.w3.org/ns/activitystreams");
        }
        ActivityStreamsContextBuilder {
            namespace: "https://www.w3.org/ns/activitystreams".to_owned(),
            language: None,
        }
    }

    /// Sets the default language.
    pub fn language(self, language: String) -> (r: Self)
        ensures
            r@ == (ContextModel { language: Some(language@), ..self@ }),
    {
        let mut builder = self;
        builder.language = Some(language);
        builder
    }

    /// The context that was built.
    pub fn build(self) -> (r: ActivityStreamsContext)
        ensures
            r@ == self@,
    {
        ActivityStreamsContext { namespace: self.namespace, language: self.language }
    }
}

} // verus!
