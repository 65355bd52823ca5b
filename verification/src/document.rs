//! A document: one term together with its processing context.

use crate::context::{
    context_parsed, context_tree, lemma_context_round_trip, lemma_context_sound,
    ActivityStreamsContext, ContextModel,
};
use crate::json::{
    compact_text, entries_model, get_member, group_members, json_tree, lemma_all_sound_concat,
    lemma_all_sound_optional, lemma_lookup_front, lemma_record_of_distinct, lookup, member,
    optional, parse_value, parsed_tree, pretty_text, push_member, record_of, record_value,
    render_compact, render_pretty, sound, written_text, JsonTree,
};
use crate::term::{written, ActivityStreamsSerialize, ParseError, SerializeError};
use vstd::prelude::*;

verus! {

/// A processing context and exactly one term. In the JSON form the context
/// stands under `@context` and the term's members stand beside it.
#[derive(Debug)]
pub struct ActivityStreamsDocument<T: ActivityStreamsSerialize> {
    pub context: ActivityStreamsContext,
    pub object: T,
}

/// The mathematical model of a document over the model of its term.
pub struct DocumentModel<M> {
    pub context: ContextModel,
    pub object: M,
}

impl<T: ActivityStreamsSerialize> View for ActivityStreamsDocument<T> {
    type V = DocumentModel<T::Model>;

    open spec fn view(&self) -> DocumentModel<T::Model> {
        DocumentModel { context: self.context@, object: self.object.model() }
    }
}

/// The members of a document: the context first, then the members of the
/// term.
pub open spec fn document_members<T: ActivityStreamsSerialize>(
    m: DocumentModel<T::Model>,
) -> Seq<(Seq<char>, JsonTree)> {
    optional("@context"@, Some(context_tree(m.context))) + T::members(m.object)
}

/// The JSON form of a document: one record.
pub open spec fn document_tree<T: ActivityStreamsSerialize>(
    m: DocumentModel<T::Model>,
) -> JsonTree {
    JsonTree::Record(record_of(document_members::<T>(m)))
}

/// The document that a tree denotes: the context is read from the member
/// `@context`, the term from the tree as a whole.
pub open spec fn document_parsed<T: ActivityStreamsSerialize>(tree: JsonTree) -> Option<
    DocumentModel<T::Model>,
> {
    match member(tree, "@context"@) {
        Some(c) => match (context_parsed(c), T::parsed(tree)) {
            (Some(context), Some(object)) => Some(DocumentModel { context, object }),
            _ => None,
        },
        None => None,
    }
}

/// A document is valid when its context and its term are.
pub open spec fn document_valid<T: ActivityStreamsSerialize>(m: DocumentModel<T::Model>) -> bool {
    m.context.valid() && T::valid(m.object)
}

/// No two members of a valid document share a key, so its record holds
/// exactly its members: the context first, then those of the term.
pub proof fn lemma_document_members_distinct<T: ActivityStreamsSerialize>(
    m: DocumentModel<T::Model>,
)
    requires
        document_valid::<T>(m),
    ensures
        record_of(document_members::<T>(m)) == document_members::<T>(m),
        member(document_tree::<T>(m), "@context"@) == Some(context_tree(m.context)),
{
    T::lemma_reads_back(m.object, Some(context_tree(m.context)));
    lemma_record_of_distinct(document_members::<T>(m));
    lemma_lookup_front("@context"@, context_tree(m.context), T::members(m.object));
}

/// The JSON form of a valid document holds no null anywhere, and no record
/// in it has a key twice.
pub proof fn lemma_document_sound<T: ActivityStreamsSerialize>(m: DocumentModel<T::Model>)
    requires
        document_valid::<T>(m),
    ensures
        sound(document_tree::<T>(m)),
{
    lemma_document_members_distinct::<T>(m);
    T::lemma_reads_back(m.object, Some(context_tree(m.context)));
    T::lemma_sound(m.object);
    lemma_context_sound(m.context);
    lemma_all_sound_optional("@context"@, Some(context_tree(m.context)));
    lemma_all_sound_concat(
        optional("@context"@, Some(context_tree(m.context))),
        T::members(m.object),
    );
}

/// Whatever is read as a document is valid.
pub proof fn lemma_document_parsed_valid<T: ActivityStreamsSerialize>(tree: JsonTree)
    ensures
        document_parsed::<T>(tree) matches Some(m) ==> document_valid::<T>(m),
{
    T::lemma_parsed_valid(tree);
}

/// Reading the JSON form of a valid document gives the document back.
pub proof fn lemma_document_round_trip<T: ActivityStreamsSerialize>(m: DocumentModel<T::Model>)
    requires
        document_valid::<T>(m),
    ensures
        document_parsed::<T>(document_tree::<T>(m)) == Some(m),
{
    lemma_document_members_distinct::<T>(m);
    T::lemma_reads_back(m.object, Some(context_tree(m.context)));
    lemma_context_round_trip(m.context);
}

/// Beside `@context`, the members of a document are the members of its
/// term, each under its own key and with its own value: the term is not
/// nested under a key, and the document has no key that the term lacks.
#[verifier::rlimit(50)]
pub proof fn lemma_document_flattening<T: ActivityStreamsSerialize>(
    m: DocumentModel<T::Model>,
    key: Seq<char>,
)
    requires
        document_valid::<T>(m),
    ensures
        key != "@context"@ ==> member(document_tree::<T>(m), key) == lookup(
            T::members(m.object),
            key,
        ),
        lookup(T::members(m.object), key) matches Some(value) ==> member(
            document_tree::<T>(m),
            key,
        ) == Some(value),
{
    broadcast use group_members;

    lemma_document_members_distinct::<T>(m);
}

impl<T: ActivityStreamsSerialize> ActivityStreamsDocument<T> {
    /// The document of a term in a context.
    pub fn new(context: ActivityStreamsContext, object: T) -> (r: Self)
        ensures
            r.context == context,
            r.object == object,
    {
        ActivityStreamsDocument { context, object }
    }

    /// The document as a JSON value.
    pub fn to_value(&self) -> (v: serde_json::Value)
        ensures
            json_tree(v) == document_tree::<T>(self@),
    {
        let mut entries: Vec<(String, serde_json::Value)> = Vec::new();
        assert(entries_model(entries@) =~= Seq::empty());
        push_member(&mut entries, "@context", self.context.to_value());
        let ghost front = entries_model(entries@);
        let mut rest = self.object.entries();
        let ghost back = entries_model(rest@);
        entries.append(&mut rest);
        assert(entries_model(entries@) =~= front + back);
        assert(front =~= optional("@context"@, Some(context_tree(self@.context))));
        record_value(entries)
    }

    /// The document as compact JSON text. Writing always succeeds.
    pub fn to_json(&self) -> (r: Result<String, SerializeError>)
        ensures
            written_text(r) == compact_text(document_tree::<T>(self@)),
            r is Ok,
    {
        let v = self.to_value();
        written(render_compact(&v))
    }

    /// The document as JSON text indented by two spaces. Writing always succeeds.
    pub fn to_json_pretty(&self) -> (r: Result<String, SerializeError>)
        ensures
            written_text(r) == pretty_text(document_tree::<T>(self@)),
            r is Ok,
    {
        let v = self.to_value();
        written(render_pretty(&v))
    }

    /// Reads a document from a JSON value.
    pub fn from_value(v: &serde_json::Value) -> (r: Option<Self>)
        ensures
            match r {
                Some(d) => document_parsed::<T>(json_tree(*v)) == Some(d@),
                None => document_parsed::<T>(json_tree(*v)) is None,
            },
    {
        let context = match get_member(v, "@context") {
            Some(c) => match ActivityStreamsContext::from_value(c) {
                Some(context) => context,
                None => { return None; },
            },
            None => { return None; },
        };
        match T::from_value(v) {
            Some(object) => Some(ActivityStreamsDocument { context, object }),
            None => None,
        }
    }

    /// Reads a document from the outcome of parsing a text.
    pub fn from_parsed(outcome: Result<serde_json::Value, serde_json::Error>) -> (r: Result<
        Self,
        ParseError,
    >)
        ensures
            match r {
                Ok(d) => outcome matches Ok(v) && document_parsed::<T>(json_tree(v)) == Some(d@),
                Err(ParseError::Syntax) => outcome is Err,
                Err(ParseError::Shape) => outcome matches Ok(v) && document_parsed::<T>(
                    json_tree(v),
                ) is None,
            },
            r matches Ok(d) ==> document_valid::<T>(d@),
    {
        match outcome {
            Ok(v) => {
                proof {
                    lemma_document_parsed_valid::<T>(json_tree(v));
                }
                match Self::from_value(&v) {
                    Some(d) => Ok(d),
                    None => Err(ParseError::Shape),
                }
            },
            Err(_) => Err(ParseError::Syntax),
        }
    }

    /// Reads a document from JSON text.
    pub fn from_json(json: String) -> (r: Result<Self, ParseError>)
        ensures
            match r {
                Ok(d) => parsed_tree(json@) matches Some(tree) && document_parsed::<T>(tree)
                    == Some(d@),
                Err(ParseError::Syntax) => parsed_tree(json@) is None,
                Err(ParseError::Shape) => parsed_tree(json@) matches Some(tree)
                    && document_parsed::<T>(tree) is None,
            },
            r matches Ok(d) ==> document_valid::<T>(d@),
    {
        Self::from_parsed(parse_value(json.as_str()))
    }
}

} // verus!
