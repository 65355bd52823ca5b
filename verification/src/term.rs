//! What every term of the vocabulary offers: its members, and its JSON text.

use crate::json::{
    compact_text, distinct_keys, entries_model, json_tree, lemma_record_of_distinct, lookup,
    optional, parse_value, parsed_tree, pretty_text, record_of, record_value, render_compact,
    render_pretty, sound, written_text, JsonTree,
};
use vstd::prelude::*;

verus! {

/// Why a text could not be read as a term.
#[derive(Debug, PartialEq, Eq, Clone, Copy)]
pub enum ParseError {
    /// The text is not one JSON value.
    Syntax,
    /// The JSON value lacks a required property, or holds a property of the
    /// wrong kind.
    Shape,
}

/// A term could not be written as JSON text.
#[derive(Debug, PartialEq, Eq, Clone, Copy)]
pub struct SerializeError;

/// The result of writing a JSON text, with the error as this library's own.
pub fn written(outcome: Result<String, serde_json::Error>) -> (r: Result<String, SerializeError>)
    ensures
        r == match outcome {
            Ok(text) => Ok::<String, SerializeError>(text),
            Err(_) => Err(SerializeError),
        },
{
    match outcome {
        Ok(text) => Ok(text),
        Err(_) => Err(SerializeError),
    }
}

/// A term of the vocabulary: a value with a model, whose JSON form is a list
/// of members and which can be read back from a JSON value.
pub trait ActivityStreamsSerialize: Sized {
    /// The mathematical model of the term.
    type Model;

    /// The model of this term.
    spec fn model(&self) -> Self::Model;

    /// The members of the term's JSON form, in order.
    spec fn members(m: Self::Model) -> Seq<(Seq<char>, JsonTree)>;

    /// The term that a tree denotes, if it denotes one.
    spec fn parsed(tree: JsonTree) -> Option<Self::Model>;

    /// Whether a model is one that a well-formed term has.
    spec fn valid(m: Self::Model) -> bool;

    /// Whatever a tree is read as is valid.
    proof fn lemma_parsed_valid(tree: JsonTree)
        ensures
            Self::parsed(tree) matches Some(m) ==> Self::valid(m),
    ;

    /// Whether the term has a property under the key: one that is always
    /// written, or one that is set.
    spec fn has_property(m: Self::Model, key: Seq<char>) -> bool;

    /// The term has a member under a key exactly where it has a property
    /// under that key: what is unset leaves no key behind, and no other key
    /// is written.
    proof fn lemma_key_set(m: Self::Model, key: Seq<char>)
        ensures
            lookup(Self::members(m), key) is Some <==> Self::has_property(m, key),
    ;

    /// The JSON form of a valid term holds no null anywhere, and no record in
    /// it has a key twice.
    proof fn lemma_sound(m: Self::Model)
        requires
            Self::valid(m),
        ensures
            sound(JsonTree::Record(Self::members(m))),
    ;

    /// The members of a valid term have distinct keys, and are read back as
    /// the term; both also with a processing context put in front of them.
    proof fn lemma_reads_back(m: Self::Model, context: Option<JsonTree>)
        requires
            Self::valid(m),
        ensures
            distinct_keys(optional("@context"@, context) + Self::members(m)),
            Self::parsed(JsonTree::Record(optional("@context"@, context) + Self::members(m)))
                == Some(m),
    ;

    /// The members of this term as keyed JSON values, in order.
    fn entries(&self) -> (r: Vec<(String, serde_json::Value)>)
        ensures
            entries_model(r@) == Self::members(self.model()),
    ;

    /// Reads a term from a JSON value.
    fn from_value(v: &serde_json::Value) -> (r: Option<Self>)
        ensures
            match r {
                Some(t) => Self::parsed(json_tree(*v)) == Some(t.model()),
                None => Self::parsed(json_tree(*v)) is None,
            },
    ;

    /// The term as a JSON value.
    fn to_value(&self) -> (v: serde_json::Value)
        ensures
            json_tree(v) == JsonTree::Record(record_of(Self::members(self.model()))),
    {
        record_value(self.entries())
    }

    /// The term as compact JSON text. Writing always succeeds.
    fn to_json(&self) -> (r: Result<String, SerializeError>)
        ensures
            written_text(r) == compact_text(
                JsonTree::Record(record_of(Self::members(self.model()))),
            ),
            r is Ok,
    {
        let v = self.to_value();
        written(render_compact(&v))
    }

    /// The term as JSON text indented by two spaces. Writing always succeeds.
    fn to_json_pretty(&self) -> (r: Result<String, SerializeError>)
        ensures
            written_text(r) == pretty_text(
                JsonTree::Record(record_of(Self::members(self.model()))),
            ),
            r is Ok,
    {
        let v = self.to_value();
        written(render_pretty(&v))
    }

    /// Reads a term from the outcome of parsing a text.
    fn from_parsed(outcome: Result<serde_json::Value, serde_json::Error>) -> (r: Result<
        Self,
        ParseError,
    >)
        ensures
            match r {
                Ok(t) => outcome matches Ok(v) && Self::parsed(json_tree(v)) == Some(t.model()),
                Err(ParseError::Syntax) => outcome is Err,
                Err(ParseError::Shape) => outcome matches Ok(v) && Self::parsed(json_tree(v))
                    is None,
            },
            r matches Ok(t) ==> Self::valid(t.model()),
    {
        match outcome {
            Ok(v) => {
                proof {
                    Self::lemma_parsed_valid(json_tree(v));
                }
                match Self::from_value(&v) {
                    Some(t) => Ok(t),
                    None => Err(ParseError::Shape),
                }
            },
            Err(_) => Err(ParseError::Syntax),
        }
    }

    /// Reads a term from JSON text.
    fn from_json(json: String) -> (r: Result<Self, ParseError>)
        ensures
            match r {
                Ok(t) => parsed_tree(json@) matches Some(tree) && Self::parsed(tree) == Some(
                    t.model(),
                ),
                Err(ParseError::Syntax) => parsed_tree(json@) is None,
                Err(ParseError::Shape) => parsed_tree(json@) matches Some(tree) && Self::parsed(
                    tree,
                ) is None,
            },
            r matches Ok(t) ==> Self::valid(t.model()),
    {
        Self::from_parsed(parse_value(json.as_str()))
    }
}

/// Reading the JSON form of a valid term gives the term back.
pub proof fn lemma_term_round_trip<T: ActivityStreamsSerialize>(m: T::Model)
    requires
        T::valid(m),
    ensures
        record_of(T::members(m)) == T::members(m),
        T::parsed(term_tree::<T>(m)) == Some(m),
{
    T::lemma_reads_back(m, None);
    assert(optional("@context"@, None) + T::members(m) =~= T::members(m)) by {
        reveal(optional);
    }
    lemma_record_of_distinct(T::members(m));
}

/// Writes a term as a JSON value and reads it back. For a valid term this
/// gives a term with the same model.
pub fn reread<T: ActivityStreamsSerialize>(term: &T) -> (r: Option<T>)
    ensures
        match r {
            Some(t) => T::parsed(term_tree::<T>(term.model())) == Some(t.model()),
            None => T::parsed(term_tree::<T>(term.model())) is None,
        },
        T::valid(term.model()) ==> (r matches Some(t) && t.model() == term.model()),
{
    proof {
        if T::valid(term.model()) {
            lemma_term_round_trip::<T>(term.model());
        }
    }
    let v = term.to_value();
    T::from_value(&v)
}

/// The JSON form of a term: the record of its members.
pub open spec fn term_tree<T: ActivityStreamsSerialize>(m: T::Model) -> JsonTree {
    JsonTree::Record(record_of(T::members(m)))
}

} // verus!
