//! A typed document model for the Activity Streams 2.0 vocabulary.
//!
//! Terms (objects, links, previews, activities, collections) are assembled
//! with builders, paired with a processing context in a document, and
//! converted to and from JSON. In the JSON form a term that is built on the
//! base object carries the base object's properties among its own, and a
//! property that is absent has no key.
//!
//! Every term has a mathematical model. The JSON that a term becomes and the
//! term that a JSON value is read as are stated over those models, and so are
//! the laws that tie the two together: reading what was written gives the
//! term back.
//!
//! JSON values, their texts, references and timestamps come from
//! `serde_json`, `http` and `chrono`; what is taken on trust of them is
//! stated where they are called, in `json`, `uri` and `time`.

pub mod activity;
pub mod builders;
pub mod collection;
pub mod context;
pub mod document;
pub mod extended;
pub mod intransitive;
pub mod items;
pub mod json;
pub mod keys;
pub mod object;
pub mod object_laws;
pub mod term;
pub mod time;
pub mod uri;
