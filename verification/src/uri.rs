//! A link target: a reference with an optional media type.

use crate::json::{
    as_text, distinct_keys, entries_model, get_member, group_members, json_tree,
    lemma_all_sound_add, lemma_all_sound_optional, lemma_distinct_concat_optional,
    lemma_distinct_optional, lemma_distinct_prepend, lemma_record_of_distinct, lookup, member,
    optional, push_member, push_text, read_text, record_of, record_value, sound, text_field,
    text_model, text_tree, text_value, JsonTree,
};
use crate::keys::lemma_key_shapes;
use crate::term::ActivityStreamsSerialize;
use vstd::prelude::*;

verus! {

/// Declares `http::Uri` as an opaque type.
#[verifier::external_type_specification]
#[verifier::external_body]
pub struct ExUri(http::Uri);

/// The text that `http::Uri` displays as.
pub uninterp spec fn uri_string(uri: http::Uri) -> Seq<char>;

/// `ToString::to_string` on an `http::Uri`: the text that the reference
/// displays as.
#[verifier::external_body]
pub(crate) fn uri_text(uri: &http::Uri) -> (r: String)
    ensures
        r@ == uri_string(*uri),
{
    uri.to_string()
}

/// A reference and the media type of what it refers to.
#[derive(Debug, Clone)]
pub struct ActivityStreamsUri {
    pub href: String,
    pub media_type: Option<String>,
}

/// The mathematical model of a link target.
pub struct UriModel {
    pub href: Seq<char>,
    pub media_type: Option<Seq<char>>,
}

impl View for ActivityStreamsUri {
    type V = UriModel;

    open spec fn view(&self) -> UriModel {
        UriModel { href: self.href@, media_type: text_model(self.media_type) }
    }
}

/// The model of an optional link target.
pub open spec fn uri_model(u: Option<ActivityStreamsUri>) -> Option<UriModel> {
    match u {
        Some(u) => Some(u@),
        None => None,
    }
}

/// The members of a link target: the reference, then the media type if there
/// is one.
pub open spec fn uri_members(u: UriModel) -> Seq<(Seq<char>, JsonTree)> {
    optional("href"@, Some(JsonTree::Text(u.href)))
        + optional("mediaType"@, text_tree(u.media_type))
}

/// The JSON form of a link target that stands on its own.
pub open spec fn uri_tree(u: UriModel) -> JsonTree {
    JsonTree::Record(record_of(uri_members(u)))
}

/// The link target that a tree denotes: `href` must be a string, `mediaType`
/// a string if present.
pub open spec fn uri_parsed(tree: JsonTree) -> Option<UriModel> {
    match (member(tree, "href"@), text_field(tree, "mediaType"@)) {
        (Some(JsonTree::Text(href)), Some(media_type)) => Some(UriModel { href, media_type }),
        _ => None,
    }
}

/// The members of a link target have distinct keys.
#[verifier::rlimit(50)]
pub proof fn lemma_uri_members_distinct(u: UriModel)
    ensures
        distinct_keys(uri_members(u)),
        record_of(uri_members(u)) == uri_members(u),
{
    broadcast use group_members;

    lemma_key_shapes();
    lemma_distinct_optional("href"@, Some(JsonTree::Text(u.href)));
    lemma_distinct_concat_optional(
        optional("href"@, Some(JsonTree::Text(u.href))),
        "mediaType"@,
        text_tree(u.media_type),
    );
    lemma_record_of_distinct(uri_members(u));
}

/// The JSON form of a link target holds no null and no key twice.
pub proof fn lemma_uri_sound(u: UriModel)
    ensures
        sound(JsonTree::Record(uri_members(u))),
        sound(uri_tree(u)),
{
    lemma_uri_members_distinct(u);
    lemma_all_sound_optional("href"@, Some(JsonTree::Text(u.href)));
    lemma_all_sound_add(
        optional("href"@, Some(JsonTree::Text(u.href))),
        "mediaType"@,
        text_tree(u.media_type),
    );
}

/// Whether a link target has a property under the key: one that is always written,
/// or one that is set.
pub open spec fn uri_has(m: UriModel, key: Seq<char>) -> bool {
    ||| key == "href"@
    ||| key == "mediaType"@ && m.media_type is Some
}

/// A link target has a member under a key exactly where it has a property
/// under that key: what is unset leaves no key behind, and no other key is
/// written.
#[verifier::rlimit(50)]
pub proof fn lemma_uri_key_set(m: UriModel, key: Seq<char>)
    ensures
        lookup(uri_members(m), key) is Some <==> uri_has(m, key),
{
    broadcast use group_members;

}

/// Reading the JSON form of a link target gives the link target back.
#[verifier::rlimit(50)]
pub proof fn lemma_uri_round_trip(u: UriModel)
    ensures
        uri_parsed(uri_tree(u)) == Some(u),
{
    broadcast use group_members;

    lemma_key_shapes();
    lemma_uri_members_distinct(u);
}

impl ActivityStreamsUri {
    /// The members of the link target, in order.
    pub fn entries(&self) -> (r: Vec<(String, serde_json::Value)>)
        ensures
            entries_model(r@) == uri_members(self@),
    {
        let mut entries: Vec<(String, serde_json::Value)> = Vec::new();
        assert(entries_model(entries@) =~= Seq::empty());
        push_member(&mut entries, "href", text_value(self.href.as_str()));
        push_text(&mut entries, "mediaType", &self.media_type);
        assert(entries_model(entries@) =~= uri_members(self@));
        entries
    }

    /// The link target as a JSON value of its own.
    pub fn to_value(&self) -> (v: serde_json::Value)
        ensures
            json_tree(v) == uri_tree(self@),
    {
        record_value(self.entries())
    }

    /// Reads a link target from a JSON value.
    pub fn from_value(v: &serde_json::Value) -> (r: Option<ActivityStreamsUri>)
        ensures
            uri_model(r) == uri_parsed(json_tree(*v)),
    {
        let href = match get_member(v, "href") {
            Some(m) => match as_text(m) {
                Some(s) => s.to_owned(),
                None => { return None; },
            },
            None => { return None; },
        };
        match read_text(v, "mediaType") {
            Some(media_type) => Some(ActivityStreamsUri { href, media_type }),
            None => None,
        }
    }
}

impl ActivityStreamsSerialize for ActivityStreamsUri {
    type Model = UriModel;

    open spec fn model(&self) -> UriModel {
        self@
    }

    open spec fn members(m: UriModel) -> Seq<(Seq<char>, JsonTree)> {
        uri_members(m)
    }

    open spec fn parsed(tree: JsonTree) -> Option<UriModel> {
        uri_parsed(tree)
    }

    open spec fn valid(m: UriModel) -> bool {
        true
    }

    fn entries(&self) -> (r: Vec<(String, serde_json::Value)>) {
        ActivityStreamsUri::entries(self)
    }

    fn from_value(v: &serde_json::Value) -> (r: Option<Self>) {
        ActivityStreamsUri::from_value(v)
    }

    proof fn lemma_parsed_valid(tree: JsonTree) {
    }

    #[verifier::rlimit(50)]
    open spec fn has_property(m: UriModel, key: Seq<char>) -> bool {
        uri_has(m, key)
    }

    proof fn lemma_key_set(m: UriModel, key: Seq<char>) {
        lemma_uri_key_set(m, key);
    }

    proof fn lemma_sound(m: UriModel) {
        lemma_uri_sound(m);
    }

    proof fn lemma_reads_back(m: UriModel, context: Option<JsonTree>) {
        broadcast use group_members;

        lemma_key_shapes();
        lemma_uri_members_distinct(m);
        lemma_distinct_prepend("@context"@, context, uri_members(m));
    }
}

/// Builds a link target from a reference.
#[derive(Clone)]
pub struct ActivityStreamsUriBuilder {
    pub href: String,
    pub media_type: Option<String>,
}

impl View for ActivityStreamsUriBuilder {
    type V = UriModel;

    open spec fn view(&self) -> UriModel {
        UriModel { href: self.href@, media_type: text_model(self.media_type) }
    }
}

impl ActivityStreamsUriBuilder {
    /// A builder for a link target with the given reference and no media
    /// type.
    pub fn new(href: http::Uri) -> (r: Self)
        ensures
            r@ == (UriModel { href: uri_string(href), media_type: None }),
    {
        ActivityStreamsUriBuilder { href: uri_text(&href), media_type: None }
    }

    /// Sets the media type.
    pub fn media_type(self, media_type: String) -> (r: Self)
        ensures
            r@ == (UriModel { media_type: Some(media_type@), ..self@ }),
    {
        let mut builder = self;
        builder.media_type = Some(media_type);
        builder
    }

    /// The link target that was built.
    pub fn build(self) -> (r: ActivityStreamsUri)
        ensures
            r@ == self@,
    {
        ActivityStreamsUri { href: self.href, media_type: self.media_type }
    }
}

} // verus!
