//! What holds of the JSON form of objects, links and previews.

use crate::json::{
    all_sound, distinct_keys, group_members, lemma_all_sound_add, lemma_all_sound_optional,
    lemma_distinct_concat_optional, lemma_distinct_optional, lemma_distinct_prepend,
    lemma_embedded_members, lemma_member_decreases, lemma_record_of_distinct,
    lemma_texts_round_trip, lemma_without_repeats, lookup, member, natural32_tree, optional,
    record_of, sound, text_list, text_tree, texts_field, texts_tree, JsonTree,
};
use crate::keys::lemma_key_shapes;
use crate::object::{
    link_members, link_parsed, link_tree, object_members, object_parsed, object_tree, object_trees,
    objects_parsed, objects_tree, preview_members, preview_parsed, preview_tree,
    ActivityStreamsLink, ActivityStreamsObject, ActivityStreamsPreview, LinkModel, ObjectModel,
    PreviewModel,
};
use crate::term::ActivityStreamsSerialize;
use crate::time::{canonical_timestamp, lemma_canonical_idempotent};
use crate::uri::{lemma_uri_round_trip, lemma_uri_sound, uri_tree, UriModel};
use vstd::prelude::*;

verus! {

/// An object is valid when its timestamp is in canonical form and the terms
/// within it are valid.
pub open spec fn object_valid(m: ObjectModel) -> bool
    decreases m,
{
    &&& m.published matches Some(t) ==> canonical_timestamp(t) == Some(t)
    &&& m.image matches Some(l) ==> link_valid(*l)
    &&& m.audience matches Some(a) ==> object_valid(*a)
    &&& forall|i: int|
        0 <= i < m.attributed_to.len() ==> object_valid(#[trigger] m.attributed_to[i])
}

/// A link is valid when no relation occurs twice and its preview is valid.
pub open spec fn link_valid(m: LinkModel) -> bool
    decreases m,
{
    &&& m.rel.no_duplicates()
    &&& m.preview matches Some(p) ==> preview_valid(p)
}

/// A preview is valid when its base object is valid and leaves `url` to the
/// preview.
pub open spec fn preview_valid(m: PreviewModel) -> bool
    decreases m,
{
    m.base.url is None && object_valid(m.base)
}

/// The tree of an optional link.
pub open spec fn optional_link_tree(l: Option<Box<LinkModel>>) -> Option<JsonTree> {
    match l {
        Some(l) => Some(link_tree(*l)),
        None => None,
    }
}

/// The tree of an optional preview.
pub open spec fn optional_preview_tree(p: Option<PreviewModel>) -> Option<JsonTree> {
    match p {
        Some(p) => Some(preview_tree(p)),
        None => None,
    }
}

/// The tree of an optional link target.
pub open spec fn optional_uri_tree(u: Option<UriModel>) -> Option<JsonTree> {
    match u {
        Some(u) => Some(uri_tree(u)),
        None => None,
    }
}

/// The tree of an optional object.
pub open spec fn optional_object_tree(o: Option<Box<ObjectModel>>) -> Option<JsonTree> {
    match o {
        Some(o) => Some(object_tree(*o)),
        None => None,
    }
}

/// A list of members holds every property of an object under its key, and
/// nothing under the key of a property that the object lacks. With `own_url`
/// unset the object has no URL of its own and `url` is not looked at.
pub open spec fn object_reads(
    entries: Seq<(Seq<char>, JsonTree)>,
    m: ObjectModel,
    own_url: bool,
) -> bool {
    &&& lookup(entries, "type"@) == text_tree(m.object_type)
    &&& lookup(entries, "id"@) == text_tree(m.id)
    &&& lookup(entries, "name"@) == text_tree(m.name)
    &&& if own_url {
        lookup(entries, "url"@) == text_tree(m.url)
    } else {
        m.url is None
    }
    &&& lookup(entries, "published"@) == text_tree(m.published)
    &&& lookup(entries, "image"@) == optional_link_tree(m.image)
    &&& lookup(entries, "content"@) == text_tree(m.content)
    &&& lookup(entries, "summary"@) == text_tree(m.summary)
    &&& lookup(entries, "audience"@) == optional_object_tree(m.audience)
    &&& lookup(entries, "attributedTo"@) == objects_tree(m.attributed_to)
}

/// No two members of an object share a key, so the object's record holds
/// exactly its members, in their order.
#[verifier::rlimit(50)]
pub proof fn lemma_object_members_distinct(m: ObjectModel)
    ensures
        distinct_keys(object_members(m)),
        record_of(object_members(m)) == object_members(m),
{
    broadcast use group_members;

    lemma_key_shapes();
    lemma_distinct_optional("type"@, text_tree(m.object_type));
    let p0 = optional("type"@, text_tree(m.object_type));
    lemma_distinct_concat_optional(p0, "id"@, text_tree(m.id));
    let p1 = p0 + optional("id"@, text_tree(m.id));
    lemma_distinct_concat_optional(p1, "name"@, text_tree(m.name));
    let p2 = p1 + optional("name"@, text_tree(m.name));
    lemma_distinct_concat_optional(p2, "url"@, text_tree(m.url));
    let p3 = p2 + optional("url"@, text_tree(m.url));
    lemma_distinct_concat_optional(p3, "published"@, text_tree(m.published));
    let p4 = p3 + optional("published"@, text_tree(m.published));
    lemma_distinct_concat_optional(p4, "image"@, optional_link_tree(m.image));
    let p5 = p4 + optional("image"@, optional_link_tree(m.image));
    lemma_distinct_concat_optional(p5, "content"@, text_tree(m.content));
    let p6 = p5 + optional("content"@, text_tree(m.content));
    lemma_distinct_concat_optional(p6, "summary"@, text_tree(m.summary));
    let p7 = p6 + optional("summary"@, text_tree(m.summary));
    lemma_distinct_concat_optional(p7, "audience"@, optional_object_tree(m.audience));
    let p8 = p7 + optional("audience"@, optional_object_tree(m.audience));
    lemma_distinct_concat_optional(p8, "attributedTo"@, objects_tree(m.attributed_to));
    assert(p8 + optional("attributedTo"@, objects_tree(m.attributed_to)) == object_members(m));
    lemma_record_of_distinct(object_members(m));
}

/// No two members of a link share a key.
#[verifier::rlimit(50)]
pub proof fn lemma_link_members_distinct(m: LinkModel)
    ensures
        distinct_keys(link_members(m)),
        record_of(link_members(m)) == link_members(m),
{
    broadcast use group_members;

    lemma_key_shapes();
    lemma_distinct_optional("type"@, Some(JsonTree::Text(m.link_type)));
    let p0 = optional("type"@, Some(JsonTree::Text(m.link_type)));
    lemma_distinct_concat_optional(p0, "href"@, Some(JsonTree::Text(m.href.href)));
    let p1 = p0 + optional("href"@, Some(JsonTree::Text(m.href.href)));
    lemma_distinct_concat_optional(p1, "mediaType"@, text_tree(m.href.media_type));
    let p2 = p1 + optional("mediaType"@, text_tree(m.href.media_type));
    lemma_distinct_concat_optional(p2, "rel"@, texts_tree(m.rel));
    let p3 = p2 + optional("rel"@, texts_tree(m.rel));
    lemma_distinct_concat_optional(p3, "name"@, text_tree(m.name));
    let p4 = p3 + optional("name"@, text_tree(m.name));
    lemma_distinct_concat_optional(p4, "hreflang"@, text_tree(m.hreflang));
    let p5 = p4 + optional("hreflang"@, text_tree(m.hreflang));
    lemma_distinct_concat_optional(p5, "height"@, natural32_tree(m.height));
    let p6 = p5 + optional("height"@, natural32_tree(m.height));
    lemma_distinct_concat_optional(p6, "width"@, natural32_tree(m.width));
    let p7 = p6 + optional("width"@, natural32_tree(m.width));
    lemma_distinct_concat_optional(p7, "preview"@, optional_preview_tree(m.preview));
    let p8 = p7 + optional("preview"@, optional_preview_tree(m.preview));
    assert(p8 == link_members(m));
    lemma_record_of_distinct(link_members(m));
}

/// No two members of a preview share a key, provided its base object leaves
/// `url` to the preview.
#[verifier::rlimit(50)]
pub proof fn lemma_preview_members_distinct(m: PreviewModel)
    requires
        m.base.url is None,
    ensures
        distinct_keys(preview_members(m)),
        record_of(preview_members(m)) == preview_members(m),
{
    broadcast use group_members;

    lemma_key_shapes();
    lemma_object_members_distinct(m.base);
    lemma_object_own_reads(m.base);
    let p0 = object_members(m.base);
    lemma_distinct_concat_optional(p0, "duration"@, text_tree(m.duration));
    let p1 = p0 + optional("duration"@, text_tree(m.duration));
    lemma_distinct_concat_optional(p1, "url"@, optional_uri_tree(m.url));
    assert(p1 + optional("url"@, optional_uri_tree(m.url)) == preview_members(m));
    lemma_record_of_distinct(preview_members(m));
}

/// The members of an object hold each of its properties under its key.
#[verifier::rlimit(50)]
pub proof fn lemma_object_own_reads(m: ObjectModel)
    ensures
        object_reads(object_members(m), m, true),
{
    broadcast use group_members;

    lemma_key_shapes();
}

/// Whatever list of members holds the properties of a valid object is read
/// as that object.
pub proof fn lemma_object_parses(entries: Seq<(Seq<char>, JsonTree)>, m: ObjectModel, own_url: bool)
    requires
        object_valid(m),
        object_reads(entries, m, own_url),
    ensures
        object_parsed(JsonTree::Record(entries), own_url) == Some(m),
    decreases m, 0nat,
{
    if let Some(l) = m.image {
        lemma_link_round_trip(*l);
    }
    if let Some(a) = m.audience {
        lemma_object_on_its_own(*a);
    }
    let items = m.attributed_to;
    if items.len() == 0 {
        assert(items =~= Seq::empty());
    } else {
        let trees = object_trees(items);
        assert forall|i: int| 0 <= i < trees.len() implies object_parsed(
            #[trigger] trees[i],
            true,
        ) == Some(items[i]) by {
            lemma_object_on_its_own(items[i]);
        }
        assert(objects_parsed(trees).unwrap() =~= items);
    }
}

/// Reading the JSON form of a valid object gives the object back.
pub proof fn lemma_object_on_its_own(m: ObjectModel)
    requires
        object_valid(m),
    ensures
        object_parsed(object_tree(m), true) == Some(m),
    decreases m, 1nat,
{
    lemma_object_members_distinct(m);
    lemma_object_own_reads(m);
    lemma_object_parses(object_members(m), m, true);
}

/// A list of members holds every property of a link under its key, and
/// nothing under the key of a property that the link lacks.
pub open spec fn link_reads(entries: Seq<(Seq<char>, JsonTree)>, m: LinkModel) -> bool {
    &&& lookup(entries, "type"@) == Some(JsonTree::Text(m.link_type))
    &&& lookup(entries, "href"@) == Some(JsonTree::Text(m.href.href))
    &&& lookup(entries, "mediaType"@) == text_tree(m.href.media_type)
    &&& lookup(entries, "rel"@) == texts_tree(m.rel)
    &&& lookup(entries, "name"@) == text_tree(m.name)
    &&& lookup(entries, "hreflang"@) == text_tree(m.hreflang)
    &&& lookup(entries, "height"@) == natural32_tree(m.height)
    &&& lookup(entries, "width"@) == natural32_tree(m.width)
    &&& lookup(entries, "preview"@) == optional_preview_tree(m.preview)
}

/// The members of a link hold each of its properties under its key.
#[verifier::rlimit(50)]
pub proof fn lemma_link_own_reads(m: LinkModel)
    ensures
        link_reads(link_members(m), m),
{
    broadcast use group_members;

    lemma_key_shapes();
}

/// Whatever list of members holds the properties of a valid link is read as
/// that link.
pub proof fn lemma_link_parses(entries: Seq<(Seq<char>, JsonTree)>, m: LinkModel)
    requires
        link_valid(m),
        link_reads(entries, m),
    ensures
        link_parsed(JsonTree::Record(entries)) == Some(m),
    decreases m, 0nat,
{
    lemma_texts_round_trip(m.rel);
    lemma_without_repeats(m.rel);
    if m.rel.len() == 0 {
        assert(m.rel =~= Seq::empty());
    }
    if let Some(p) = m.preview {
        lemma_preview_round_trip(p);
    }
}

/// Reading the JSON form of a valid link gives the link back.
pub proof fn lemma_link_round_trip(m: LinkModel)
    requires
        link_valid(m),
    ensures
        link_parsed(link_tree(m)) == Some(m),
    decreases m, 1nat,
{
    lemma_link_members_distinct(m);
    lemma_link_own_reads(m);
    lemma_link_parses(link_members(m), m);
}

/// Reading the JSON form of a valid preview gives the preview back.
#[verifier::rlimit(50)]
pub proof fn lemma_preview_round_trip(m: PreviewModel)
    requires
        preview_valid(m),
    ensures
        preview_parsed(preview_tree(m)) == Some(m),
    decreases m, 0nat,
{
    broadcast use group_members;

    lemma_key_shapes();
    lemma_preview_members_distinct(m);
    lemma_object_own_reads(m.base);
    assert(object_reads(preview_members(m), m.base, false));
    lemma_object_parses(preview_members(m), m.base, false);
    if let Some(u) = m.url {
        lemma_uri_round_trip(u);
    }
}

/// Whatever is read as an object is valid; read without its `url`, it has
/// none.
pub proof fn lemma_object_parsed_valid(tree: JsonTree, own_url: bool)
    ensures
        object_parsed(tree, own_url) matches Some(m) ==> object_valid(m) && (!own_url ==> m.url
            is None),
    decreases tree, 0nat,
{
    if let Some(m) = object_parsed(tree, own_url) {
        if let Some(JsonTree::Text(t)) = member(tree, "published"@) {
            lemma_canonical_idempotent(t);
        }
        if let Some(t) = member(tree, "image"@) {
            lemma_member_decreases(tree, "image"@);
            lemma_link_parsed_valid(t);
        }
        if let Some(t) = member(tree, "audience"@) {
            lemma_member_decreases(tree, "audience"@);
            lemma_object_parsed_valid(t, true);
        }
        if let Some(JsonTree::List(trees)) = member(tree, "attributedTo"@) {
            lemma_member_decreases(tree, "attributedTo"@);
            assert(objects_parsed(trees) == Some(m.attributed_to));
            assert(m.attributed_to.len() == trees.len());
            assert forall|i: int| 0 <= i < m.attributed_to.len() implies object_valid(
                #[trigger] m.attributed_to[i],
            ) by {
                assert(m.attributed_to[i] == object_parsed(trees[i], true).unwrap());
                lemma_object_parsed_valid(trees[i], true);
            }
        }
    }
}

/// Whatever is read as a link is valid.
pub proof fn lemma_link_parsed_valid(tree: JsonTree)
    ensures
        link_parsed(tree) matches Some(m) ==> link_valid(m),
    decreases tree, 0nat,
{
    if let Some(m) = link_parsed(tree) {
        lemma_without_repeats(texts_field(tree, "rel"@).unwrap());
        if let Some(t) = member(tree, "preview"@) {
            lemma_member_decreases(tree, "preview"@);
            lemma_preview_parsed_valid(t);
        }
    }
}

/// Whatever is read as a preview is valid.
pub proof fn lemma_preview_parsed_valid(tree: JsonTree)
    ensures
        preview_parsed(tree) matches Some(m) ==> preview_valid(m),
    decreases tree, 1nat,
{
    lemma_object_parsed_valid(tree, false);
}

/// The JSON form of a valid object holds no null anywhere, and no record in
/// it has a key twice.
pub proof fn lemma_object_sound(m: ObjectModel)
    requires
        object_valid(m),
    ensures
        all_sound(object_members(m)),
        sound(object_tree(m)),
    decreases m,
{
    lemma_object_members_distinct(m);
    if let Some(l) = m.image {
        lemma_link_sound(*l);
    }
    if let Some(a) = m.audience {
        lemma_object_sound(*a);
    }
    let items = m.attributed_to;
    assert forall|i: int| 0 <= i < items.len() implies sound(
        #[trigger] object_trees(items)[i],
    ) by {
        lemma_object_sound(items[i]);
        assert(object_trees(items)[i] == object_tree(items[i]));
    }
    lemma_all_sound_optional("type"@, text_tree(m.object_type));
    let p0 = optional("type"@, text_tree(m.object_type));
    lemma_all_sound_add(p0, "id"@, text_tree(m.id));
    let p1 = p0 + optional("id"@, text_tree(m.id));
    lemma_all_sound_add(p1, "name"@, text_tree(m.name));
    let p2 = p1 + optional("name"@, text_tree(m.name));
    lemma_all_sound_add(p2, "url"@, text_tree(m.url));
    let p3 = p2 + optional("url"@, text_tree(m.url));
    lemma_all_sound_add(p3, "published"@, text_tree(m.published));
    let p4 = p3 + optional("published"@, text_tree(m.published));
    lemma_all_sound_add(p4, "image"@, optional_link_tree(m.image));
    let p5 = p4 + optional("image"@, optional_link_tree(m.image));
    lemma_all_sound_add(p5, "content"@, text_tree(m.content));
    let p6 = p5 + optional("content"@, text_tree(m.content));
    lemma_all_sound_add(p6, "summary"@, text_tree(m.summary));
    let p7 = p6 + optional("summary"@, text_tree(m.summary));
    lemma_all_sound_add(p7, "audience"@, optional_object_tree(m.audience));
    let p8 = p7 + optional("audience"@, optional_object_tree(m.audience));
    lemma_all_sound_add(p8, "attributedTo"@, objects_tree(m.attributed_to));
    let p9 = p8 + optional("attributedTo"@, objects_tree(m.attributed_to));
    assert(p9 == object_members(m));
}

/// The JSON form of a valid link holds no null anywhere, and no record in it
/// has a key twice.
pub proof fn lemma_link_sound(m: LinkModel)
    requires
        link_valid(m),
    ensures
        all_sound(link_members(m)),
        sound(link_tree(m)),
    decreases m,
{
    lemma_link_members_distinct(m);
    if let Some(p) = m.preview {
        lemma_preview_sound(p);
    }
    assert forall|i: int| 0 <= i < m.rel.len() implies sound(#[trigger] text_list(m.rel)[i]) by {
    }
    lemma_all_sound_optional("type"@, Some(JsonTree::Text(m.link_type)));
    let p0 = optional("type"@, Some(JsonTree::Text(m.link_type)));
    lemma_all_sound_add(p0, "href"@, Some(JsonTree::Text(m.href.href)));
    let p1 = p0 + optional("href"@, Some(JsonTree::Text(m.href.href)));
    lemma_all_sound_add(p1, "mediaType"@, text_tree(m.href.media_type));
    let p2 = p1 + optional("mediaType"@, text_tree(m.href.media_type));
    lemma_all_sound_add(p2, "rel"@, texts_tree(m.rel));
    let p3 = p2 + optional("rel"@, texts_tree(m.rel));
    lemma_all_sound_add(p3, "name"@, text_tree(m.name));
    let p4 = p3 + optional("name"@, text_tree(m.name));
    lemma_all_sound_add(p4, "hreflang"@, text_tree(m.hreflang));
    let p5 = p4 + optional("hreflang"@, text_tree(m.hreflang));
    lemma_all_sound_add(p5, "height"@, natural32_tree(m.height));
    let p6 = p5 + optional("height"@, natural32_tree(m.height));
    lemma_all_sound_add(p6, "width"@, natural32_tree(m.width));
    let p7 = p6 + optional("width"@, natural32_tree(m.width));
    lemma_all_sound_add(p7, "preview"@, optional_preview_tree(m.preview));
    let p8 = p7 + optional("preview"@, optional_preview_tree(m.preview));
    assert(p8 == link_members(m));
}

/// The JSON form of a valid preview holds no null anywhere, and no record in
/// it has a key twice.
pub proof fn lemma_preview_sound(m: PreviewModel)
    requires
        preview_valid(m),
    ensures
        all_sound(preview_members(m)),
        sound(preview_tree(m)),
    decreases m,
{
    lemma_preview_members_distinct(m);
    lemma_object_sound(m.base);
    if let Some(u) = m.url {
        lemma_uri_sound(u);
    }
    let p0 = object_members(m.base);
    lemma_all_sound_add(p0, "duration"@, text_tree(m.duration));
    let p1 = p0 + optional("duration"@, text_tree(m.duration));
    lemma_all_sound_add(p1, "url"@, optional_uri_tree(m.url));
    let p2 = p1 + optional("url"@, optional_uri_tree(m.url));
    assert(p2 == preview_members(m));
}

/// Whether an object has a property under the key: one that is always written,
/// or one that is set.
pub open spec fn object_has(m: ObjectModel, key: Seq<char>) -> bool {
    ||| key == "type"@ && m.object_type is Some
    ||| key == "id"@ && m.id is Some
    ||| key == "name"@ && m.name is Some
    ||| key == "url"@ && m.url is Some
    ||| key == "published"@ && m.published is Some
    ||| key == "image"@ && m.image is Some
    ||| key == "content"@ && m.content is Some
    ||| key == "summary"@ && m.summary is Some
    ||| key == "audience"@ && m.audience is Some
    ||| key == "attributedTo"@ && m.attributed_to.len() > 0
}

/// An object has a member under a key exactly where it has a property
/// under that key: what is unset leaves no key behind, and no other key is
/// written.
#[verifier::rlimit(50)]
pub proof fn lemma_object_key_set(m: ObjectModel, key: Seq<char>)
    ensures
        lookup(object_members(m), key) is Some <==> object_has(m, key),
{
    broadcast use group_members;

}

/// Whether a link has a property under the key: one that is always written,
/// or one that is set.
pub open spec fn link_has(m: LinkModel, key: Seq<char>) -> bool {
    ||| key == "type"@
    ||| key == "href"@
    ||| key == "mediaType"@ && m.href.media_type is Some
    ||| key == "rel"@ && m.rel.len() > 0
    ||| key == "name"@ && m.name is Some
    ||| key == "hreflang"@ && m.hreflang is Some
    ||| key == "height"@ && m.height is Some
    ||| key == "width"@ && m.width is Some
    ||| key == "preview"@ && m.preview is Some
}

/// A link has a member under a key exactly where it has a property
/// under that key: what is unset leaves no key behind, and no other key is
/// written.
#[verifier::rlimit(50)]
pub proof fn lemma_link_key_set(m: LinkModel, key: Seq<char>)
    ensures
        lookup(link_members(m), key) is Some <==> link_has(m, key),
{
    broadcast use group_members;

}

/// Whether a preview has a property under the key: one that is always written,
/// or one that is set.
pub open spec fn preview_has(m: PreviewModel, key: Seq<char>) -> bool {
    ||| object_has(m.base, key)
    ||| key == "duration"@ && m.duration is Some
    ||| key == "url"@ && m.url is Some
}

/// A preview has a member under a key exactly where it has a property
/// under that key: what is unset leaves no key behind, and no other key is
/// written.
#[verifier::rlimit(50)]
pub proof fn lemma_preview_key_set(m: PreviewModel, key: Seq<char>)
    ensures
        lookup(preview_members(m), key) is Some <==> preview_has(m, key),
{
    broadcast use group_members;

    lemma_object_key_set(m.base, key);
}

/// The keys under which an object writes its properties.
pub open spec fn is_object_key(key: Seq<char>) -> bool {
    key == "type"@ || key == "id"@ || key == "name"@ || key == "url"@ || key == "published"@ || key
        == "image"@ || key == "content"@ || key == "summary"@ || key == "audience"@ || key
        == "attributedTo"@
}

/// An object has members under its own keys only.
#[verifier::rlimit(50)]
pub proof fn lemma_object_member_keys(m: ObjectModel, key: Seq<char>)
    ensures
        lookup(object_members(m), key) is Some ==> is_object_key(key),
{
    broadcast use group_members;

}

/// An object has a member under a key exactly where it has the property: an
/// absent property leaves no key behind.
pub proof fn lemma_object_omission(m: ObjectModel)
    ensures
        member(object_tree(m), "type"@) is Some <==> m.object_type is Some,
        member(object_tree(m), "id"@) is Some <==> m.id is Some,
        member(object_tree(m), "name"@) is Some <==> m.name is Some,
        member(object_tree(m), "url"@) is Some <==> m.url is Some,
        member(object_tree(m), "published"@) is Some <==> m.published is Some,
        member(object_tree(m), "image"@) is Some <==> m.image is Some,
        member(object_tree(m), "content"@) is Some <==> m.content is Some,
        member(object_tree(m), "summary"@) is Some <==> m.summary is Some,
        member(object_tree(m), "audience"@) is Some <==> m.audience is Some,
        member(object_tree(m), "attributedTo"@) is Some <==> m.attributed_to.len() > 0,
        forall|key: Seq<char>| !is_object_key(key) ==> member(object_tree(m), key) is None,
{
    lemma_object_members_distinct(m);
    lemma_object_own_reads(m);
    assert forall|key: Seq<char>| !is_object_key(key) implies member(object_tree(m), key)
        is None by {
        lemma_object_member_keys(m, key);
    }
}

/// A link has a member under a key exactly where it has the property; `type`
/// and `href` are always there, and an empty list of relations leaves no
/// `rel` behind.
pub proof fn lemma_link_omission(m: LinkModel)
    ensures
        member(link_tree(m), "type"@) is Some,
        member(link_tree(m), "href"@) is Some,
        member(link_tree(m), "mediaType"@) is Some <==> m.href.media_type is Some,
        member(link_tree(m), "rel"@) is Some <==> m.rel.len() > 0,
        member(link_tree(m), "name"@) is Some <==> m.name is Some,
        member(link_tree(m), "hreflang"@) is Some <==> m.hreflang is Some,
        member(link_tree(m), "height"@) is Some <==> m.height is Some,
        member(link_tree(m), "width"@) is Some <==> m.width is Some,
        member(link_tree(m), "preview"@) is Some <==> m.preview is Some,
{
    lemma_link_members_distinct(m);
    lemma_link_own_reads(m);
}

/// A preview has a member under a key of its own exactly where it has the
/// property.
#[verifier::rlimit(50)]
pub proof fn lemma_preview_omission(m: PreviewModel)
    requires
        preview_valid(m),
    ensures
        member(preview_tree(m), "duration"@) is Some <==> m.duration is Some,
        member(preview_tree(m), "url"@) is Some <==> m.url is Some,
{
    broadcast use group_members;

    lemma_key_shapes();
    lemma_preview_members_distinct(m);
    lemma_object_own_reads(m.base);
}

/// A list of members embeds an object when it begins with the object's
/// members.
pub open spec fn embeds(members: Seq<(Seq<char>, JsonTree)>, base: ObjectModel) -> bool {
    exists|own: Seq<(Seq<char>, JsonTree)>| members == #[trigger] (object_members(base) + own)
}

/// Flattening, for whatever term embeds a base object: every property of
/// the base object is a member of the term itself, under the property's own
/// key and with the same value, and so under no key that stands for the base
/// object as a whole.
pub proof fn lemma_flattening(
    members: Seq<(Seq<char>, JsonTree)>,
    base: ObjectModel,
    key: Seq<char>,
)
    requires
        embeds(members, base),
        distinct_keys(members),
    ensures
        lookup(object_members(base), key) matches Some(value) ==> lookup(members, key) == Some(
            value,
        ),
{
    let own = choose|own: Seq<(Seq<char>, JsonTree)>|
        members == #[trigger] (object_members(base) + own);
    lemma_embedded_members(object_members(base), own, key);
}

/// The keys under which a preview writes properties of its own.
pub open spec fn is_preview_key(key: Seq<char>) -> bool {
    key == "duration"@ || key == "url"@
}

/// A preview embeds its base object.
pub proof fn lemma_preview_embeds(m: PreviewModel)
    ensures
        embeds(preview_members(m), m.base),
{
    let own = optional("duration"@, text_tree(m.duration)) + optional(
        "url"@,
        optional_uri_tree(m.url),
    );
    assert(preview_members(m) =~= object_members(m.base) + own);
}

/// A preview has members under the keys of its base object and its own
/// keys only; it has none under `base`.
#[verifier::rlimit(50)]
pub proof fn lemma_preview_member_keys(m: PreviewModel, key: Seq<char>)
    ensures
        lookup(preview_members(m), key) is Some ==> is_object_key(key) || is_preview_key(key),
        lookup(preview_members(m), "base"@) is None,
{
    broadcast use group_members;

    lemma_key_shapes();
    lemma_object_member_keys(m.base, key);
    lemma_object_member_keys(m.base, "base"@);
}

/// Every member of a preview's base object is a member of the preview
/// itself, under the same key and with the same value.
#[verifier::rlimit(50)]
pub proof fn lemma_preview_flattening(m: PreviewModel, key: Seq<char>)
    requires
        preview_valid(m),
    ensures
        member(object_tree(m.base), key) matches Some(value) ==> member(preview_tree(m), key)
            == Some(value),
{
    broadcast use group_members;

    lemma_key_shapes();
    lemma_object_members_distinct(m.base);
    lemma_preview_members_distinct(m);
    lemma_object_own_reads(m.base);
    lemma_object_member_keys(m.base, key);
}

impl ActivityStreamsSerialize for ActivityStreamsObject {
    type Model = ObjectModel;

    open spec fn model(&self) -> ObjectModel {
        self@
    }

    open spec fn members(m: ObjectModel) -> Seq<(Seq<char>, JsonTree)> {
        object_members(m)
    }

    open spec fn parsed(tree: JsonTree) -> Option<ObjectModel> {
        object_parsed(tree, true)
    }

    open spec fn valid(m: ObjectModel) -> bool {
        object_valid(m)
    }

    fn entries(&self) -> (r: Vec<(String, serde_json::Value)>) {
        ActivityStreamsObject::entries(self)
    }

    fn from_value(v: &serde_json::Value) -> (r: Option<Self>) {
        ActivityStreamsObject::read(v, true)
    }

    proof fn lemma_parsed_valid(tree: JsonTree) {
        lemma_object_parsed_valid(tree, true);
    }

    #[verifier::rlimit(50)]
    open spec fn has_property(m: ObjectModel, key: Seq<char>) -> bool {
        object_has(m, key)
    }

    proof fn lemma_key_set(m: ObjectModel, key: Seq<char>) {
        lemma_object_key_set(m, key);
    }

    proof fn lemma_sound(m: ObjectModel) {
        lemma_object_sound(m);
        lemma_object_members_distinct(m);
    }

    proof fn lemma_reads_back(m: ObjectModel, context: Option<JsonTree>) {
        broadcast use group_members;

        lemma_key_shapes();
        lemma_object_members_distinct(m);
        lemma_object_own_reads(m);
        lemma_distinct_prepend("@context"@, context, object_members(m));
        let entries = optional("@context"@, context) + object_members(m);
        assert(object_reads(entries, m, true));
        lemma_object_parses(entries, m, true);
    }
}

impl ActivityStreamsSerialize for ActivityStreamsLink {
    type Model = LinkModel;

    open spec fn model(&self) -> LinkModel {
        self@
    }

    open spec fn members(m: LinkModel) -> Seq<(Seq<char>, JsonTree)> {
        link_members(m)
    }

    open spec fn parsed(tree: JsonTree) -> Option<LinkModel> {
        link_parsed(tree)
    }

    open spec fn valid(m: LinkModel) -> bool {
        link_valid(m)
    }

    fn entries(&self) -> (r: Vec<(String, serde_json::Value)>) {
        ActivityStreamsLink::entries(self)
    }

    fn from_value(v: &serde_json::Value) -> (r: Option<Self>) {
        ActivityStreamsLink::from_value(v)
    }

    proof fn lemma_parsed_valid(tree: JsonTree) {
        lemma_link_parsed_valid(tree);
    }

    #[verifier::rlimit(50)]
    open spec fn has_property(m: LinkModel, key: Seq<char>) -> bool {
        link_has(m, key)
    }

    proof fn lemma_key_set(m: LinkModel, key: Seq<char>) {
        lemma_link_key_set(m, key);
    }

    proof fn lemma_sound(m: LinkModel) {
        lemma_link_sound(m);
        lemma_link_members_distinct(m);
    }

    proof fn lemma_reads_back(m: LinkModel, context: Option<JsonTree>) {
        broadcast use group_members;

        lemma_key_shapes();
        lemma_link_members_distinct(m);
        lemma_link_own_reads(m);
        lemma_distinct_prepend("@context"@, context, link_members(m));
        let entries = optional("@context"@, context) + link_members(m);
        assert(link_reads(entries, m));
        lemma_link_parses(entries, m);
    }
}

impl ActivityStreamsSerialize for ActivityStreamsPreview {
    type Model = PreviewModel;

    open spec fn model(&self) -> PreviewModel {
        self@
    }

    open spec fn members(m: PreviewModel) -> Seq<(Seq<char>, JsonTree)> {
        preview_members(m)
    }

    open spec fn parsed(tree: JsonTree) -> Option<PreviewModel> {
        preview_parsed(tree)
    }

    open spec fn valid(m: PreviewModel) -> bool {
        preview_valid(m)
    }

    fn entries(&self) -> (r: Vec<(String, serde_json::Value)>) {
        ActivityStreamsPreview::entries(self)
    }

    fn from_value(v: &serde_json::Value) -> (r: Option<Self>) {
        ActivityStreamsPreview::from_value(v)
    }

    proof fn lemma_parsed_valid(tree: JsonTree) {
        lemma_preview_parsed_valid(tree);
    }

    #[verifier::rlimit(50)]
    open spec fn has_property(m: PreviewModel, key: Seq<char>) -> bool {
        preview_has(m, key)
    }

    proof fn lemma_key_set(m: PreviewModel, key: Seq<char>) {
        lemma_preview_key_set(m, key);
    }

    proof fn lemma_sound(m: PreviewModel) {
        lemma_preview_sound(m);
        lemma_preview_members_distinct(m);
    }

    proof fn lemma_reads_back(m: PreviewModel, context: Option<JsonTree>) {
        broadcast use group_members;

        lemma_key_shapes();
        lemma_preview_members_distinct(m);
        lemma_object_own_reads(m.base);
        lemma_distinct_prepend("@context"@, context, preview_members(m));
        let entries = optional("@context"@, context) + preview_members(m);
        assert(object_reads(entries, m.base, false));
        lemma_object_parses(entries, m.base, false);
        if let Some(u) = m.url {
            lemma_uri_round_trip(u);
        }
    }
}

} // verus!
