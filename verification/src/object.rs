//! The base object of the vocabulary, links and previews.
//!
//! The three refer to each other: an object may carry an image, which is a
//! link; a link may carry a preview; and a preview is an object with two
//! properties more.

use crate::json::{
    as_items, as_text, drop_repeats, entries_model, get_member, is_record, json_tree,
    lemma_member_decreases, list_value, member, natural32_tree, natural_field, optional,
    push_member, push_natural, push_optional, push_text, push_texts, read_natural, read_text,
    read_texts, record_of, record_value, text_field, text_model, text_tree, text_value, texts_field,
    texts_model, texts_tree, trees_of, without_repeats, JsonTree,
};
use crate::time::{read_timestamp, timestamp_field, timestamp_model, Timestamp};
use crate::uri::{uri_model, uri_parsed, uri_tree, ActivityStreamsUri, UriModel};
use vstd::prelude::*;

verus! {

/// The primary base type of the vocabulary. Every property is optional.
#[derive(Debug)]
pub struct ActivityStreamsObject {
    pub object_type: Option<String>,
    pub id: Option<String>,
    pub name: Option<String>,
    pub url: Option<String>,
    pub published: Option<Timestamp>,
    pub image: Option<Box<ActivityStreamsLink>>,
    pub content: Option<String>,
    pub summary: Option<String>,
    pub audience: Option<Box<ActivityStreamsObject>>,
    pub attributed_to: Vec<ActivityStreamsObject>,
}

/// An agent such as a person or an organization: an object, told apart from
/// others by its type alone.
pub type Actor = ActivityStreamsObject;

/// A reference to a resource, with what is known of it. Its relations form
/// a set kept in the order in which they were added.
#[derive(Debug)]
pub struct ActivityStreamsLink {
    pub link_type: String,
    pub href: ActivityStreamsUri,
    pub rel: Vec<String>,
    pub name: Option<String>,
    pub hreflang: Option<String>,
    pub height: Option<u32>,
    pub width: Option<u32>,
    pub preview: Option<ActivityStreamsPreview>,
}

/// An object that offers a preview of another resource.
#[derive(Debug)]
pub struct ActivityStreamsPreview {
    pub base: ActivityStreamsObject,
    pub duration: Option<String>,
    pub url: Option<ActivityStreamsUri>,
}

/// The mathematical model of an object.
pub struct ObjectModel {
    pub object_type: Option<Seq<char>>,
    pub id: Option<Seq<char>>,
    pub name: Option<Seq<char>>,
    pub url: Option<Seq<char>>,
    pub published: Option<Seq<char>>,
    pub image: Option<Box<LinkModel>>,
    pub content: Option<Seq<char>>,
    pub summary: Option<Seq<char>>,
    pub audience: Option<Box<ObjectModel>>,
    pub attributed_to: Seq<ObjectModel>,
}

/// The mathematical model of a link.
pub struct LinkModel {
    pub link_type: Seq<char>,
    pub href: UriModel,
    pub rel: Seq<Seq<char>>,
    pub name: Option<Seq<char>>,
    pub hreflang: Option<Seq<char>>,
    pub height: Option<u32>,
    pub width: Option<u32>,
    pub preview: Option<PreviewModel>,
}

/// The mathematical model of a preview.
pub struct PreviewModel {
    pub base: ObjectModel,
    pub duration: Option<Seq<char>>,
    pub url: Option<UriModel>,
}

/// The model of an object.
pub open spec fn object_model(o: ActivityStreamsObject) -> ObjectModel
    decreases o,
{
    ObjectModel {
        object_type: text_model(o.object_type),
        id: text_model(o.id),
        name: text_model(o.name),
        url: text_model(o.url),
        published: timestamp_model(o.published),
        image: match o.image {
            Some(l) => Some(Box::new(link_model(*l))),
            None => None,
        },
        content: text_model(o.content),
        summary: text_model(o.summary),
        audience: match o.audience {
            Some(a) => Some(Box::new(object_model(*a))),
            None => None,
        },
        attributed_to: objects_model(o.attributed_to@),
    }
}

/// The models of a list of objects.
pub open spec fn objects_model(objects: Seq<ActivityStreamsObject>) -> Seq<ObjectModel>
    decreases objects,
{
    Seq::new(
        objects.len(),
        |i: int|
            if 0 <= i < objects.len() {
                object_model(objects[i])
            } else {
                arbitrary()
            },
    )
}

/// The model of a link.
pub open spec fn link_model(l: ActivityStreamsLink) -> LinkModel
    decreases l,
{
    LinkModel {
        link_type: l.link_type@,
        href: l.href@,
        rel: texts_model(l.rel@),
        name: text_model(l.name),
        hreflang: text_model(l.hreflang),
        height: l.height,
        width: l.width,
        preview: match l.preview {
            Some(p) => Some(preview_model(p)),
            None => None,
        },
    }
}

/// The model of a preview.
pub open spec fn preview_model(p: ActivityStreamsPreview) -> PreviewModel
    decreases p,
{
    PreviewModel {
        base: object_model(p.base),
        duration: text_model(p.duration),
        url: uri_model(p.url),
    }
}

impl View for ActivityStreamsObject {
    type V = ObjectModel;

    open spec fn view(&self) -> ObjectModel {
        object_model(*self)
    }
}

impl View for ActivityStreamsLink {
    type V = LinkModel;

    open spec fn view(&self) -> LinkModel {
        link_model(*self)
    }
}

impl View for ActivityStreamsPreview {
    type V = PreviewModel;

    open spec fn view(&self) -> PreviewModel {
        preview_model(*self)
    }
}

/// The members of an object, in the order in which they are written. Absent
/// properties have no member.
pub open spec fn object_members(m: ObjectModel) -> Seq<(Seq<char>, JsonTree)>
    decreases m,
{
    optional("type"@, text_tree(m.object_type)) + optional("id"@, text_tree(m.id)) + optional(
        "name"@,
        text_tree(m.name),
    ) + optional("url"@, text_tree(m.url)) + optional("published"@, text_tree(m.published))
        + optional(
        "image"@,
        match m.image {
            Some(l) => Some(JsonTree::Record(record_of(link_members(*l)))),
            None => None,
        },
    ) + optional("content"@, text_tree(m.content)) + optional("summary"@, text_tree(m.summary))
        + optional(
        "audience"@,
        match m.audience {
            Some(a) => Some(JsonTree::Record(record_of(object_members(*a)))),
            None => None,
        },
    ) + optional(
        "attributedTo"@,
        if m.attributed_to.len() == 0 {
            None
        } else {
            Some(JsonTree::List(object_trees(m.attributed_to)))
        },
    )
}

/// The JSON forms of a list of objects, in order.
pub open spec fn object_trees(objects: Seq<ObjectModel>) -> Seq<JsonTree>
    decreases objects,
{
    Seq::new(
        objects.len(),
        |i: int|
            if 0 <= i < objects.len() {
                JsonTree::Record(record_of(object_members(objects[i])))
            } else {
                JsonTree::Null
            },
    )
}

/// The members of a link, in the order in which they are written. The link
/// target's members stand among the link's own; an empty list of relations
/// has no member.
pub open spec fn link_members(m: LinkModel) -> Seq<(Seq<char>, JsonTree)>
    decreases m,
{
    optional("type"@, Some(JsonTree::Text(m.link_type))) + optional(
        "href"@,
        Some(JsonTree::Text(m.href.href)),
    ) + optional("mediaType"@, text_tree(m.href.media_type)) + optional("rel"@, texts_tree(m.rel))
        + optional("name"@, text_tree(m.name)) + optional("hreflang"@, text_tree(m.hreflang))
        + optional("height"@, natural32_tree(m.height)) + optional(
        "width"@,
        natural32_tree(m.width),
    ) + optional(
        "preview"@,
        match m.preview {
            Some(p) => Some(JsonTree::Record(record_of(preview_members(p)))),
            None => None,
        },
    )
}

/// The members of a preview: those of its base object, then its own.
pub open spec fn preview_members(m: PreviewModel) -> Seq<(Seq<char>, JsonTree)>
    decreases m,
{
    object_members(m.base) + optional("duration"@, text_tree(m.duration)) + optional(
        "url"@,
        match m.url {
            Some(u) => Some(uri_tree(u)),
            None => None,
        },
    )
}

/// The JSON form of an object that stands on its own.
pub open spec fn object_tree(m: ObjectModel) -> JsonTree {
    JsonTree::Record(record_of(object_members(m)))
}

/// A list of objects as a tree: an empty list is left out.
pub open spec fn objects_tree(objects: Seq<ObjectModel>) -> Option<JsonTree> {
    if objects.len() == 0 {
        None
    } else {
        Some(JsonTree::List(object_trees(objects)))
    }
}

/// The JSON form of a link that stands on its own.
pub open spec fn link_tree(m: LinkModel) -> JsonTree {
    JsonTree::Record(record_of(link_members(m)))
}

/// The JSON form of a preview that stands on its own.
pub open spec fn preview_tree(m: PreviewModel) -> JsonTree {
    JsonTree::Record(record_of(preview_members(m)))
}

/// The object that a tree denotes. The tree must be a record. Members that
/// the object does not know are passed over; a known member of the wrong kind
/// makes the tree denote nothing. With `own_url` unset the `url` member is left to the
/// term that embeds the object.
pub open spec fn object_parsed(tree: JsonTree, own_url: bool) -> Option<ObjectModel>
    decreases tree, 0nat,
{
    let image = match member(tree, "image"@) {
        None => Some(None),
        Some(t) => {
            proof {
                lemma_member_decreases(tree, "image"@);
            }
            match link_parsed(t) {
                Some(l) => Some(Some(Box::new(l))),
                None => None,
            }
        },
    };
    let audience = match member(tree, "audience"@) {
        None => Some(None),
        Some(t) => {
            proof {
                lemma_member_decreases(tree, "audience"@);
            }
            match object_parsed(t, true) {
                Some(a) => Some(Some(Box::new(a))),
                None => None,
            }
        },
    };
    let attributed_to = match member(tree, "attributedTo"@) {
        None => Some(Seq::empty()),
        Some(JsonTree::List(trees)) => {
            proof {
                lemma_member_decreases(tree, "attributedTo"@);
            }
            objects_parsed(trees)
        },
        Some(_) => None,
    };
    let url = if own_url {
        text_field(tree, "url"@)
    } else {
        Some(None)
    };
    if !(tree is Record) {
        None
    } else {
        object_of_fields(
            text_field(tree, "type"@),
            text_field(tree, "id"@),
            text_field(tree, "name"@),
            url,
            timestamp_field(tree, "published"@),
            image,
            text_field(tree, "content"@),
            text_field(tree, "summary"@),
            audience,
            attributed_to,
        )
    }
}

/// The object with the given properties, if every one of them was read.
pub open spec fn object_of_fields(
    object_type: Option<Option<Seq<char>>>,
    id: Option<Option<Seq<char>>>,
    name: Option<Option<Seq<char>>>,
    url: Option<Option<Seq<char>>>,
    published: Option<Option<Seq<char>>>,
    image: Option<Option<Box<LinkModel>>>,
    content: Option<Option<Seq<char>>>,
    summary: Option<Option<Seq<char>>>,
    audience: Option<Option<Box<ObjectModel>>>,
    attributed_to: Option<Seq<ObjectModel>>,
) -> Option<ObjectModel> {
    match (
        object_type,
        id,
        name,
        url,
        published,
        image,
        content,
        summary,
        audience,
        attributed_to,
    ) {
        (
            Some(object_type),
            Some(id),
            Some(name),
            Some(url),
            Some(published),
            Some(image),
            Some(content),
            Some(summary),
            Some(audience),
            Some(attributed_to),
        ) => Some(
            ObjectModel {
                object_type,
                id,
                name,
                url,
                published,
                image,
                content,
                summary,
                audience,
                attributed_to,
            },
        ),
        _ => None,
    }
}

/// The objects that the trees of a list denote, if each denotes one.
pub open spec fn objects_parsed(trees: Seq<JsonTree>) -> Option<Seq<ObjectModel>>
    decreases trees, 0nat,
{
    if forall|i: int| 0 <= i < trees.len() ==> object_parsed(#[trigger] trees[i], true) is Some {
        Some(
            Seq::new(
                trees.len(),
                |i: int|
                    if 0 <= i < trees.len() {
                        object_parsed(trees[i], true).unwrap()
                    } else {
                        arbitrary()
                    },
            ),
        )
    } else {
        None
    }
}

/// The link that a tree denotes: `type` and `href` must be strings, the
/// other members are optional. A relation that the tree repeats is read
/// once.
pub open spec fn link_parsed(tree: JsonTree) -> Option<LinkModel>
    decreases tree, 0nat,
{
    let preview = match member(tree, "preview"@) {
        None => Some(None),
        Some(t) => {
            proof {
                lemma_member_decreases(tree, "preview"@);
            }
            match preview_parsed(t) {
                Some(p) => Some(Some(p)),
                None => None,
            }
        },
    };
    match (
        member(tree, "type"@),
        uri_parsed(tree),
        texts_field(tree, "rel"@),
        text_field(tree, "name"@),
        text_field(tree, "hreflang"@),
        natural_field(tree, "height"@),
        natural_field(tree, "width"@),
        preview,
    ) {
        (
            Some(JsonTree::Text(link_type)),
            Some(href),
            Some(rel),
            Some(name),
            Some(hreflang),
            Some(height),
            Some(width),
            Some(preview),
        ) => Some(
            LinkModel {
                link_type,
                href,
                rel: without_repeats(rel),
                name,
                hreflang,
                height,
                width,
                preview,
            },
        ),
        _ => None,
    }
}

/// The preview that a tree denotes: its base object is read from the same
/// tree, and `url` is the preview's own link target.
pub open spec fn preview_parsed(tree: JsonTree) -> Option<PreviewModel>
    decreases tree, 1nat,
{
    let url = match member(tree, "url"@) {
        None => Some(None),
        Some(t) => match uri_parsed(t) {
            Some(u) => Some(Some(u)),
            None => None,
        },
    };
    match (object_parsed(tree, false), text_field(tree, "duration"@), url) {
        (Some(base), Some(duration), Some(url)) => Some(PreviewModel { base, duration, url }),
        _ => None,
    }
}

/// The model of an optional object.
pub open spec fn optional_object(o: Option<ActivityStreamsObject>) -> Option<ObjectModel> {
    match o {
        Some(o) => Some(o@),
        None => None,
    }
}

/// The model of an optional link.
pub open spec fn optional_link(l: Option<ActivityStreamsLink>) -> Option<LinkModel> {
    match l {
        Some(l) => Some(l@),
        None => None,
    }
}

/// The model of an optional preview.
pub open spec fn optional_preview(p: Option<ActivityStreamsPreview>) -> Option<PreviewModel> {
    match p {
        Some(p) => Some(p@),
        None => None,
    }
}

/// The tree of an optional object.
pub open spec fn tree_of_object(o: Option<ObjectModel>) -> Option<JsonTree> {
    match o {
        Some(o) => Some(object_tree(o)),
        None => None,
    }
}

/// An optional object property read from a tree: absent where the tree has
/// no such member, and a failure where the member does not denote an object.
pub open spec fn object_field(tree: JsonTree, key: Seq<char>) -> Option<Option<ObjectModel>> {
    match member(tree, key) {
        None => Some(None),
        Some(t) => match object_parsed(t, true) {
            Some(o) => Some(Some(o)),
            None => None,
        },
    }
}

/// Reads an optional object property of a value.
pub fn read_object(v: &serde_json::Value, key: &str) -> (r: Option<Option<ActivityStreamsObject>>)
    ensures
        match r {
            Some(o) => object_field(json_tree(*v), key@) == Some(optional_object(o)),
            None => object_field(json_tree(*v), key@) is None,
        },
{
    match get_member(v, key) {
        None => Some(None),
        Some(m) => match ActivityStreamsObject::from_value(m) {
            Some(o) => Some(Some(o)),
            None => None,
        },
    }
}

impl ActivityStreamsObject {
    /// The members of the object, in order.
    pub fn entries(&self) -> (r: Vec<(String, serde_json::Value)>)
        ensures
            entries_model(r@) == object_members(self@),
        decreases self, 0nat,
    {
        let mut entries: Vec<(String, serde_json::Value)> = Vec::new();
        assert(entries_model(entries@) =~= Seq::empty());
        push_text(&mut entries, "type", &self.object_type);
        push_text(&mut entries, "id", &self.id);
        push_text(&mut entries, "name", &self.name);
        push_text(&mut entries, "url", &self.url);
        match &self.published {
            Some(t) => push_member(&mut entries, "published", text_value(t.as_str())),
            None => push_optional(&mut entries, "published", None),
        }
        let image = match &self.image {
            Some(l) => Some(l.to_value()),
            None => None,
        };
        push_optional(&mut entries, "image", image);
        push_text(&mut entries, "content", &self.content);
        push_text(&mut entries, "summary", &self.summary);
        let audience = match &self.audience {
            Some(a) => Some(a.to_value()),
            None => None,
        };
        push_optional(&mut entries, "audience", audience);
        assert(self@.attributed_to.len() == self.attributed_to.len()) by {
            assert(self@.attributed_to == objects_model(self.attributed_to@));
        }
        if self.attributed_to.len() == 0 {
            push_optional(&mut entries, "attributedTo", None);
        } else {
            let mut values: Vec<serde_json::Value> = Vec::new();
            let mut i: usize = 0;
            while i < self.attributed_to.len()
                invariant
                    0 <= i <= self.attributed_to.len(),
                    values.len() == i,
                    forall|j: int|
                        0 <= j < i ==> json_tree(#[trigger] values[j]) == object_tree(
                            self.attributed_to[j]@,
                        ),
                decreases self.attributed_to.len() - i,
            {
                values.push(self.attributed_to[i].to_value());
                i = i + 1;
            }
            proof {
                let models = self@.attributed_to;
                assert(models == objects_model(self.attributed_to@));
                assert forall|j: int| 0 <= j < models.len() implies trees_of(values@)[j]
                    == object_trees(models)[j] by {
                    assert(models[j] == self.attributed_to[j]@);
                    assert(object_trees(models)[j] == object_tree(models[j]));
                }
                assert(trees_of(values@) =~= object_trees(models));
            }
            push_member(&mut entries, "attributedTo", list_value(values));
        }
        assert(entries_model(entries@) =~= object_members(self@));
        entries
    }

    /// The object as a JSON value of its own.
    pub fn to_value(&self) -> (v: serde_json::Value)
        ensures
            json_tree(v) == object_tree(self@),
        decreases self, 1nat,
    {
        record_value(self.entries())
    }

    /// Reads an object from a JSON value; with `own_url` unset, without its
    /// `url` member.
    pub fn read(v: &serde_json::Value, own_url: bool) -> (r: Option<ActivityStreamsObject>)
        ensures
            optional_object(r) == object_parsed(json_tree(*v), own_url),
        decreases json_tree(*v), 0nat,
    {
        if !is_record(v) {
            return None;
        }
        let object_type = match read_text(v, "type") {
            Some(x) => x,
            None => { return None; },
        };
        let id = match read_text(v, "id") {
            Some(x) => x,
            None => { return None; },
        };
        let name = match read_text(v, "name") {
            Some(x) => x,
            None => { return None; },
        };
        let url = if own_url {
            match read_text(v, "url") {
                Some(x) => x,
                None => { return None; },
            }
        } else {
            None
        };
        let published = match read_timestamp(v, "published") {
            Some(x) => x,
            None => { return None; },
        };
        let image = match get_member(v, "image") {
            None => None,
            Some(m) => {
                proof {
                    lemma_member_decreases(json_tree(*v), "image"@);
                }
                match ActivityStreamsLink::from_value(m) {
                    Some(l) => Some(Box::new(l)),
                    None => { return None; },
                }
            },
        };
        let content = match read_text(v, "content") {
            Some(x) => x,
            None => { return None; },
        };
        let summary = match read_text(v, "summary") {
            Some(x) => x,
            None => { return None; },
        };
        let audience = match get_member(v, "audience") {
            None => None,
            Some(m) => {
                proof {
                    lemma_member_decreases(json_tree(*v), "audience"@);
                }
                match ActivityStreamsObject::read(m, true) {
                    Some(a) => Some(Box::new(a)),
                    None => { return None; },
                }
            },
        };
        let mut attributed_to: Vec<ActivityStreamsObject> = Vec::new();
        match get_member(v, "attributedTo") {
            None => {
                assert(objects_model(attributed_to@) =~= Seq::empty());
            },
            Some(m) => {
                let values = match as_items(m) {
                    Some(values) => values,
                    None => { return None; },
                };
                let ghost trees = trees_of(values@);
                proof {
                    lemma_member_decreases(json_tree(*v), "attributedTo"@);
                }
                let mut i: usize = 0;
                while i < values.len()
                    invariant
                        0 <= i <= values.len(),
                        attributed_to.len() == i,
                        trees == trees_of(values@),
                        member(json_tree(*v), "attributedTo"@) == Some(JsonTree::List(trees)),
                        decreases_to!(json_tree(*v) => JsonTree::List(trees)),
                        forall|j: int|
                            0 <= j < i ==> object_parsed(#[trigger] trees[j], true) == Some(
                                attributed_to[j]@,
                            ),
                    decreases values.len() - i,
                {
                    assert(trees[i as int] == json_tree(values[i as int]));
                    match ActivityStreamsObject::read(&values[i], true) {
                        Some(o) => attributed_to.push(o),
                        None => {
                            assert(object_parsed(trees[i as int], true) is None);
                            assert(objects_parsed(trees) is None);
                            return None;
                        },
                    }
                    i = i + 1;
                }
                proof {
                    assert(objects_parsed(trees) is Some);
                    let parsed = objects_parsed(trees).unwrap();
                    assert forall|j: int| 0 <= j < parsed.len() implies objects_model(
                        attributed_to@,
                    )[j] == parsed[j] by {
                        assert(object_parsed(trees[j], true) == Some(attributed_to[j]@));
                    }
                    assert(objects_model(attributed_to@) =~= parsed);
                }
            },
        }
        let r = ActivityStreamsObject {
            object_type,
            id,
            name,
            url,
            published,
            image,
            content,
            summary,
            audience,
            attributed_to,
        };
        Some(r)
    }

    /// Reads an object from a JSON value.
    pub fn from_value(v: &serde_json::Value) -> (r: Option<ActivityStreamsObject>)
        ensures
            optional_object(r) == object_parsed(json_tree(*v), true),
    {
        ActivityStreamsObject::read(v, true)
    }
}

impl ActivityStreamsLink {
    /// The members of the link, in order.
    pub fn entries(&self) -> (r: Vec<(String, serde_json::Value)>)
        ensures
            entries_model(r@) == link_members(self@),
        decreases self, 0nat,
    {
        let mut entries: Vec<(String, serde_json::Value)> = Vec::new();
        assert(entries_model(entries@) =~= Seq::empty());
        push_member(&mut entries, "type", text_value(self.link_type.as_str()));
        push_member(&mut entries, "href", text_value(self.href.href.as_str()));
        push_text(&mut entries, "mediaType", &self.href.media_type);
        push_texts(&mut entries, "rel", &self.rel);
        push_text(&mut entries, "name", &self.name);
        push_text(&mut entries, "hreflang", &self.hreflang);
        push_natural(&mut entries, "height", self.height);
        push_natural(&mut entries, "width", self.width);
        let preview = match &self.preview {
            Some(p) => Some(p.to_value()),
            None => None,
        };
        push_optional(&mut entries, "preview", preview);
        assert(entries_model(entries@) =~= link_members(self@));
        entries
    }

    /// The link as a JSON value of its own.
    pub fn to_value(&self) -> (v: serde_json::Value)
        ensures
            json_tree(v) == link_tree(self@),
        decreases self, 1nat,
    {
        record_value(self.entries())
    }

    /// Reads a link from a JSON value.
    pub fn from_value(v: &serde_json::Value) -> (r: Option<ActivityStreamsLink>)
        ensures
            optional_link(r) == link_parsed(json_tree(*v)),
        decreases json_tree(*v), 0nat,
    {
        let link_type = match get_member(v, "type") {
            Some(m) => match as_text(m) {
                Some(s) => s.to_owned(),
                None => { return None; },
            },
            None => { return None; },
        };
        let href = match ActivityStreamsUri::from_value(v) {
            Some(x) => x,
            None => { return None; },
        };
        let rel = match read_texts(v, "rel") {
            Some(x) => drop_repeats(&x),
            None => { return None; },
        };
        let name = match read_text(v, "name") {
            Some(x) => x,
            None => { return None; },
        };
        let hreflang = match read_text(v, "hreflang") {
            Some(x) => x,
            None => { return None; },
        };
        let height = match read_natural(v, "height") {
            Some(x) => x,
            None => { return None; },
        };
        let width = match read_natural(v, "width") {
            Some(x) => x,
            None => { return None; },
        };
        let preview = match get_member(v, "preview") {
            None => None,
            Some(m) => {
                proof {
                    lemma_member_decreases(json_tree(*v), "preview"@);
                }
                match ActivityStreamsPreview::from_value(m) {
                    Some(p) => Some(p),
                    None => { return None; },
                }
            },
        };
        Some(ActivityStreamsLink { link_type, href, rel, name, hreflang, height, width, preview })
    }
}

impl ActivityStreamsPreview {
    /// The members of the preview, in order.
    pub fn entries(&self) -> (r: Vec<(String, serde_json::Value)>)
        ensures
            entries_model(r@) == preview_members(self@),
        decreases self, 0nat,
    {
        let mut entries = self.base.entries();
        push_text(&mut entries, "duration", &self.duration);
        let url = match &self.url {
            Some(u) => Some(u.to_value()),
            None => None,
        };
        push_optional(&mut entries, "url", url);
        entries
    }

    /// The preview as a JSON value of its own.
    pub fn to_value(&self) -> (v: serde_json::Value)
        ensures
            json_tree(v) == preview_tree(self@),
        decreases self, 1nat,
    {
        record_value(self.entries())
    }

    /// Reads a preview from a JSON value.
    pub fn from_value(v: &serde_json::Value) -> (r: Option<ActivityStreamsPreview>)
        ensures
            optional_preview(r) == preview_parsed(json_tree(*v)),
        decreases json_tree(*v), 1nat,
    {
        let base = match ActivityStreamsObject::read(v, false) {
            Some(x) => x,
            None => { return None; },
        };
        let duration = match read_text(v, "duration") {
            Some(x) => x,
            None => { return None; },
        };
        let url = match get_member(v, "url") {
            None => None,
            Some(m) => match ActivityStreamsUri::from_value(m) {
                Some(u) => Some(u),
                None => { return None; },
            },
        };
        Some(ActivityStreamsPreview { base, duration, url })
    }
}

} // verus!
