//! Builders for objects, links and previews.
//!
//! A builder's model is the model of the term that `build` will give.

use crate::json::{add_text, lemma_with_text, text_model, texts_model};
use crate::object::{
    objects_model, ActivityStreamsLink, ActivityStreamsObject, ActivityStreamsPreview, Actor,
    LinkModel, ObjectModel, PreviewModel,
};
use crate::object_laws::{link_valid, object_valid, preview_valid};
use crate::time::{timestamp_model, Timestamp};
use crate::uri::{uri_model, uri_string, uri_text, ActivityStreamsUri, ActivityStreamsUriBuilder};
use vstd::prelude::*;

verus! {

/// Builds an object. Every property starts out absent.
pub struct ActivityStreamsObjectBuilder {
    pub object_type: Option<String>,
    pub id: Option<String>,
    pub name: Option<String>,
    pub url: Option<String>,
    pub published: Option<Timestamp>,
    pub image: Option<ActivityStreamsLinkBuilder>,
    pub content: Option<String>,
    pub summary: Option<String>,
    pub audience: Option<Box<ActivityStreamsObjectBuilder>>,
    pub attributed_to: Vec<Actor>,
}

/// Builds a link to a given target.
pub struct ActivityStreamsLinkBuilder {
    pub href: ActivityStreamsUriBuilder,
    pub rel: Vec<String>,
    pub name: Option<String>,
    pub hreflang: Option<String>,
    pub height: Option<u32>,
    pub width: Option<u32>,
    pub preview: Option<ActivityStreamsPreview>,
}

/// Builds a preview from its type and name.
pub struct ActivityStreamsPreviewBuilder {
    pub base: ActivityStreamsObjectBuilder,
    pub duration: Option<String>,
    pub url: Option<ActivityStreamsUri>,
}

/// The object that an object builder describes.
pub open spec fn object_builder_model(b: ActivityStreamsObjectBuilder) -> ObjectModel
    decreases b,
{
    ObjectModel {
        object_type: text_model(b.object_type),
        id: text_model(b.id),
        name: text_model(b.name),
        url: text_model(b.url),
        published: timestamp_model(b.published),
        image: match b.image {
            Some(l) => Some(Box::new(l@)),
            None => None,
        },
        content: text_model(b.content),
        summary: text_model(b.summary),
        audience: match b.audience {
            Some(a) => Some(Box::new(object_builder_model(*a))),
            None => None,
        },
        attributed_to: objects_model(b.attributed_to@),
    }
}

impl View for ActivityStreamsLinkBuilder {
    type V = LinkModel;

    open spec fn view(&self) -> LinkModel {
        LinkModel {
            link_type: ActivityStreamsLink::link_type(),
            href: self.href@,
            rel: texts_model(self.rel@),
            name: text_model(self.name),
            hreflang: text_model(self.hreflang),
            height: self.height,
            width: self.width,
            preview: match self.preview {
                Some(p) => Some(p@),
                None => None,
            },
        }
    }
}

impl View for ActivityStreamsObjectBuilder {
    type V = ObjectModel;

    open spec fn view(&self) -> ObjectModel {
        object_builder_model(*self)
    }
}

impl View for ActivityStreamsPreviewBuilder {
    type V = PreviewModel;

    open spec fn view(&self) -> PreviewModel {
        PreviewModel {
            base: self.base@,
            duration: text_model(self.duration),
            url: uri_model(self.url),
        }
    }
}

impl ObjectModel {
    /// The object without any property.
    pub open spec fn empty() -> ObjectModel {
        ObjectModel {
            object_type: None,
            id: None,
            name: None,
            url: None,
            published: None,
            image: None,
            content: None,
            summary: None,
            audience: None,
            attributed_to: Seq::empty(),
        }
    }
}

impl ActivityStreamsLink {
    /// The type of every link that a builder makes.
    pub const TYPE: &'static str = "Link";

    /// The type of every link that a builder makes, as the model has it.
    pub open spec fn link_type() -> Seq<char> {
        "Link"@
    }
}

impl ActivityStreamsObjectBuilder {
    /// A builder for an object without any property.
    pub fn new() -> (r: Self)
        ensures
            r@ == ObjectModel::empty(),
            object_valid(r@),
    {
        let r = ActivityStreamsObjectBuilder {
            object_type: None,
            id: None,
            name: None,
            url: None,
            published: None,
            image: None,
            content: None,
            summary: None,
            audience: None,
            attributed_to: Vec::new(),
        };
        assert(objects_model(r.attributed_to@) =~= Seq::empty());
        r
    }

    /// Sets the type.
    pub fn object_type(self, object_type: String) -> (r: Self)
        ensures
            r@ == (ObjectModel { object_type: Some(object_type@), ..self@ }),
            object_valid(self@) ==> object_valid(r@),
    {
        let mut builder = self;
        builder.object_type = Some(object_type);
        builder
    }

    /// Sets the identifier to the text of a reference.
    pub fn id(self, id: http::Uri) -> (r: Self)
        ensures
            r@ == (ObjectModel { id: Some(uri_string(id)), ..self@ }),
            object_valid(self@) ==> object_valid(r@),
    {
        let mut builder = self;
        builder.id = Some(uri_text(&id));
        builder
    }

    /// Sets the name.
    pub fn name(self, name: String) -> (r: Self)
        ensures
            r@ == (ObjectModel { name: Some(name@), ..self@ }),
            object_valid(self@) ==> object_valid(r@),
    {
        let mut builder = self;
        builder.name = Some(name);
        builder
    }

    /// Sets the URL to the text of a reference.
    pub fn url(self, url: http::Uri) -> (r: Self)
        ensures
            r@ == (ObjectModel { url: Some(uri_string(url)), ..self@ }),
            object_valid(self@) ==> object_valid(r@),
    {
        let mut builder = self;
        builder.url = Some(uri_text(&url));
        builder
    }

    /// Sets the time of publication.
    pub fn published(self, datetime: Timestamp) -> (r: Self)
        ensures
            r@ == (ObjectModel { published: Some(datetime@), ..self@ }),
            object_valid(self@) && datetime.valid() ==> object_valid(r@),
    {
        let mut builder = self;
        builder.published = Some(datetime);
        builder
    }

    /// Sets the image to the link that the given builder describes.
    pub fn image(self, image: ActivityStreamsLinkBuilder) -> (r: Self)
        ensures
            r@ == (ObjectModel { image: Some(Box::new(image@)), ..self@ }),
            object_valid(self@) && link_valid(image@) ==> object_valid(r@),
    {
        let mut builder = self;
        builder.image = Some(image);
        builder
    }

    /// Sets the content.
    pub fn content(self, content: String) -> (r: Self)
        ensures
            r@ == (ObjectModel { content: Some(content@), ..self@ }),
            object_valid(self@) ==> object_valid(r@),
    {
        let mut builder = self;
        builder.content = Some(content);
        builder
    }

    /// Sets the summary.
    pub fn summary(self, summary: String) -> (r: Self)
        ensures
            r@ == (ObjectModel { summary: Some(summary@), ..self@ }),
            object_valid(self@) ==> object_valid(r@),
    {
        let mut builder = self;
        builder.summary = Some(summary);
        builder
    }

    /// Sets the audience to the object that the given builder describes.
    pub fn audience(self, audience: ActivityStreamsObjectBuilder) -> (r: Self)
        ensures
            r@ == (ObjectModel { audience: Some(Box::new(audience@)), ..self@ }),
            object_valid(self@) && object_valid(audience@) ==> object_valid(r@),
    {
        let mut builder = self;
        builder.audience = Some(Box::new(audience));
        builder
    }

    /// Adds an actor to whom the object is attributed, after those already
    /// there.
    pub fn add_attributed_to(self, actor: Actor) -> (r: Self)
        ensures
            r@ == (ObjectModel { attributed_to: self@.attributed_to.push(actor@), ..self@ }),
            object_valid(self@) && object_valid(actor@) ==> object_valid(r@),
    {
        let mut builder = self;
        builder.attributed_to.push(actor);
        assert(objects_model(builder.attributed_to@) =~= self@.attributed_to.push(actor@));
        builder
    }

    /// The object that was built; nested builders are finished along with it.
    pub fn build(self) -> (r: ActivityStreamsObject)
        ensures
            r@ == self@,
        decreases self,
    {
        let r = ActivityStreamsObject {
            object_type: self.object_type,
            id: self.id,
            name: self.name,
            url: self.url,
            published: self.published,
            image: match self.image {
                Some(l) => Some(Box::new(l.build())),
                None => None,
            },
            content: self.content,
            summary: self.summary,
            audience: match self.audience {
                Some(a) => Some(Box::new((*a).build())),
                None => None,
            },
            attributed_to: self.attributed_to,
        };
        r
    }
}

impl ActivityStreamsLinkBuilder {
    /// A builder for a link to the target that the given builder describes.
    pub fn new(href: ActivityStreamsUriBuilder) -> (r: Self)
        ensures
            r@ == (LinkModel {
                link_type: ActivityStreamsLink::link_type(),
                href: href@,
                rel: Seq::empty(),
                name: None,
                hreflang: None,
                height: None,
                width: None,
                preview: None,
            }),
            link_valid(r@),
    {
        let r = ActivityStreamsLinkBuilder {
            href,
            rel: Vec::new(),
            name: None,
            hreflang: None,
            height: None,
            width: None,
            preview: None,
        };
        assert(texts_model(r.rel@) =~= Seq::empty());
        r
    }

    /// Adds a link relation to the set of relations: one that is there
    /// already changes nothing, a new one goes after those already there.
    pub fn add_rel(self, rel: String) -> (r: Self)
        ensures
            r@ == (LinkModel {
                rel: if self@.rel.contains(rel@) {
                    self@.rel
                } else {
                    self@.rel.push(rel@)
                },
                ..self@
            }),
            self@.rel.no_duplicates() ==> r@.rel.no_duplicates(),
            link_valid(self@) ==> link_valid(r@),
    {
        let mut builder = self;
        add_text(&mut builder.rel, rel);
        proof {
            if self@.rel.no_duplicates() {
                lemma_with_text(self@.rel, rel@);
            }
        }
        builder
    }

    /// Sets the name.
    pub fn name(self, name: String) -> (r: Self)
        ensures
            r@ == (LinkModel { name: Some(name@), ..self@ }),
            link_valid(self@) ==> link_valid(r@),
    {
        let mut builder = self;
        builder.name = Some(name);
        builder
    }

    /// Sets the language of the target.
    pub fn hreflang(self, hreflang: String) -> (r: Self)
        ensures
            r@ == (LinkModel { hreflang: Some(hreflang@), ..self@ }),
            link_valid(self@) ==> link_valid(r@),
    {
        let mut builder = self;
        builder.hreflang = Some(hreflang);
        builder
    }

    /// Sets the height.
    pub fn height(self, height: u32) -> (r: Self)
        ensures
            r@ == (LinkModel { height: Some(height), ..self@ }),
            link_valid(self@) ==> link_valid(r@),
    {
        let mut builder = self;
        builder.height = Some(height);
        builder
    }

    /// Sets the width.
    pub fn width(self, width: u32) -> (r: Self)
        ensures
            r@ == (LinkModel { width: Some(width), ..self@ }),
            link_valid(self@) ==> link_valid(r@),
    {
        let mut builder = self;
        builder.width = Some(width);
        builder
    }

    /// Sets the preview.
    pub fn preview(self, preview: ActivityStreamsPreview) -> (r: Self)
        ensures
            r@ == (LinkModel { preview: Some(preview@), ..self@ }),
            link_valid(self@) && preview_valid(preview@) ==> link_valid(r@),
    {
        let mut builder = self;
        builder.preview = Some(preview);
        builder
    }

    /// The link that was built. Its type is `Link`.
    pub fn build(self) -> (r: ActivityStreamsLink)
        ensures
            r@ == self@,
    {
        ActivityStreamsLink {
            link_type: ActivityStreamsLink::TYPE.to_owned(),
            href: self.href.build(),
            rel: self.rel,
            name: self.name,
            hreflang: self.hreflang,
            height: self.height,
            width: self.width,
            preview: self.preview,
        }
    }
}

impl ActivityStreamsPreviewBuilder {
    /// A builder for a preview of the given type and name.
    pub fn new(preview_type: String, name: String) -> (r: Self)
        ensures
            r@ == (PreviewModel {
                base: ObjectModel {
                    object_type: Some(preview_type@),
                    name: Some(name@),
                    ..ObjectModel::empty()
                },
                duration: None,
                url: None,
            }),
            preview_valid(r@),
    {
        ActivityStreamsPreviewBuilder {
            base: ActivityStreamsObjectBuilder::new().object_type(preview_type).name(name),
            duration: None,
            url: None,
        }
    }

    /// Sets the duration.
    pub fn duration(self, dur: String) -> (r: Self)
        ensures
            r@ == (PreviewModel { duration: Some(dur@), ..self@ }),
            preview_valid(self@) ==> preview_valid(r@),
    {
        let mut builder = self;
        builder.duration = Some(dur);
        builder
    }

    /// Sets the link target of the preview.
    pub fn url(self, url: ActivityStreamsUri) -> (r: Self)
        ensures
            r@ == (PreviewModel { url: Some(url@), ..self@ }),
            preview_valid(self@) ==> preview_valid(r@),
    {
        let mut builder = self;
        builder.url = Some(url);
        builder
    }

    /// The preview that was built.
    pub fn build(self) -> (r: ActivityStreamsPreview)
        ensures
            r@ == self@,
    {
        ActivityStreamsPreview { base: self.base.build(), duration: self.duration, url: self.url }
    }
}

} // verus!
