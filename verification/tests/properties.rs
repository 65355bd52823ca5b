use activity_streams::activity::{ActivityStreamsActivity, ActivityStreamsActivityBuilder};
use activity_streams::builders::{
    ActivityStreamsLinkBuilder, ActivityStreamsObjectBuilder, ActivityStreamsPreviewBuilder,
};
use activity_streams::collection::{Collection, CollectionBuilder, OrderedCollectionPageBuilder};
use activity_streams::context::{ActivityStreamsContext, ActivityStreamsContextBuilder};
use activity_streams::document::ActivityStreamsDocument;
use activity_streams::extended::{ActorBuilder, Null};
use activity_streams::intransitive::IntransitiveActivityBuilder;
use activity_streams::object::{ActivityStreamsLink, ActivityStreamsObject, ActivityStreamsPreview};
use activity_streams::term::{reread, ActivityStreamsSerialize, ParseError};
use activity_streams::time::Timestamp;
use activity_streams::uri::{ActivityStreamsUri, ActivityStreamsUriBuilder};

fn uri(text: &str) -> http::Uri {
    text.parse::<http::Uri>().unwrap()
}

fn context() -> ActivityStreamsContext {
    ActivityStreamsContextBuilder::new().build()
}

fn keys_of(text: &str) -> Vec<String> {
    let value: serde_json::Value = serde_json::from_str(text).unwrap();
    value.as_object().unwrap().keys().cloned().collect()
}

fn full_object() -> ActivityStreamsObject {
    ActivityStreamsObjectBuilder::new()
        .object_type("Note".to_string())
        .id(uri("http://example.org/note/1"))
        .name("A \"quoted\" name".to_string())
        .url(uri("http://example.org/note/1.html"))
        .published(Timestamp::from_unix(1423580695, 0).unwrap())
        .image(
            ActivityStreamsLinkBuilder::new(
                ActivityStreamsUriBuilder::new(uri("http://example.org/image.png"))
                    .media_type("image/png".to_string()),
            )
            .add_rel("icon".to_string())
            .add_rel("preview".to_string())
            .height(600)
            .width(800)
            .preview(
                ActivityStreamsPreviewBuilder::new("Video".to_string(), "Trailer".to_string())
                    .duration("PT1M".to_string())
                    .url(
                        ActivityStreamsUriBuilder::new(uri("http://example.org/trailer.mkv"))
                            .build(),
                    )
                    .build(),
            ),
        )
        .content("Some content".to_string())
        .summary("A summary".to_string())
        .audience(
            ActivityStreamsObjectBuilder::new()
                .object_type("http://example.org/Organization".to_string()),
        )
        .add_attributed_to(ActorBuilder::new("Person".to_string()).name("Joe".to_string()).build())
        .add_attributed_to(ActorBuilder::new("Person".to_string()).name("Ann".to_string()).build())
        .build()
}

#[test]
fn object_with_every_property_has_this_compact_text() {
    let expected = concat_all(&[
        r#"{"type":"Note","id":"http://example.org/note/1","name":"A \"quoted\" name","#,
        r#""url":"http://example.org/note/1.html","published":"2015-02-10T15:04:55Z","#,
        r#""image":{"type":"Link","href":"http://example.org/image.png","mediaType":"image/png","#,
        r#""rel":["icon","preview"],"height":600,"width":800,"#,
        r#""preview":{"type":"Video","name":"Trailer","duration":"PT1M","#,
        r#""url":{"href":"http://example.org/trailer.mkv"}}},"#,
        r#""content":"Some content","summary":"A summary","#,
        r#""audience":{"type":"http://example.org/Organization"},"#,
        r#""attributedTo":[{"type":"Person","name":"Joe"},{"type":"Person","name":"Ann"}]}"#,
    ]);
    assert_eq!(ActivityStreamsSerialize::to_json(&full_object()).unwrap(), expected);
}

fn concat_all(parts: &[&str]) -> String {
    let mut text = String::new();
    for part in parts {
        text.push_str(part);
    }
    text
}

#[test]
fn object_round_trip_keeps_every_property() {
    let object = full_object();
    let text = ActivityStreamsSerialize::to_json(&object).unwrap();
    let back = <ActivityStreamsObject as ActivityStreamsSerialize>::from_json(text.clone()).unwrap();
    assert_eq!(back.object_type, object.object_type);
    assert_eq!(back.id, object.id);
    assert_eq!(back.name, object.name);
    assert_eq!(back.url, object.url);
    assert_eq!(back.published.as_ref().unwrap().as_str(), "2015-02-10T15:04:55Z");
    assert_eq!(back.content, object.content);
    assert_eq!(back.summary, object.summary);
    let image = back.image.as_ref().unwrap();
    assert_eq!(image.link_type, "Link");
    assert_eq!(image.href.href, "http://example.org/image.png");
    assert_eq!(image.href.media_type, Some("image/png".to_string()));
    assert_eq!(image.rel, vec!["icon".to_string(), "preview".to_string()]);
    assert_eq!(image.height, Some(600));
    assert_eq!(image.width, Some(800));
    let preview = image.preview.as_ref().unwrap();
    assert_eq!(preview.base.object_type, Some("Video".to_string()));
    assert_eq!(preview.base.name, Some("Trailer".to_string()));
    assert_eq!(preview.base.url, None);
    assert_eq!(preview.duration, Some("PT1M".to_string()));
    assert_eq!(preview.url.as_ref().unwrap().href, "http://example.org/trailer.mkv");
    assert_eq!(
        back.audience.as_ref().unwrap().object_type,
        Some("http://example.org/Organization".to_string())
    );
    assert_eq!(back.attributed_to.len(), 2);
    assert_eq!(back.attributed_to[1].name, Some("Ann".to_string()));
    assert_eq!(ActivityStreamsSerialize::to_json(&back).unwrap(), text);
}

#[test]
fn document_round_trip_keeps_context_and_term() {
    let document = ActivityStreamsDocument::new(
        ActivityStreamsContextBuilder::new().language("fr".to_string()).build(),
        ActivityStreamsActivityBuilder::new("Like".to_string(), "Sally liked a note".to_string())
            .actor(ActorBuilder::new("Person".to_string()).name("Sally".to_string()))
            .result("r".to_string())
            .origin("o".to_string())
            .instrument("i".to_string())
            .build(),
    );
    let text = document.to_json().unwrap();
    assert_eq!(
        text,
        concat_all(&[
            r#"{"@context":{"@vocab":"https://www.w3.org/ns/activitystreams","@language":"fr"},"#,
            r#""type":"Like","summary":"Sally liked a note","#,
            r#""actor":{"type":"Person","name":"Sally"},"#,
            r#""result":"r","origin":"o","instrument":"i"}"#,
        ])
    );
    let back: ActivityStreamsDocument<ActivityStreamsActivity> =
        ActivityStreamsDocument::from_json(text.clone()).unwrap();
    assert_eq!(back.context.namespace, "https://www.w3.org/ns/activitystreams");
    assert_eq!(back.context.language, Some("fr".to_string()));
    assert_eq!(back.object.base.summary, Some("Sally liked a note".to_string()));
    assert_eq!(back.object.actor.as_ref().unwrap().name, Some("Sally".to_string()));
    assert!(back.object.object.is_none());
    assert_eq!(back.object.result, Some("r".to_string()));
    assert_eq!(back.object.origin, Some("o".to_string()));
    assert_eq!(back.object.instrument, Some("i".to_string()));
    assert_eq!(back.to_json().unwrap(), text);
}

#[test]
fn unset_properties_leave_no_key() {
    let object = ActivityStreamsObjectBuilder::new().name("name".to_string()).build();
    let text = ActivityStreamsSerialize::to_json(&object).unwrap();
    assert_eq!(text, r#"{"name":"name"}"#);
    assert_eq!(keys_of(&text), vec!["name".to_string()]);
    assert!(!text.contains("null"));

    let link = ActivityStreamsLinkBuilder::new(ActivityStreamsUriBuilder::new(uri(
        "http://example.org/abc",
    )))
    .build();
    let text = ActivityStreamsSerialize::to_json(&link).unwrap();
    assert_eq!(keys_of(&text), vec!["type".to_string(), "href".to_string()]);
}

#[test]
fn base_properties_are_top_level_keys() {
    let document = ActivityStreamsDocument::new(
        context(),
        ActivityStreamsPreviewBuilder::new("Video".to_string(), "Trailer".to_string()).build(),
    );
    let keys = keys_of(&document.to_json().unwrap());
    assert_eq!(
        keys,
        vec!["@context".to_string(), "type".to_string(), "name".to_string()]
    );
    assert!(!keys.contains(&"base".to_string()));
    assert!(!keys.contains(&"object".to_string()));
}

#[test]
fn context_without_language_has_only_the_namespace() {
    let document = ActivityStreamsDocument::new(context(), Null);
    assert_eq!(
        document.to_json().unwrap(),
        r#"{"@context":{"@vocab":"https://www.w3.org/ns/activitystreams"}}"#
    );
}

#[test]
fn context_with_language_writes_namespace_then_language() {
    let document = ActivityStreamsDocument::new(
        ActivityStreamsContextBuilder::new().language("en".to_string()).build(),
        Null,
    );
    assert_eq!(
        document.to_json().unwrap(),
        r#"{"@context":{"@vocab":"https://www.w3.org/ns/activitystreams","@language":"en"}}"#
    );
}

#[test]
fn link_scenario_has_type_first_and_no_unset_keys() {
    let link = ActivityStreamsLinkBuilder::new(ActivityStreamsUriBuilder::new(uri(
        "http://example.org/abc",
    )))
    .name("An example link".to_string())
    .hreflang("en".to_string())
    .build();
    let text = ActivityStreamsSerialize::to_json(&link).unwrap();
    assert_eq!(
        text,
        r#"{"type":"Link","href":"http://example.org/abc","name":"An example link","hreflang":"en"}"#
    );
    let keys = keys_of(&text);
    for absent in ["rel", "height", "width", "preview"] {
        assert!(!keys.contains(&absent.to_string()));
    }
}

#[test]
fn activity_scenario_reads_actor_and_object() {
    let text = r#"{"type":"Activity","summary":"Sally did something to a note","actor":{"type":"Person","name":"Sally"},"object":{"type":"Note","name":"A Note"}}"#;
    let activity =
        <ActivityStreamsActivity as ActivityStreamsSerialize>::from_json(text.to_string()).unwrap();
    assert_eq!(activity.actor.unwrap().name, Some("Sally".to_string()));
    assert_eq!(activity.object.unwrap().name, Some("A Note".to_string()));
}

#[test]
fn stated_total_is_kept_whatever_the_items() {
    let collection = CollectionBuilder::new("Collection".to_string())
        .total_items(5)
        .add_item(ActivityStreamsObjectBuilder::new().name("one".to_string()).build())
        .add_item(ActivityStreamsObjectBuilder::new().name("two".to_string()).build())
        .build();
    assert_eq!(collection.total_items, Some(5));
    assert_eq!(collection.items.len(), 2);
    let text = ActivityStreamsSerialize::to_json(&collection).unwrap();
    assert_eq!(
        text,
        r#"{"type":"Collection","totalItems":5,"items":[{"name":"one"},{"name":"two"}]}"#
    );
    let back = <Collection<ActivityStreamsObject> as ActivityStreamsSerialize>::from_json(text)
        .unwrap();
    assert_eq!(back.total_items, Some(5));
    assert_eq!(back.items.len(), 2);

    let matching = CollectionBuilder::new("Collection".to_string())
        .total_items(2)
        .add_item(Null)
        .add_item(Null)
        .build();
    assert_eq!(matching.total_items, Some(2));
    assert_eq!(matching.items.len(), 2);
}

#[test]
fn empty_item_list_is_written_as_empty_list() {
    let collection: Collection<ActivityStreamsObject> =
        CollectionBuilder::new("Collection".to_string()).build();
    assert_eq!(
        ActivityStreamsSerialize::to_json(&collection).unwrap(),
        r#"{"type":"Collection","items":[]}"#
    );
    let back = <Collection<ActivityStreamsObject> as ActivityStreamsSerialize>::from_json(
        r#"{"type":"Collection"}"#.to_string(),
    )
    .unwrap();
    assert!(back.items.is_empty());
    assert_eq!(back.total_items, None);
}

#[test]
fn ordered_page_writes_part_of_and_ordered_items() {
    let page = OrderedCollectionPageBuilder::new(
        "OrderedCollectionPage".to_string(),
        "http://example.org/foo".to_string(),
    )
    .id(uri("http://example.org/foo?page=1"))
    .summary("Page 1".to_string())
    .add_item(ActivityStreamsObjectBuilder::new().name("first".to_string()).build())
    .add_item(ActivityStreamsObjectBuilder::new().name("second".to_string()).build())
    .build();
    assert_eq!(
        ActivityStreamsSerialize::to_json(&page).unwrap(),
        concat_all(&[
            r#"{"type":"OrderedCollectionPage","id":"http://example.org/foo?page=1","#,
            r#""summary":"Page 1","partOf":"http://example.org/foo","#,
            r#""orderedItems":[{"name":"first"},{"name":"second"}]}"#,
        ])
    );
}

#[test]
fn intransitive_activity_has_no_object_key() {
    let activity =
        IntransitiveActivityBuilder::new("Travel".to_string(), "Sally went to work".to_string())
            .actor(ActorBuilder::new("Person".to_string()).name("Sally".to_string()))
            .target(ActivityStreamsObjectBuilder::new().name("Work".to_string()))
            .build();
    assert_eq!(
        ActivityStreamsSerialize::to_json(&activity).unwrap(),
        concat_all(&[
            r#"{"type":"Travel","summary":"Sally went to work","#,
            r#""actor":{"type":"Person","name":"Sally"},"target":{"name":"Work"}}"#,
        ])
    );
}

#[test]
fn malformed_text_is_a_syntax_error() {
    let r = <ActivityStreamsObject as ActivityStreamsSerialize>::from_json("{not json".to_string());
    assert_eq!(r.err(), Some(ParseError::Syntax));
    let r: Result<ActivityStreamsDocument<ActivityStreamsObject>, ParseError> =
        ActivityStreamsDocument::from_json("".to_string());
    assert_eq!(r.err(), Some(ParseError::Syntax));
}

#[test]
fn missing_required_property_is_a_shape_error() {
    let r = <ActivityStreamsActivity as ActivityStreamsSerialize>::from_json(
        r#"{"type":"Activity"}"#.to_string(),
    );
    assert_eq!(r.err(), Some(ParseError::Shape));
    let r = <ActivityStreamsLink as ActivityStreamsSerialize>::from_json(
        r#"{"type":"Link"}"#.to_string(),
    );
    assert_eq!(r.err(), Some(ParseError::Shape));
    let r: Result<ActivityStreamsDocument<ActivityStreamsObject>, ParseError> =
        ActivityStreamsDocument::from_json(r#"{"name":"no context"}"#.to_string());
    assert_eq!(r.err(), Some(ParseError::Shape));
    let r: Result<ActivityStreamsDocument<ActivityStreamsObject>, ParseError> =
        ActivityStreamsDocument::from_json(r#"{"@context":{"@vocab":""}}"#.to_string());
    assert_eq!(r.err(), Some(ParseError::Shape));
}

#[test]
fn property_of_the_wrong_kind_is_a_shape_error() {
    for text in [
        r#"{"name":5}"#,
        r#"{"published":"yesterday"}"#,
        r#"{"image":"http://example.org/image.png"}"#,
        r#"{"attributedTo":{"name":"Joe"}}"#,
        r#"{"attributedTo":[{"name":1}]}"#,
        r#"[1,2]"#,
        r#""text""#,
        r#"null"#,
    ] {
        let r = <ActivityStreamsObject as ActivityStreamsSerialize>::from_json(text.to_string());
        assert_eq!(r.err(), Some(ParseError::Shape));
    }
    let r: Result<ActivityStreamsDocument<Null>, ParseError> =
        ActivityStreamsDocument::from_json(r#"[]"#.to_string());
    assert_eq!(r.err(), Some(ParseError::Shape));
    for text in [
        r#"{"type":"Link","href":"h","height":4294967296}"#,
        r#"{"type":"Link","href":"h","height":-1}"#,
        r#"{"type":"Link","href":"h","width":1.5}"#,
        r#"{"type":"Link","href":"h","rel":["a",2]}"#,
        r#"{"type":"Link","href":"h","rel":"a"}"#,
    ] {
        let r = <ActivityStreamsLink as ActivityStreamsSerialize>::from_json(text.to_string());
        assert_eq!(r.err(), Some(ParseError::Shape));
    }
}

#[test]
fn unknown_keys_are_passed_over() {
    let object = <ActivityStreamsObject as ActivityStreamsSerialize>::from_json(
        r#"{"name":"n","likes":12,"tags":["a"],"nested":{"x":null}}"#.to_string(),
    )
    .unwrap();
    assert_eq!(object.name, Some("n".to_string()));
    assert_eq!(object.object_type, None);
}

#[test]
fn link_reads_numbers_and_relations() {
    let link = <ActivityStreamsLink as ActivityStreamsSerialize>::from_json(
        r#"{"type":"Link","href":"h","height":4294967295,"width":0,"rel":["a","b"]}"#.to_string(),
    )
    .unwrap();
    assert_eq!(link.height, Some(4294967295));
    assert_eq!(link.width, Some(0));
    assert_eq!(link.rel, vec!["a".to_string(), "b".to_string()]);
}

#[test]
fn timestamps_are_written_in_utc_with_marker() {
    assert_eq!(
        Timestamp::from_unix(1423580695, 0).unwrap().as_str(),
        "2015-02-10T15:04:55Z"
    );
    assert_eq!(
        Timestamp::from_unix(0, 500_000_000).unwrap().as_str(),
        "1970-01-01T00:00:00.500Z"
    );
    assert_eq!(
        Timestamp::parse("2015-02-10T16:04:55+01:00").unwrap().as_str(),
        "2015-02-10T15:04:55Z"
    );
    assert!(Timestamp::from_unix(i64::MAX, 0).is_none());
    assert!(Timestamp::parse("yesterday").is_none());
}

#[test]
fn timestamp_is_read_in_canonical_form() {
    let object = <ActivityStreamsObject as ActivityStreamsSerialize>::from_json(
        r#"{"published":"2014-08-21T14:34:56.250+02:00"}"#.to_string(),
    )
    .unwrap();
    assert_eq!(object.published.unwrap().as_str(), "2014-08-21T12:34:56.250Z");
}

#[test]
fn preview_keeps_its_link_target_apart_from_the_base() {
    let preview = <ActivityStreamsPreview as ActivityStreamsSerialize>::from_json(
        r#"{"type":"Video","url":{"href":"http://example.org/t.mkv","mediaType":"video/mkv"}}"#
            .to_string(),
    )
    .unwrap();
    assert_eq!(preview.base.url, None);
    let target = preview.url.as_ref().unwrap();
    assert_eq!(target.href, "http://example.org/t.mkv");
    assert_eq!(target.media_type, Some("video/mkv".to_string()));
}

#[test]
fn repeated_key_keeps_first_place_and_last_value() {
    let mut preview =
        ActivityStreamsPreviewBuilder::new("Video".to_string(), "Trailer".to_string())
            .url(ActivityStreamsUri { href: "http://example.org/t.mkv".to_string(), media_type: None })
            .build();
    preview.base.url = Some("http://example.org/base".to_string());
    preview.duration = Some("PT1M".to_string());
    assert_eq!(
        ActivityStreamsSerialize::to_json(&preview).unwrap(),
        concat_all(&[
            r#"{"type":"Video","name":"Trailer","url":{"href":"http://example.org/t.mkv"},"#,
            r#""duration":"PT1M"}"#,
        ])
    );
}

#[test]
fn pretty_text_is_indented_by_two_spaces() {
    let uri_term = ActivityStreamsUriBuilder::new(uri("http://example.org/abc"))
        .media_type("text/html".to_string())
        .build();
    assert_eq!(
        ActivityStreamsSerialize::to_json_pretty(&uri_term).unwrap(),
        "{\n  \"href\": \"http://example.org/abc\",\n  \"mediaType\": \"text/html\"\n}"
    );
}

#[test]
fn rereading_a_built_term_gives_it_back() {
    let object = full_object();
    let back = reread(&object).unwrap();
    assert_eq!(
        ActivityStreamsSerialize::to_json(&back).unwrap(),
        ActivityStreamsSerialize::to_json(&object).unwrap()
    );
    assert_eq!(back.name, object.name);
    assert_eq!(back.attributed_to.len(), 2);

    let activity = ActivityStreamsActivityBuilder::new("Like".to_string(), "s".to_string())
        .object(ActivityStreamsObjectBuilder::new().name("A Note".to_string()))
        .build();
    let back = reread(&activity).unwrap();
    assert_eq!(back.base.summary, Some("s".to_string()));
    assert_eq!(back.object.unwrap().name, Some("A Note".to_string()));
}

#[test]
fn rereading_an_activity_without_summary_fails() {
    let mut activity =
        ActivityStreamsActivityBuilder::new("Like".to_string(), "s".to_string()).build();
    activity.base.summary = None;
    assert!(reread(&activity).is_none());
}

#[test]
fn adding_a_relation_twice_keeps_it_once() {
    let link = ActivityStreamsLinkBuilder::new(ActivityStreamsUriBuilder::new(uri(
        "http://example.org/abc",
    )))
    .add_rel("canonical".to_string())
    .add_rel("preview".to_string())
    .add_rel("canonical".to_string())
    .add_rel("icon".to_string())
    .add_rel("preview".to_string())
    .build();
    assert_eq!(
        link.rel,
        vec!["canonical".to_string(), "preview".to_string(), "icon".to_string()]
    );
    assert_eq!(
        ActivityStreamsSerialize::to_json(&link).unwrap(),
        r#"{"type":"Link","href":"http://example.org/abc","rel":["canonical","preview","icon"]}"#
    );
}

#[test]
fn a_repeated_relation_is_read_once() {
    let link = <ActivityStreamsLink as ActivityStreamsSerialize>::from_json(
        r#"{"type":"Link","href":"h","rel":["b","a","b","b","c","a"]}"#.to_string(),
    )
    .unwrap();
    assert_eq!(link.rel, vec!["b".to_string(), "a".to_string(), "c".to_string()]);
    let back = reread(&link).unwrap();
    assert_eq!(back.rel, link.rel);
}

#[test]
fn writing_always_succeeds() {
    let object = full_object();
    assert!(ActivityStreamsSerialize::to_json(&object).is_ok());
    assert!(ActivityStreamsSerialize::to_json_pretty(&object).is_ok());
    let document = ActivityStreamsDocument::new(context(), object);
    assert!(document.to_json().is_ok());
    assert!(document.to_json_pretty().is_ok());
    let empty = ActivityStreamsDocument::new(context(), Null);
    assert!(empty.to_json().is_ok());
}

fn holds_null(value: &serde_json::Value) -> bool {
    match value {
        serde_json::Value::Null => true,
        serde_json::Value::Array(items) => items.iter().any(holds_null),
        serde_json::Value::Object(map) => map.values().any(holds_null),
        _ => false,
    }
}

#[test]
fn no_record_holds_a_null_at_any_depth() {
    let document = ActivityStreamsDocument::new(context(), full_object());
    let value: serde_json::Value = serde_json::from_str(&document.to_json().unwrap()).unwrap();
    assert!(!holds_null(&value));
    let image = value.get("image").unwrap().as_object().unwrap();
    let keys: Vec<&str> = image.keys().map(|k| k.as_str()).collect();
    assert_eq!(
        keys,
        vec!["type", "href", "mediaType", "rel", "height", "width", "preview"]
    );
    let preview = image.get("preview").unwrap().as_object().unwrap();
    let keys: Vec<&str> = preview.keys().map(|k| k.as_str()).collect();
    assert_eq!(keys, vec!["type", "name", "duration", "url"]);
    assert!(value.get("base").is_none());
    assert!(value.get("object").is_none());
}
