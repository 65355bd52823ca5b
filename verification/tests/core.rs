use activity_streams::activity::ActivityStreamsActivityBuilder;
use activity_streams::builders::{
    ActivityStreamsLinkBuilder, ActivityStreamsObjectBuilder, ActivityStreamsPreviewBuilder,
};
use activity_streams::context::ActivityStreamsContextBuilder;
use activity_streams::document::ActivityStreamsDocument;
use activity_streams::extended::ActorBuilder;
use activity_streams::uri::ActivityStreamsUriBuilder;
use http::Uri;

#[test]
fn create_activity_stream_object() {
    let actual = ActivityStreamsDocument::new(
        ActivityStreamsContextBuilder::new()
            .language("en".to_string())
            .build(),
        ActivityStreamsObjectBuilder::new()
            .name("name".to_string())
            .build(),
    );
    let expected = String::from(
        r#"{
  "@context": {
    "@vocab": "https://www.w3.org/ns/activitystreams",
    "@language": "en"
  },
  "name": "name"
}"#,
    );
    assert_eq!(actual.to_json_pretty().unwrap(), expected)
}

#[test]
fn create_link() {
    let actual = ActivityStreamsDocument::new(
        ActivityStreamsContextBuilder::new().build(),
        ActivityStreamsLinkBuilder::new(ActivityStreamsUriBuilder::new(
            "http://example.org/abc".parse::<Uri>().unwrap(),
        ))
        .name("An example link".to_string())
        .hreflang("en".to_string())
        .build(),
    );
    let expected = String::from(
        r#"{
  "@context": {
    "@vocab": "https://www.w3.org/ns/activitystreams"
  },
  "type": "Link",
  "href": "http://example.org/abc",
  "name": "An example link",
  "hreflang": "en"
}"#,
    );
    assert_eq!(actual.to_json_pretty().unwrap(), expected)
}

#[test]
fn create_preview() {
    let actual = ActivityStreamsDocument::new(
        ActivityStreamsContextBuilder::new().build(),
        ActivityStreamsPreviewBuilder::new("Video".to_string(), "Trailer".to_string())
            .duration("PT1M".to_string())
            .url(
                ActivityStreamsUriBuilder::new(
                    "http://example.org/trailer.mkv".parse::<Uri>().unwrap(),
                )
                .media_type("video/mkv".to_string())
                .build(),
            )
            .build(),
    );
    let expected = String::from(
        r#"{
  "@context": {
    "@vocab": "https://www.w3.org/ns/activitystreams"
  },
  "type": "Video",
  "name": "Trailer",
  "duration": "PT1M",
  "url": {
    "href": "http://example.org/trailer.mkv",
    "mediaType": "video/mkv"
  }
}"#,
    );
    assert_eq!(actual.to_json_pretty().unwrap(), expected);
}

#[test]
fn create_activity() {
    let actual = ActivityStreamsDocument::new(
        ActivityStreamsContextBuilder::new().build(),
        ActivityStreamsActivityBuilder::new(
            "Activity".to_string(),
            "Sally did something to a note".to_string(),
        )
        .actor(ActorBuilder::new("Person".to_string()).name("Sally".to_string()))
        .object(
            ActivityStreamsObjectBuilder::new()
                .object_type("Note".to_string())
                .name("A Note".to_string()),
        )
        .build(),
    );

    let expected = String::from(
        r#"{
  "@context": {
    "@vocab": "https://www.w3.org/ns/activitystreams"
  },
  "type": "Activity",
  "summary": "Sally did something to a note",
  "actor": {
    "type": "Person",
    "name": "Sally"
  },
  "object": {
    "type": "Note",
    "name": "A Note"
  }
}"#,
    );
    assert_eq!(actual.to_json_pretty().unwrap(), expected);
}
