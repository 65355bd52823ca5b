//! Timestamps in their canonical text form.

use crate::json::{as_text, get_member, json_tree, member, text_model, JsonTree};
use vstd::prelude::*;

verus! {

/// The RFC 3339 text, in UTC with the `Z` marker and as many fractional
/// digits as needed, that `chrono` gives for an instant, where `chrono` can
/// represent the instant.
pub uninterp spec fn rfc3339_text(secs: i64, nanos: u32) -> Option<Seq<char>>;

/// The instant that `chrono` reads from a text as a date and time, where it
/// accepts the text: seconds since the epoch and nanoseconds within the
/// second.
pub uninterp spec fn rfc3339_instant(text: Seq<char>) -> Option<(i64, u32)>;

/// The text of an instant, where `chrono` can represent the instant and
/// reads its text back as the same instant.
pub open spec fn timestamp_text(secs: i64, nanos: u32) -> Option<Seq<char>> {
    match rfc3339_text(secs, nanos) {
        Some(text) => if rfc3339_instant(text) == Some((secs, nanos)) {
            Some(text)
        } else {
            None
        },
        None => None,
    }
}

/// The canonical form of a timestamp text: the text of the instant that the
/// text denotes.
pub open spec fn canonical_timestamp(text: Seq<char>) -> Option<Seq<char>> {
    match rfc3339_instant(text) {
        Some((secs, nanos)) => timestamp_text(secs, nanos),
        None => None,
    }
}

/// The text of an instant is in canonical form.
pub proof fn lemma_timestamp_text_canonical(secs: i64, nanos: u32)
    ensures
        timestamp_text(secs, nanos) matches Some(text) ==> canonical_timestamp(text) == Some(text),
{
}

/// The canonical form of a text is itself in canonical form.
pub proof fn lemma_canonical_idempotent(text: Seq<char>)
    ensures
        canonical_timestamp(text) matches Some(c) ==> canonical_timestamp(c) == Some(c),
{
}

/// `chrono::DateTime::to_rfc3339_opts` with `SecondsFormat::AutoSi` and the
/// `Z` marker, on the UTC date and time that `DateTime::from_timestamp`
/// makes of the instant; nothing where the instant is out of `chrono`'s
/// range.
#[verifier::external_body]
fn render_instant(secs: i64, nanos: u32) -> (r: Option<String>)
    ensures
        text_model(r) == rfc3339_text(secs, nanos),
{
    match chrono::DateTime::from_timestamp(secs, nanos) {
        Some(t) => Some(t.to_rfc3339_opts(chrono::SecondsFormat::AutoSi, true)),
        None => None,
    }
}

/// `str::parse` into a `chrono::DateTime<Utc>`: the instant of the date and
/// time that the text denotes, or nothing where `chrono` rejects the text.
#[verifier::external_body]
fn read_instant(text: &str) -> (r: Option<(i64, u32)>)
    ensures
        r == rfc3339_instant(text@),
{
    match text.parse::<chrono::DateTime<chrono::Utc>>() {
        Ok(t) => Some((t.timestamp(), t.timestamp_subsec_nanos())),
        Err(_) => None,
    }
}

/// A point in time, held as its UTC text with an explicit zone marker.
#[derive(Debug, Clone)]
pub struct Timestamp {
    pub text: String,
}

impl View for Timestamp {
    type V = Seq<char>;

    open spec fn view(&self) -> Seq<char> {
        self.text@
    }
}

/// The model of an optional timestamp.
pub open spec fn timestamp_model(t: Option<Timestamp>) -> Option<Seq<char>> {
    match t {
        Some(t) => Some(t@),
        None => None,
    }
}

impl Timestamp {
    /// A timestamp is valid when its text is in canonical form.
    pub open spec fn valid(&self) -> bool {
        canonical_timestamp(self@) == Some(self@)
    }

    /// The timestamp of an instant given as seconds since the epoch and
    /// nanoseconds within the second, where the instant can be represented
    /// and its text is read back as the same instant. The result is valid.
    pub fn from_unix(secs: i64, nanos: u32) -> (r: Option<Timestamp>)
        ensures
            timestamp_model(r) == timestamp_text(secs, nanos),
            r matches Some(t) ==> t.valid(),
    {
        match render_instant(secs, nanos) {
            Some(text) => {
                let back = read_instant(text.as_str());
                match back {
                    Some((s, n)) => if s == secs && n == nanos {
                        Some(Timestamp { text })
                    } else {
                        None
                    },
                    None => None,
                }
            },
            None => None,
        }
    }

    /// Reads a timestamp from a text and brings it into canonical form. The
    /// result is valid.
    pub fn parse(text: &str) -> (r: Option<Timestamp>)
        ensures
            timestamp_model(r) == canonical_timestamp(text@),
            r matches Some(t) ==> t.valid(),
    {
        match read_instant(text) {
            Some((secs, nanos)) => Timestamp::from_unix(secs, nanos),
            None => None,
        }
    }

    /// The text of the timestamp.
    pub fn as_str(&self) -> (r: &str)
        ensures
            r@ == self@,
    {
        self.text.as_str()
    }
}

/// An optional timestamp property read from a tree, in canonical form:
/// absent where the tree has no such member, and a failure where the member
/// is not a string that denotes a date and time.
pub open spec fn timestamp_field(tree: JsonTree, key: Seq<char>) -> Option<Option<Seq<char>>> {
    match member(tree, key) {
        None => Some(None),
        Some(JsonTree::Text(t)) => match canonical_timestamp(t) {
            Some(c) => Some(Some(c)),
            None => None,
        },
        Some(_) => None,
    }
}

/// Reads an optional timestamp property of a value.
pub fn read_timestamp(v: &serde_json::Value, key: &str) -> (r: Option<Option<Timestamp>>)
    ensures
        match r {
            Some(t) => timestamp_field(json_tree(*v), key@) == Some(timestamp_model(t)),
            None => timestamp_field(json_tree(*v), key@) is None,
        },
{
    match get_member(v, key) {
        None => Some(None),
        Some(m) => match as_text(m) {
            Some(s) => match Timestamp::parse(s) {
                Some(t) => Some(Some(t)),
                None => None,
            },
            None => None,
        },
    }
}

} // verus!
