//! The property names of the vocabulary.

use vstd::prelude::*;

verus! {

/// The shape of every property name, and of `base`, which is none: its
/// length, its first and its last character. No two names share all three,
/// so any two names differ.
pub proof fn lemma_key_shapes()
    ensures
        "base"@.len() == 4 && "base"@[0] == 'b' && "base"@[3] == 'e',
        "@context"@.len() == 8 && "@context"@[0] == '@' && "@context"@[7] == 't',
        "@vocab"@.len() == 6 && "@vocab"@[0] == '@' && "@vocab"@[5] == 'b',
        "@language"@.len() == 9 && "@language"@[0] == '@' && "@language"@[8] == 'e',
        "type"@.len() == 4 && "type"@[0] == 't' && "type"@[3] == 'e',
        "id"@.len() == 2 && "id"@[0] == 'i' && "id"@[1] == 'd',
        "name"@.len() == 4 && "name"@[0] == 'n' && "name"@[3] == 'e',
        "url"@.len() == 3 && "url"@[0] == 'u' && "url"@[2] == 'l',
        "published"@.len() == 9 && "published"@[0] == 'p' && "published"@[8] == 'd',
        "image"@.len() == 5 && "image"@[0] == 'i' && "image"@[4] == 'e',
        "content"@.len() == 7 && "content"@[0] == 'c' && "content"@[6] == 't',
        "summary"@.len() == 7 && "summary"@[0] == 's' && "summary"@[6] == 'y',
        "audience"@.len() == 8 && "audience"@[0] == 'a' && "audience"@[7] == 'e',
        "attributedTo"@.len() == 12 && "attributedTo"@[0] == 'a' && "attributedTo"@[11] == 'o',
        "href"@.len() == 4 && "href"@[0] == 'h' && "href"@[3] == 'f',
        "mediaType"@.len() == 9 && "mediaType"@[0] == 'm' && "mediaType"@[8] == 'e',
        "rel"@.len() == 3 && "rel"@[0] == 'r' && "rel"@[2] == 'l',
        "hreflang"@.len() == 8 && "hreflang"@[0] == 'h' && "hreflang"@[7] == 'g',
        "height"@.len() == 6 && "height"@[0] == 'h' && "height"@[5] == 't',
        "width"@.len() == 5 && "width"@[0] == 'w' && "width"@[4] == 'h',
        "preview"@.len() == 7 && "preview"@[0] == 'p' && "preview"@[6] == 'w',
        "duration"@.len() == 8 && "duration"@[0] == 'd' && "duration"@[7] == 'n',
        "actor"@.len() == 5 && "actor"@[0] == 'a' && "actor"@[4] == 'r',
        "object"@.len() == 6 && "object"@[0] == 'o' && "object"@[5] == 't',
        "target"@.len() == 6 && "target"@[0] == 't' && "target"@[5] == 't',
        "result"@.len() == 6 && "result"@[0] == 'r' && "result"@[5] == 't',
        "origin"@.len() == 6 && "origin"@[0] == 'o' && "origin"@[5] == 'n',
        "instrument"@.len() == 10 && "instrument"@[0] == 'i' && "instrument"@[9] == 't',
        "totalItems"@.len() == 10 && "totalItems"@[0] == 't' && "totalItems"@[9] == 's',
        "items"@.len() == 5 && "items"@[0] == 'i' && "items"@[4] == 's',
        "orderedItems"@.len() == 12 && "orderedItems"@[0] == 'o' && "orderedItems"@[11] == 's',
        "partOf"@.len() == 6 && "partOf"@[0] == 'p' && "partOf"@[5] == 'f',
{
    reveal_strlit("base");
    reveal_strlit("@context");
    reveal_strlit("@vocab");
    reveal_strlit("@language");
    reveal_strlit("type");
    reveal_strlit("id");
    reveal_strlit("name");
    reveal_strlit("url");
    reveal_strlit("published");
    reveal_strlit("image");
    reveal_strlit("content");
    reveal_strlit("summary");
    reveal_strlit("audience");
    reveal_strlit("attributedTo");
    reveal_strlit("href");
    reveal_strlit("mediaType");
    reveal_strlit("rel");
    reveal_strlit("hreflang");
    reveal_strlit("height");
    reveal_strlit("width");
    reveal_strlit("preview");
    reveal_strlit("duration");
    reveal_strlit("actor");
    reveal_strlit("object");
    reveal_strlit("target");
    reveal_strlit("result");
    reveal_strlit("origin");
    reveal_strlit("instrument");
    reveal_strlit("totalItems");
    reveal_strlit("items");
    reveal_strlit("orderedItems");
    reveal_strlit("partOf");
}

} // verus!
