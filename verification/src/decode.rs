//! Decoding of the two JSON documents the system consumes: the batch
//! input (a sequence of playlist requests) and the flat playlist listing
//! the metadata query returns. The JSON syntax itself is handled by
//! `serde_json` behind trusted wrappers; what a document parses to is
//! named by [`json_doc_of`] and carried as a ghost model alongside every
//! parsed value, so the verified extraction into the crate's own types
//! has an exact contract over that name.

use vstd::prelude::*;
use vstd::string::StringExecFns;

use crate::model::AlbumPayload;
use crate::model::AlbumPayloadView;
use crate::model::DownloadEntry;
use crate::model::DownloadEntryView;
use crate::model::PlaylistEntry;
use crate::model::PlaylistEntryView;
use crate::model::PlaylistMetadata;
use crate::model::PlaylistMetadataView;

verus! {

#[verifier::external_type_specification]
#[verifier::external_body]
pub struct ExValue(serde_json::Value);

/// Mathematical model of a parsed JSON value, as far as the decoders
/// observe it: `null`, text, arrays and objects are distinguished;
/// numbers and booleans, which no decoder reads, are all `Scalar`.
pub enum JsonView {
    Null,
    Text(Seq<char>),
    Array(Seq<JsonView>),
    Object(Map<Seq<char>, JsonView>),
    Scalar,
}

/// What `serde_json` parses a document to: the model of the parsed value,
/// or the diagnostic text of the parse failure. Parsing is a function of
/// the input text alone.
pub uninterp spec fn json_doc_of(s: Seq<char>) -> Result<JsonView, Seq<char>>;

/// A parsed JSON value together with the ghost model of what it holds.
/// Only the trusted wrappers below build one, and each relates the model
/// of what it hands out to the model of what it was given.
pub struct JsonValue {
    value: serde_json::Value,
    model: Ghost<JsonView>,
}

impl View for JsonValue {
    type V = JsonView;

    closed spec fn view(&self) -> JsonView {
        self.model@
    }
}

/// Relies on `serde_json::from_str`: parses one JSON document, failing
/// exactly on malformed input; on failure the error's display text is
/// handed back as the diagnostic.
#[verifier::external_body]
fn json_from_str(s: &str) -> (r: Result<JsonValue, String>)
    ensures
        match r {
            Ok(v) => json_doc_of(s@) matches Ok(m) && v@ == m,
            Err(e) => json_doc_of(s@) matches Err(d) && e@ == d,
        },
{
    match serde_json::from_str::<serde_json::Value>(s) {
        Ok(v) => Ok(JsonValue { value: v, model: Ghost(arbitrary()) }),
        Err(e) => Err(format!("{}", e)),
    }
}

/// Relies on `serde_json::Value::get`: looks a key up in a JSON object,
/// `None` when the value is no object or the key is absent; the found
/// subtree is handed out as an owned clone.
#[verifier::external_body]
fn json_get(v: &JsonValue, key: &str) -> (r: Option<JsonValue>)
    ensures
        match r {
            Some(f) => (match v@ {
                JsonView::Object(m) => m.contains_key(key@) && f@ == m[key@],
                _ => false,
            }),
            None => (match v@ {
                JsonView::Object(m) => !m.contains_key(key@),
                _ => true,
            }),
        },
{
    match v.value.get(key) {
        Some(f) => Some(JsonValue { value: f.clone(), model: Ghost(arbitrary()) }),
        None => None,
    }
}

/// Relies on `serde_json::Value::as_str`: the text a JSON string value
/// holds, `None` for any other kind of value.
#[verifier::external_body]
fn json_as_str(v: &JsonValue) -> (r: Option<String>)
    ensures
        match r {
            Some(s) => v@ == JsonView::Text(s@),
            None => !(v@ is Text),
        },
{
    match v.value.as_str() {
        Some(s) => Some(s.to_string()),
        None => None,
    }
}

/// Relies on `serde_json::Value::as_array`: the elements of a JSON array,
/// `None` for any other kind of value; the elements are handed out as
/// owned clones, in order.
#[verifier::external_body]
fn json_as_array(v: &JsonValue) -> (r: Option<Vec<JsonValue>>)
    ensures
        match r {
            Some(vs) => (match v@ {
                JsonView::Array(ms) => vs@.len() == ms.len() && (forall|i: int|
                    0 <= i < ms.len() ==> (#[trigger] vs@[i])@ == ms[i]),
                _ => false,
            }),
            None => !(v@ is Array),
        },
{
    match v.value.as_array() {
        Some(items) => {
            let mut out: Vec<JsonValue> = Vec::new();
            for item in items {
                out.push(JsonValue { value: item.clone(), model: Ghost(arbitrary()) });
            }
            Some(out)
        },
        None => None,
    }
}

/// Relies on `serde_json::Value::is_null`: whether the value is JSON
/// `null`.
#[verifier::external_body]
fn json_is_null(v: &JsonValue) -> (r: bool)
    ensures
        r == (v@ is Null),
{
    v.value.is_null()
}

/// The field a JSON object holds under a key, if the value is an object
/// and the key is present.
pub open spec fn field_of(doc: JsonView, key: Seq<char>) -> Option<JsonView> {
    match doc {
        JsonView::Object(m) => if m.contains_key(key) {
            Some(m[key])
        } else {
            None
        },
        _ => None,
    }
}

/// The diagnostic for a required field that is absent or of the wrong
/// kind.
pub open spec fn field_error_text(key: Seq<char>) -> Seq<char> {
    "missing or invalid field: "@ + key
}

/// A required string field: its text, or the field diagnostic when it is
/// absent or no string.
pub open spec fn req_str_field(doc: JsonView, key: Seq<char>) -> Result<Seq<char>, Seq<char>> {
    match field_of(doc, key) {
        Some(JsonView::Text(s)) => Ok(s),
        _ => Err(field_error_text(key)),
    }
}

/// An optional string field: absent or `null` is `None`, text is `Some`,
/// and any other kind of value is the field diagnostic.
pub open spec fn opt_str_field(doc: JsonView, key: Seq<char>) -> Result<
    Option<Seq<char>>,
    Seq<char>,
> {
    match field_of(doc, key) {
        None => Ok(None),
        Some(JsonView::Null) => Ok(None),
        Some(JsonView::Text(s)) => Ok(Some(s)),
        Some(_) => Err(field_error_text(key)),
    }
}

/// A listing entry's string field, with an empty string standing in when
/// the field is absent or no string.
pub open spec fn entry_text_or_empty(doc: JsonView, key: Seq<char>) -> Seq<char> {
    match field_of(doc, key) {
        Some(JsonView::Text(s)) => s,
        _ => Seq::empty(),
    }
}

fn field_error(key: &str) -> (r: String)
    ensures
        r@ == field_error_text(key@),
{
    let mut s = "missing or invalid field: ".to_owned();
    s.append(key);
    s
}

/// Reads a required string field of a JSON object.
fn required_string_field(v: &JsonValue, key: &str) -> (r: Result<String, String>)
    ensures
        match r {
            Ok(s) => req_str_field(v@, key@) == Ok::<_, Seq<char>>(s@),
            Err(e) => req_str_field(v@, key@) == Err::<Seq<char>, _>(e@),
        },
{
    match json_get(v, key) {
        Some(f) => match json_as_str(&f) {
            Some(s) => Ok(s),
            None => Err(field_error(key)),
        },
        None => Err(field_error(key)),
    }
}

/// Reads an optional string field of a JSON object: an absent key or a
/// JSON `null` is `None`; any other non-string value is an error.
fn optional_string_field(v: &JsonValue, key: &str) -> (r: Result<Option<String>, String>)
    ensures
        match r {
            Ok(o) => opt_str_field(v@, key@) == Ok::<_, Seq<char>>(crate::model::opt_view(o)),
            Err(e) => opt_str_field(v@, key@) == Err::<Option<Seq<char>>, _>(e@),
        },
{
    match json_get(v, key) {
        Some(f) => {
            if json_is_null(&f) {
                Ok(None)
            } else {
                match json_as_str(&f) {
                    Some(s) => Ok(Some(s)),
                    None => Err(field_error(key)),
                }
            }
        },
        None => Ok(None),
    }
}

/// Reads a string field of a playlist-listing entry, with an empty string
/// standing in when the field is absent or no string.
fn entry_string_field(v: &JsonValue, key: &str) -> (r: String)
    ensures
        r@ == entry_text_or_empty(v@, key@),
{
    match json_get(v, key) {
        Some(f) => match json_as_str(&f) {
            Some(s) => s,
            None => String::new(),
        },
        None => String::new(),
    }
}

/// The diagnostic for a listing without a usable `entries` array.
pub open spec fn no_entries_text() -> Seq<char> {
    "entries field not found or is not an array"@
}

/// The listing's title: the text of its `title` field, absent when the
/// field is missing or no string.
pub open spec fn title_field_of(doc: JsonView) -> Option<Seq<char>> {
    match field_of(doc, "title"@) {
        Some(JsonView::Text(t)) => Some(t),
        _ => None,
    }
}

/// The listing's entries: the elements of its `entries` array, `None`
/// when the field is missing or no array.
pub open spec fn entries_field_of(doc: JsonView) -> Option<Seq<JsonView>> {
    match field_of(doc, "entries"@) {
        Some(JsonView::Array(a)) => Some(a),
        _ => None,
    }
}

/// The playlist entry one listing element decodes to: its `url` and
/// `title` texts, each empty when absent or no string.
pub open spec fn entry_of(item: JsonView) -> PlaylistEntryView {
    PlaylistEntryView {
        url: entry_text_or_empty(item, "url"@),
        title: entry_text_or_empty(item, "title"@),
    }
}

/// What a parsed listing document decodes to: its title and its entries
/// in order, or the diagnostic when it has no usable `entries` array.
pub open spec fn listing_of(doc: JsonView) -> Result<PlaylistMetadataView, Seq<char>> {
    match entries_field_of(doc) {
        Some(items) => Ok(PlaylistMetadataView {
            title: title_field_of(doc),
            entries: items.map_values(|item: JsonView| entry_of(item)),
        }),
        None => Err(no_entries_text()),
    }
}

/// What a raw listing text resolves to: the parse failure's diagnostic,
/// or the decode of the parsed document.
pub open spec fn playlist_doc_of(s: Seq<char>) -> Result<PlaylistMetadataView, Seq<char>> {
    match json_doc_of(s) {
        Ok(doc) => listing_of(doc),
        Err(d) => Err(d),
    }
}

/// Decodes the raw flat-listing document of one playlist into its title
/// and its entries. A malformed document or a missing `entries` array is
/// a metadata failure for this playlist alone; a missing or non-string
/// `title` only leaves the title absent, and an entry's missing `url` or
/// `title` field becomes an empty string, which the planner skips.
pub fn parse_playlist_metadata(raw: &str) -> (r: Result<PlaylistMetadata, String>)
    ensures
        match r {
            Ok(m) => playlist_doc_of(raw@) == Ok::<_, Seq<char>>(m@),
            Err(e) => playlist_doc_of(raw@) == Err::<PlaylistMetadataView, _>(e@),
        },
{
    let doc = match json_from_str(raw) {
        Ok(v) => v,
        Err(e) => {
            return Err(e);
        },
    };
    let title = match json_get(&doc, "title") {
        Some(t) => json_as_str(&t),
        None => None,
    };
    let entries_field = match json_get(&doc, "entries") {
        Some(v) => v,
        None => {
            return Err("entries field not found or is not an array".to_owned());
        },
    };
    let items = match json_as_array(&entries_field) {
        Some(a) => a,
        None => {
            return Err("entries field not found or is not an array".to_owned());
        },
    };
    let ghost ms = entries_field_of(doc@)->0;
    let mut entries: Vec<PlaylistEntry> = Vec::new();
    let n = items.len();
    let mut i: usize = 0;
    while i < n
        invariant
            n == items@.len(),
            i <= n,
            ms.len() == n,
            forall|q: int| 0 <= q < n ==> (#[trigger] items@[q])@ == ms[q],
            entries@.map_values(|e: PlaylistEntry| e@) == ms.subrange(0, i as int).map_values(
                |item: JsonView| entry_of(item),
            ),
        decreases n - i,
    {
        let item = &items[i];
        let url = entry_string_field(item, "url");
        let entry_title = entry_string_field(item, "title");
        let entry = PlaylistEntry { url, title: entry_title };
        let ghost pre = entries@;
        proof {
            assert(item@ == ms[i as int]);
            assert(entry@ == entry_of(ms[i as int]));
        }
        entries.push(entry);
        proof {
            assert(entries@.map_values(|e: PlaylistEntry| e@) =~= pre.map_values(
                |e: PlaylistEntry| e@,
            ).push(entry_of(ms[i as int])));
            assert(ms.subrange(0, i + 1 as int) =~= ms.subrange(0, i as int).push(ms[i as int]));
            assert(ms.subrange(0, i + 1 as int).map_values(|item: JsonView| entry_of(item)) =~= ms
                .subrange(0, i as int).map_values(|item: JsonView| entry_of(item)).push(
                entry_of(ms[i as int]),
            ));
        }
        i = i + 1;
    }
    let result = PlaylistMetadata { title, entries };
    proof {
        assert(ms.subrange(0, n as int) =~= ms);
        assert(result@.entries =~= ms.map_values(|item: JsonView| entry_of(item)));
        assert(playlist_doc_of(raw@) == Ok::<_, Seq<char>>(result@));
    }
    Ok(result)
}

/// The diagnostic for a batch document whose top level is no array.
pub open spec fn not_array_text() -> Seq<char> {
    "batch input is not an array of playlist requests"@
}

/// The request elements of a parsed batch document: the parse failure's
/// diagnostic, the array-shape diagnostic, or the elements in order.
pub open spec fn batch_doc_items(s: Seq<char>) -> Result<Seq<JsonView>, Seq<char>> {
    match json_doc_of(s) {
        Err(d) => Err(d),
        Ok(doc) => match doc {
            JsonView::Array(ms) => Ok(ms),
            _ => Err(not_array_text()),
        },
    }
}

/// The playlist request one batch element decodes to: `save_to`, `url`
/// and the album's `author_name` and `genre` are required strings, the
/// album itself a required field, `playlist_name` and `comment` optional;
/// the first missing or ill-kinded field decides the diagnostic.
pub open spec fn request_of(item: JsonView) -> Result<DownloadEntryView, Seq<char>> {
    match req_str_field(item, "save_to"@) {
        Err(e) => Err(e),
        Ok(save_to) => match req_str_field(item, "url"@) {
            Err(e) => Err(e),
            Ok(url) => match field_of(item, "album"@) {
                None => Err(field_error_text("album"@)),
                Some(album) => match req_str_field(album, "author_name"@) {
                    Err(e) => Err(e),
                    Ok(author_name) => match req_str_field(album, "genre"@) {
                        Err(e) => Err(e),
                        Ok(genre) => match opt_str_field(album, "playlist_name"@) {
                            Err(e) => Err(e),
                            Ok(playlist_name) => match opt_str_field(album, "comment"@) {
                                Err(e) => Err(e),
                                Ok(comment) => Ok(DownloadEntryView {
                                    save_to,
                                    url,
                                    album: AlbumPayloadView {
                                        author_name,
                                        playlist_name,
                                        genre,
                                        comment,
                                    },
                                }),
                            },
                        },
                    },
                },
            },
        },
    }
}

/// Decodes the batch input document: an ordered sequence of playlist
/// requests. An unparseable document, a top level that is no array, or a
/// request missing a required field is fatal to the whole run: no request
/// of a malformed batch is ever processed, and the diagnostic is the
/// first failure in document order.
#[verifier::rlimit(60)]
pub fn parse_batch_input(raw: &str) -> (r: Result<Vec<DownloadEntry>, String>)
    ensures
        match r {
            Ok(es) => batch_doc_items(raw@) matches Ok(ms) && es@.len() == ms.len() && (forall|
                i: int,
            |
                0 <= i < ms.len() ==> request_of(ms[i]) == Ok::<_, Seq<char>>(
                    (#[trigger] es@[i])@,
                )),
            Err(e) => (match batch_doc_items(raw@) {
                Err(d) => e@ == d,
                Ok(ms) => exists|i: int|
                    0 <= i < ms.len() && request_of(#[trigger] ms[i]) == Err::<
                        DownloadEntryView,
                        _,
                    >(e@) && (forall|q: int| 0 <= q < i ==> request_of(ms[q]) is Ok),
            }),
        },
{
    let doc = match json_from_str(raw) {
        Ok(v) => v,
        Err(e) => {
            return Err(e);
        },
    };
    let items = match json_as_array(&doc) {
        Some(a) => a,
        None => {
            return Err("batch input is not an array of playlist requests".to_owned());
        },
    };
    let ghost ms = doc@->Array_0;
    let mut entries: Vec<DownloadEntry> = Vec::new();
    let n = items.len();
    let mut i: usize = 0;
    while i < n
        invariant
            n == items@.len(),
            i <= n,
            ms.len() == n,
            batch_doc_items(raw@) == Ok::<_, Seq<char>>(ms),
            forall|q: int| 0 <= q < n ==> (#[trigger] items@[q])@ == ms[q],
            entries@.len() == i,
            forall|q: int|
                0 <= q < i ==> request_of(ms[q]) == Ok::<_, Seq<char>>(
                    (#[trigger] entries@[q])@,
                ),
        decreases n - i,
    {
        let item = &items[i];
        let ghost mi = ms[i as int];
        proof {
            assert(item@ == mi);
            assert forall|q: int| 0 <= q < i implies request_of(#[trigger] ms[q]) is Ok by {
                assert(request_of(ms[q]) == Ok::<_, Seq<char>>(entries@[q]@));
            };
        }
        let save_to = match required_string_field(item, "save_to") {
            Ok(s) => s,
            Err(e) => {
                proof {
                    assert(request_of(mi) == Err::<DownloadEntryView, _>(e@));
                }
                return Err(e);
            },
        };
        let url = match required_string_field(item, "url") {
            Ok(s) => s,
            Err(e) => {
                proof {
                    assert(request_of(mi) == Err::<DownloadEntryView, _>(e@));
                }
                return Err(e);
            },
        };
        let album_field = match json_get(item, "album") {
            Some(a) => a,
            None => {
                let e = field_error("album");
                proof {
                    assert(request_of(mi) == Err::<DownloadEntryView, _>(e@));
                }
                return Err(e);
            },
        };
        proof {
            assert(field_of(mi, "album"@) == Some(album_field@));
        }
        let author_name = match required_string_field(&album_field, "author_name") {
            Ok(s) => s,
            Err(e) => {
                proof {
                    assert(request_of(mi) == Err::<DownloadEntryView, _>(e@));
                }
                return Err(e);
            },
        };
        let genre = match required_string_field(&album_field, "genre") {
            Ok(s) => s,
            Err(e) => {
                proof {
                    assert(request_of(mi) == Err::<DownloadEntryView, _>(e@));
                }
                return Err(e);
            },
        };
        let playlist_name = match optional_string_field(&album_field, "playlist_name") {
            Ok(o) => o,
            Err(e) => {
                proof {
                    assert(request_of(mi) == Err::<DownloadEntryView, _>(e@));
                }
                return Err(e);
            },
        };
        let comment = match optional_string_field(&album_field, "comment") {
            Ok(o) => o,
            Err(e) => {
                proof {
                    assert(request_of(mi) == Err::<DownloadEntryView, _>(e@));
                }
                return Err(e);
            },
        };
        let entry = DownloadEntry {
            save_to,
            url,
            album: AlbumPayload { author_name, playlist_name, genre, comment },
        };
        proof {
            assert(request_of(mi) == Ok::<_, Seq<char>>(entry@));
        }
        entries.push(entry);
        i = i + 1;
    }
    Ok(entries)
}

} // verus!
