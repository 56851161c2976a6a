use tunebatch::decode::parse_batch_input;
use tunebatch::decode::parse_playlist_metadata;

#[test]
fn listing_with_title_and_entries_decodes() {
    let raw = r#"{"title": "Live Set", "entries": [{"url": "u1", "title": "Song A"}, {"url": "u2", "title": ""}]}"#;
    let meta = parse_playlist_metadata(raw).unwrap();
    assert_eq!(meta.title, Some("Live Set".to_string()));
    assert_eq!(meta.entries.len(), 2);
    assert_eq!(meta.entries[0].url, "u1");
    assert_eq!(meta.entries[0].title, "Song A");
    assert_eq!(meta.entries[1].url, "u2");
    assert_eq!(meta.entries[1].title, "");
}

#[test]
fn listing_without_title_decodes_with_no_title() {
    let raw = r#"{"entries": []}"#;
    let meta = parse_playlist_metadata(raw).unwrap();
    assert_eq!(meta.title, None);
    assert_eq!(meta.entries.len(), 0);
}

#[test]
fn listing_with_non_string_title_treats_it_as_absent() {
    let raw = r#"{"title": 3, "entries": []}"#;
    let meta = parse_playlist_metadata(raw).unwrap();
    assert_eq!(meta.title, None);
}

#[test]
fn entry_missing_fields_become_empty_strings() {
    let raw = r#"{"title": "T", "entries": [{"title": "only title"}, {"url": "only url"}, {}]}"#;
    let meta = parse_playlist_metadata(raw).unwrap();
    assert_eq!(meta.entries.len(), 3);
    assert_eq!(meta.entries[0].url, "");
    assert_eq!(meta.entries[0].title, "only title");
    assert_eq!(meta.entries[1].url, "only url");
    assert_eq!(meta.entries[1].title, "");
    assert_eq!(meta.entries[2].url, "");
    assert_eq!(meta.entries[2].title, "");
}

#[test]
fn listing_without_entries_is_a_metadata_failure() {
    let raw = r#"{"title": "T"}"#;
    let r = parse_playlist_metadata(raw);
    assert_eq!(r.err(), Some("entries field not found or is not an array".to_string()));
}

#[test]
fn listing_with_non_array_entries_is_a_metadata_failure() {
    let raw = r#"{"title": "T", "entries": 5}"#;
    assert!(parse_playlist_metadata(raw).is_err());
}

#[test]
fn malformed_listing_is_a_metadata_failure() {
    assert!(parse_playlist_metadata("not json at all").is_err());
}

#[test]
fn batch_input_decodes_every_request() {
    let raw = r#"[
        {"save_to": "/tmp/music", "url": "list-a",
         "album": {"author_name": "X", "playlist_name": "N", "genre": "G", "comment": "c"}},
        {"save_to": "/data", "url": "list-b",
         "album": {"author_name": "Y", "playlist_name": null, "genre": "H"}}
    ]"#;
    let entries = parse_batch_input(raw).unwrap();
    assert_eq!(entries.len(), 2);
    assert_eq!(entries[0].save_to, "/tmp/music");
    assert_eq!(entries[0].url, "list-a");
    assert_eq!(entries[0].album.author_name, "X");
    assert_eq!(entries[0].album.playlist_name, Some("N".to_string()));
    assert_eq!(entries[0].album.genre, "G");
    assert_eq!(entries[0].album.comment, Some("c".to_string()));
    assert_eq!(entries[1].save_to, "/data");
    assert_eq!(entries[1].album.playlist_name, None);
    assert_eq!(entries[1].album.comment, None);
}

#[test]
fn batch_input_missing_required_field_is_fatal() {
    let raw = r#"[{"save_to": "/tmp", "url": "P", "album": {"genre": "G"}}]"#;
    let r = parse_batch_input(raw);
    assert_eq!(r.err(), Some("missing or invalid field: author_name".to_string()));
}

#[test]
fn batch_input_missing_album_is_fatal() {
    let raw = r#"[{"save_to": "/tmp", "url": "P"}]"#;
    let r = parse_batch_input(raw);
    assert_eq!(r.err(), Some("missing or invalid field: album".to_string()));
}

#[test]
fn batch_input_that_is_no_array_is_fatal() {
    let raw = r#"{"save_to": "/tmp"}"#;
    let r = parse_batch_input(raw);
    assert_eq!(r.err(), Some("batch input is not an array of playlist requests".to_string()));
}

#[test]
fn malformed_batch_input_is_fatal() {
    assert!(parse_batch_input("[{").is_err());
}

#[test]
fn batch_input_non_string_optional_field_is_fatal() {
    let raw = r#"[{"save_to": "/tmp", "url": "P",
        "album": {"author_name": "X", "genre": "G", "comment": 7}}]"#;
    let r = parse_batch_input(raw);
    assert_eq!(r.err(), Some("missing or invalid field: comment".to_string()));
}
