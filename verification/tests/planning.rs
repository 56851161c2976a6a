use tunebatch::model::AlbumPayload;
use tunebatch::model::DownloadEntry;
use tunebatch::model::PlaylistEntry;
use tunebatch::model::PlaylistMetadata;
use tunebatch::planner::album_dir_path;
use tunebatch::planner::plan_album;
use tunebatch::planner::resolve_album_name;
use tunebatch::planner::resolve_comment;
use tunebatch::text::sanitize_track_name;
use tunebatch::planner::track_dest_template;

fn entry(save_to: &str, url: &str, author: &str, name: Option<&str>, genre: &str, comment: Option<&str>) -> DownloadEntry {
    DownloadEntry {
        save_to: save_to.to_string(),
        url: url.to_string(),
        album: AlbumPayload {
            author_name: author.to_string(),
            playlist_name: name.map(|s| s.to_string()),
            genre: genre.to_string(),
            comment: comment.map(|s| s.to_string()),
        },
    }
}

fn meta(title: Option<&str>, entries: &[(&str, &str)]) -> PlaylistMetadata {
    PlaylistMetadata {
        title: title.map(|s| s.to_string()),
        entries: entries
            .iter()
            .map(|(u, t)| PlaylistEntry { url: u.to_string(), title: t.to_string() })
            .collect(),
    }
}

#[test]
fn sanitize_replaces_every_separator() {
    assert_eq!(sanitize_track_name("a/b\\c"), "a_b_c");
    assert_eq!(sanitize_track_name("///"), "___");
    assert_eq!(sanitize_track_name("AC/DC - Back in Black"), "AC_DC - Back in Black");
}

#[test]
fn sanitize_keeps_clean_names() {
    assert_eq!(sanitize_track_name("Song A"), "Song A");
    assert_eq!(sanitize_track_name(""), "");
}

#[test]
fn sanitize_is_idempotent_on_examples() {
    let once = sanitize_track_name("a/b\\c/d");
    let twice = sanitize_track_name(&once);
    assert_eq!(once, twice);
}

#[test]
fn album_name_override_beats_remote_title() {
    let name = resolve_album_name(&Some("Mine".to_string()), &Some("Theirs".to_string()));
    assert_eq!(name, "Mine");
}

#[test]
fn album_name_falls_back_to_remote_title() {
    let name = resolve_album_name(&None, &Some("Theirs".to_string()));
    assert_eq!(name, "Theirs");
}

#[test]
fn album_name_placeholder_when_both_absent() {
    let name = resolve_album_name(&None, &None);
    assert_eq!(name, "Unknown Album");
}

#[test]
fn comment_placeholder_when_absent() {
    assert_eq!(resolve_comment(&None), "No comment provided");
    assert_eq!(resolve_comment(&Some("hi".to_string())), "hi");
}

#[test]
fn plan_skips_entries_missing_url_or_title() {
    let e = entry("/tmp/music", "P", "X", None, "G", None);
    let m = meta(
        Some("Live Set"),
        &[("u1", "Song A"), ("u2", ""), ("", "Song C"), ("u4", "Song D")],
    );
    let album = plan_album(&e, &m);
    assert_eq!(album.tracks.len(), 2);
    assert_eq!(album.tracks[0].url, "u1");
    assert_eq!(album.tracks[0].track_name, "Song A");
    assert_eq!(album.tracks[1].url, "u4");
    assert_eq!(album.tracks[1].track_name, "Song D");
}

#[test]
fn plan_resolves_album_context() {
    let e = entry("/tmp/music", "P", "X", None, "G", None);
    let m = meta(Some("Live Set"), &[("u1", "Song A")]);
    let album = plan_album(&e, &m);
    assert_eq!(album.url, "P");
    assert_eq!(album.author_name, "X");
    assert_eq!(album.album_name, "Live Set");
    assert_eq!(album.genre, "G");
    assert_eq!(album.comment, "No comment provided");
    assert_eq!(album.tracks[0].author_name, "X");
    assert_eq!(album.tracks[0].genre, "G");
    assert_eq!(album.tracks[0].comment, "No comment provided");
}

#[test]
fn plan_with_no_title_and_no_override_uses_placeholder() {
    let e = entry("/tmp/music", "P", "X", None, "G", None);
    let m = meta(None, &[("u1", "Song A")]);
    let album = plan_album(&e, &m);
    assert_eq!(album.album_name, "Unknown Album");
}

#[test]
fn plan_keeps_metadata_order() {
    let e = entry("/tmp/music", "P", "X", Some("Named"), "G", Some("c"));
    let m = meta(Some("T"), &[("u1", "A"), ("u2", "B"), ("u3", "C")]);
    let album = plan_album(&e, &m);
    let names: Vec<String> = album.tracks.iter().map(|t| t.track_name.clone()).collect();
    assert_eq!(names, vec!["A".to_string(), "B".to_string(), "C".to_string()]);
    assert_eq!(album.album_name, "Named");
    assert_eq!(album.comment, "c");
}

#[test]
fn album_dir_joins_root_author_album() {
    assert_eq!(album_dir_path("/tmp/music", "X", "Live Set"), "/tmp/music/X/Live Set");
}

#[test]
fn dest_template_uses_sanitized_name_and_extension_placeholder() {
    assert_eq!(track_dest_template("/d", "a/b"), "/d/a_b.%(ext)s");
    assert_eq!(track_dest_template("/tmp/music/X/L", "Song A"), "/tmp/music/X/L/Song A.%(ext)s");
}
