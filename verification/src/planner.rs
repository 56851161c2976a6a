//! The track planner: expands one playlist request plus its resolved
//! metadata into an album context with a concrete ordered track list, and
//! builds the destination paths used by the download executor.

use vstd::prelude::*;
use vstd::string::StringExecFns;

use crate::model::Album;
use crate::model::AlbumView;
use crate::model::DownloadEntry;
use crate::model::DownloadEntryView;
use crate::model::PlaylistEntryView;
use crate::model::PlaylistMetadata;
use crate::model::PlaylistMetadataView;
use crate::model::Track;
use crate::model::TrackView;
use crate::model::opt_view;
use crate::text::joined;
use crate::text::sanitized;
use crate::text::join_path;
use crate::text::sanitize_track_name;

verus! {

/// The album name used when a playlist request gives no explicit override
/// and the remote playlist has no title.
pub open spec fn default_album_name() -> Seq<char> {
    "Unknown Album"@
}

/// The comment used when a playlist request gives none.
pub open spec fn default_comment() -> Seq<char> {
    "No comment provided"@
}

/// Album-name resolution: explicit override first, else the remote
/// playlist's title, else the fixed placeholder.
pub open spec fn album_name_of(override_name: Option<Seq<char>>, remote_title: Option<Seq<char>>) -> Seq<char> {
    match override_name {
        Some(n) => n,
        None => match remote_title {
            Some(t) => t,
            None => default_album_name(),
        },
    }
}

/// Album-name resolution follows strict precedence: an explicit override
/// always wins, a remote title is used only without an override, and the
/// placeholder appears exactly when both are absent.
pub proof fn lemma_album_name_precedence(override_name: Option<Seq<char>>, remote_title: Option<Seq<char>>)
    ensures
        override_name is Some ==> album_name_of(override_name, remote_title) == override_name->0,
        override_name is None && remote_title is Some ==> album_name_of(override_name, remote_title)
            == remote_title->0,
        override_name is None && remote_title is None ==> album_name_of(override_name, remote_title)
            == default_album_name(),
{
}

/// Comment resolution: the explicit value, else the fixed placeholder.
pub open spec fn comment_of(comment: Option<Seq<char>>) -> Seq<char> {
    match comment {
        Some(c) => c,
        None => default_comment(),
    }
}

/// Whether a playlist entry is planned as a track: both its URL and its
/// title must be non-empty. Entries missing either are silently skipped
/// and never produce a result record.
pub open spec fn keeps_entry(e: PlaylistEntryView) -> bool {
    e.url.len() > 0 && e.title.len() > 0
}

/// The track planned for one kept playlist entry.
pub open spec fn planned_track(
    e: PlaylistEntryView,
    author_name: Seq<char>,
    genre: Seq<char>,
    comment: Seq<char>,
) -> TrackView {
    TrackView { url: e.url, author_name, track_name: e.title, genre, comment }
}

/// The ordered track list planned for a playlist listing: one track per
/// kept entry, in remote order.
pub open spec fn planned_tracks(
    entries: Seq<PlaylistEntryView>,
    author_name: Seq<char>,
    genre: Seq<char>,
    comment: Seq<char>,
) -> Seq<TrackView>
    decreases entries.len(),
{
    if entries.len() == 0 {
        Seq::empty()
    } else {
        let rest = planned_tracks(entries.drop_last(), author_name, genre, comment);
        if keeps_entry(entries.last()) {
            rest.push(planned_track(entries.last(), author_name, genre, comment))
        } else {
            rest
        }
    }
}

/// Planning never invents tracks: at most one per entry, and exactly one
/// per entry when every entry has a non-empty URL and a non-empty title.
pub proof fn lemma_planned_tracks_len(
    entries: Seq<PlaylistEntryView>,
    author_name: Seq<char>,
    genre: Seq<char>,
    comment: Seq<char>,
)
    ensures
        planned_tracks(entries, author_name, genre, comment).len() <= entries.len(),
        (forall|i: int| 0 <= i < entries.len() ==> keeps_entry(#[trigger] entries[i]))
            ==> planned_tracks(entries, author_name, genre, comment).len() == entries.len(),
    decreases entries.len(),
{
    if entries.len() > 0 {
        lemma_planned_tracks_len(entries.drop_last(), author_name, genre, comment);
    }
}

/// The album context planned for one playlist request and its resolved
/// metadata.
pub open spec fn planned_album(e: DownloadEntryView, m: PlaylistMetadataView) -> AlbumView {
    AlbumView {
        url: e.url,
        author_name: e.album.author_name,
        album_name: album_name_of(e.album.playlist_name, m.title),
        genre: e.album.genre,
        comment: comment_of(e.album.comment),
        tracks: planned_tracks(
            m.entries,
            e.album.author_name,
            e.album.genre,
            comment_of(e.album.comment),
        ),
    }
}

/// The destination directory for one album: `root/author/album`.
pub open spec fn album_dir_of(save_to: Seq<char>, author_name: Seq<char>, album_name: Seq<char>) -> Seq<char> {
    joined(joined(save_to, author_name), album_name)
}

/// The output template handed to the media fetcher for one track: the
/// sanitized track name inside the album directory, with the extension
/// left to the external tool.
pub open spec fn dest_template_of(album_dir: Seq<char>, track_name: Seq<char>) -> Seq<char> {
    joined(album_dir, sanitized(track_name) + ".%(ext)s"@)
}

/// Resolves the album name for one request: explicit override, else the
/// remote playlist's title, else the fixed placeholder.
pub fn resolve_album_name(override_name: &Option<String>, remote_title: &Option<String>) -> (r: String)
    ensures
        r@ == album_name_of(opt_view(*override_name), opt_view(*remote_title)),
{
    match override_name {
        Some(n) => n.clone(),
        None => match remote_title {
            Some(t) => t.clone(),
            None => "Unknown Album".to_owned(),
        },
    }
}

/// Resolves the comment for one request: the explicit value, else the
/// fixed placeholder.
pub fn resolve_comment(comment: &Option<String>) -> (r: String)
    ensures
        r@ == comment_of(opt_view(*comment)),
{
    match comment {
        Some(c) => c.clone(),
        None => "No comment provided".to_owned(),
    }
}

/// Expands one playlist request plus its resolved metadata into an album
/// context: resolved name, author, genre and comment, and one track per
/// entry with a non-empty URL and a non-empty title, in remote order.
pub fn plan_album(entry: &DownloadEntry, meta: &PlaylistMetadata) -> (a: Album)
    ensures
        a@ == planned_album(entry@, meta@),
{
    let album_name = resolve_album_name(&entry.album.playlist_name, &meta.title);
    let comment = resolve_comment(&entry.album.comment);
    let mut tracks: Vec<Track> = Vec::new();
    let n = meta.entries.len();
    let mut i: usize = 0;
    while i < n
        invariant
            n == meta.entries@.len(),
            i <= n,
            comment@ == comment_of(opt_view(entry.album.comment)),
            tracks@.map_values(|t: Track| t@) == planned_tracks(
                meta.entries@.map_values(|e: crate::model::PlaylistEntry| e@).subrange(0, i as int),
                entry.album.author_name@,
                entry.album.genre@,
                comment_of(opt_view(entry.album.comment)),
            ),
        decreases n - i,
    {
        let ghost entry_views = meta.entries@.map_values(|e: crate::model::PlaylistEntry| e@);
        let e = &meta.entries[i];
        if !e.url.as_str().is_empty() && !e.title.as_str().is_empty() {
            let track = Track {
                url: e.url.clone(),
                author_name: entry.album.author_name.clone(),
                track_name: e.title.clone(),
                genre: entry.album.genre.clone(),
                comment: comment.clone(),
            };
            tracks.push(track);
        }
        proof {
            assert(entry_views.subrange(0, i + 1 as int).drop_last() =~= entry_views.subrange(
                0,
                i as int,
            ));
            assert(entry_views.subrange(0, i + 1 as int).last() == entry_views[i as int]);
            assert(tracks@.map_values(|t: Track| t@) =~= planned_tracks(
                entry_views.subrange(0, i + 1 as int),
                entry.album.author_name@,
                entry.album.genre@,
                comment_of(opt_view(entry.album.comment)),
            ));
        }
        i = i + 1;
    }
    proof {
        let entry_views = meta.entries@.map_values(|e: crate::model::PlaylistEntry| e@);
        assert(entry_views.subrange(0, n as int) =~= entry_views);
    }
    Album {
        url: entry.url.clone(),
        author_name: entry.album.author_name.clone(),
        album_name,
        genre: entry.album.genre.clone(),
        comment,
        tracks,
    }
}

/// Builds the destination directory path `root/author/album` for one
/// album.
pub fn album_dir_path(save_to: &str, author_name: &str, album_name: &str) -> (r: String)
    ensures
        r@ == album_dir_of(save_to@, author_name@, album_name@),
{
    let first = join_path(save_to, author_name);
    join_path(first.as_str(), album_name)
}

/// Builds the output template for one track: the sanitized track name
/// inside the album directory, with a file-extension placeholder resolved
/// by the external tool.
pub fn track_dest_template(album_dir: &str, track_name: &str) -> (r: String)
    ensures
        r@ == dest_template_of(album_dir@, track_name@),
{
    let mut file_name = sanitize_track_name(track_name);
    file_name.append(".%(ext)s");
    join_path(album_dir, file_name.as_str())
}

} // verus!
