//! The data model: playlist requests as read from the batch input, resolved
//! playlist metadata, planned tracks and albums, and the per-track result
//! records that are accumulated for persistence.

use vstd::prelude::*;

use crate::outcome::DownloadStatusEnum;
use crate::outcome::StatusView;

verus! {

/// The view of an optional string.
pub open spec fn opt_view(o: Option<String>) -> Option<Seq<char>> {
    match o {
        Some(s) => Some(s@),
        None => None,
    }
}

/// Album metadata of one playlist request, as given in the batch input.
pub struct AlbumPayload {
    pub author_name: String,
    /// Explicit album-name override; when absent the remote playlist's
    /// title is used instead.
    pub playlist_name: Option<String>,
    pub genre: String,
    pub comment: Option<String>,
}

/// Mathematical model of an [`AlbumPayload`].
pub struct AlbumPayloadView {
    pub author_name: Seq<char>,
    pub playlist_name: Option<Seq<char>>,
    pub genre: Seq<char>,
    pub comment: Option<Seq<char>>,
}

impl View for AlbumPayload {
    type V = AlbumPayloadView;

    open spec fn view(&self) -> AlbumPayloadView {
        AlbumPayloadView {
            author_name: self.author_name@,
            playlist_name: opt_view(self.playlist_name),
            genre: self.genre@,
            comment: opt_view(self.comment),
        }
    }
}

/// One playlist request of the batch input: a destination root, a playlist
/// source URL, and album metadata.
pub struct DownloadEntry {
    pub save_to: String,
    pub url: String,
    pub album: AlbumPayload,
}

/// Mathematical model of a [`DownloadEntry`].
pub struct DownloadEntryView {
    pub save_to: Seq<char>,
    pub url: Seq<char>,
    pub album: AlbumPayloadView,
}

impl View for DownloadEntry {
    type V = DownloadEntryView;

    open spec fn view(&self) -> DownloadEntryView {
        DownloadEntryView { save_to: self.save_to@, url: self.url@, album: self.album@ }
    }
}

impl DownloadEntry {
    pub fn new(save_to: String, url: String, album: AlbumPayload) -> (r: DownloadEntry)
        ensures
            r@ == (DownloadEntryView { save_to: save_to@, url: url@, album: album@ }),
    {
        DownloadEntry { save_to, url, album }
    }
}

/// One entry of a resolved playlist listing. A missing URL or title field
/// in the remote document is represented by an empty string.
pub struct PlaylistEntry {
    pub url: String,
    pub title: String,
}

/// Mathematical model of a [`PlaylistEntry`].
pub struct PlaylistEntryView {
    pub url: Seq<char>,
    pub title: Seq<char>,
}

impl View for PlaylistEntry {
    type V = PlaylistEntryView;

    open spec fn view(&self) -> PlaylistEntryView {
        PlaylistEntryView { url: self.url@, title: self.title@ }
    }
}

/// A resolved playlist listing: its title, when the remote document gives
/// one, and its entries in remote order.
pub struct PlaylistMetadata {
    pub title: Option<String>,
    pub entries: Vec<PlaylistEntry>,
}

/// Mathematical model of a [`PlaylistMetadata`].
pub struct PlaylistMetadataView {
    pub title: Option<Seq<char>>,
    pub entries: Seq<PlaylistEntryView>,
}

impl View for PlaylistMetadata {
    type V = PlaylistMetadataView;

    open spec fn view(&self) -> PlaylistMetadataView {
        PlaylistMetadataView {
            title: opt_view(self.title),
            entries: self.entries@.map_values(|e: PlaylistEntry| e@),
        }
    }
}

/// A single track to fetch: its source URL, its title, and the denormalized
/// album context needed for later reporting.
pub struct Track {
    pub url: String,
    pub author_name: String,
    pub track_name: String,
    pub genre: String,
    pub comment: String,
}

/// Mathematical model of a [`Track`].
pub struct TrackView {
    pub url: Seq<char>,
    pub author_name: Seq<char>,
    pub track_name: Seq<char>,
    pub genre: Seq<char>,
    pub comment: Seq<char>,
}

impl View for Track {
    type V = TrackView;

    open spec fn view(&self) -> TrackView {
        TrackView {
            url: self.url@,
            author_name: self.author_name@,
            track_name: self.track_name@,
            genre: self.genre@,
            comment: self.comment@,
        }
    }
}

impl Track {
    pub fn new(
        url: String,
        author_name: String,
        track_name: String,
        genre: String,
        comment: String,
    ) -> (r: Track)
        ensures
            r@ == (TrackView {
                url: url@,
                author_name: author_name@,
                track_name: track_name@,
                genre: genre@,
                comment: comment@,
            }),
    {
        Track { url, author_name, track_name, genre, comment }
    }
}

/// Resolved album identity for one playlist request, together with the
/// ordered list of tracks planned for it.
pub struct Album {
    pub url: String,
    pub author_name: String,
    pub album_name: String,
    pub genre: String,
    pub comment: String,
    pub tracks: Vec<Track>,
}

/// Mathematical model of an [`Album`].
pub struct AlbumView {
    pub url: Seq<char>,
    pub author_name: Seq<char>,
    pub album_name: Seq<char>,
    pub genre: Seq<char>,
    pub comment: Seq<char>,
    pub tracks: Seq<TrackView>,
}

impl View for Album {
    type V = AlbumView;

    open spec fn view(&self) -> AlbumView {
        AlbumView {
            url: self.url@,
            author_name: self.author_name@,
            album_name: self.album_name@,
            genre: self.genre@,
            comment: self.comment@,
            tracks: self.tracks@.map_values(|t: Track| t@),
        }
    }
}

impl Album {
    pub fn new(
        url: String,
        author_name: String,
        album_name: String,
        genre: String,
        comment: String,
        tracks: Vec<Track>,
    ) -> (r: Album)
        ensures
            r@ == (AlbumView {
                url: url@,
                author_name: author_name@,
                album_name: album_name@,
                genre: genre@,
                comment: comment@,
                tracks: tracks@.map_values(|t: Track| t@),
            }),
    {
        Album { url, author_name, album_name, genre, comment, tracks }
    }
}

/// One row of final accounting: a track's identity, its album context, and
/// the classified outcome of its download attempt.
pub struct DownloadResult {
    pub album_url: String,
    pub album_name: String,
    pub song_name: String,
    pub song_url: String,
    pub author_name: String,
    pub genre: String,
    pub comment: String,
    pub status: DownloadStatusEnum,
}

/// Mathematical model of a [`DownloadResult`].
pub struct DownloadResultView {
    pub album_url: Seq<char>,
    pub album_name: Seq<char>,
    pub song_name: Seq<char>,
    pub song_url: Seq<char>,
    pub author_name: Seq<char>,
    pub genre: Seq<char>,
    pub comment: Seq<char>,
    pub status: StatusView,
}

impl View for DownloadResult {
    type V = DownloadResultView;

    open spec fn view(&self) -> DownloadResultView {
        DownloadResultView {
            album_url: self.album_url@,
            album_name: self.album_name@,
            song_name: self.song_name@,
            song_url: self.song_url@,
            author_name: self.author_name@,
            genre: self.genre@,
            comment: self.comment@,
            status: self.status@,
        }
    }
}

impl DownloadResult {
    pub fn new(
        album_url: String,
        album_name: String,
        song_name: String,
        song_url: String,
        author_name: String,
        genre: String,
        comment: String,
        status: DownloadStatusEnum,
    ) -> (r: DownloadResult)
        ensures
            r@ == (DownloadResultView {
                album_url: album_url@,
                album_name: album_name@,
                song_name: song_name@,
                song_url: song_url@,
                author_name: author_name@,
                genre: genre@,
                comment: comment@,
                status: status@,
            }),
    {
        DownloadResult { album_url, album_name, song_name, song_url, author_name, genre, comment, status }
    }
}

/// The views of a sequence of result records.
pub open spec fn records_view(s: Seq<DownloadResult>) -> Seq<DownloadResultView> {
    s.map_values(|r: DownloadResult| r@)
}

} // verus!
