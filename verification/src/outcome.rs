//! The classified result of attempting to fetch one track, and its
//! serialized form (a textual tag plus optional detail text).

use vstd::prelude::*;

verus! {

/// Outcome of one download attempt.
///
/// `Pending` stands for an attempt that has not been resolved yet; it is
/// never terminal and the result store refuses to persist it.
pub enum DownloadStatusEnum {
    /// The external fetch completed with a zero exit status.
    Success,
    /// The external fetch ran but reported failure; the detail text carries
    /// the track URL and the observed exit code.
    MediaFetchError(String),
    /// A local filesystem or process-spawn failure.
    IoError(String),
    /// The playlist listing could not be retrieved or parsed.
    MetadataError(String),
    /// Reserved: an outcome not yet resolved.
    Pending,
}

/// Mathematical model of a `DownloadStatusEnum` value.
pub enum StatusView {
    Success,
    MediaFetchError(Seq<char>),
    IoError(Seq<char>),
    MetadataError(Seq<char>),
    Pending,
}

impl View for DownloadStatusEnum {
    type V = StatusView;

    open spec fn view(&self) -> StatusView {
        match self {
            DownloadStatusEnum::Success => StatusView::Success,
            DownloadStatusEnum::MediaFetchError(d) => StatusView::MediaFetchError(d@),
            DownloadStatusEnum::IoError(d) => StatusView::IoError(d@),
            DownloadStatusEnum::MetadataError(d) => StatusView::MetadataError(d@),
            DownloadStatusEnum::Pending => StatusView::Pending,
        }
    }
}

/// The textual tag under which a status is persisted.
pub open spec fn tag_of(s: StatusView) -> Seq<char> {
    match s {
        StatusView::Success => "Success"@,
        StatusView::MediaFetchError(_) => "MediaFetchError"@,
        StatusView::IoError(_) => "IoError"@,
        StatusView::MetadataError(_) => "MetadataError"@,
        StatusView::Pending => "Pending"@,
    }
}

/// The detail text a status carries, if any.
pub open spec fn detail_of(s: StatusView) -> Option<Seq<char>> {
    match s {
        StatusView::Success => None,
        StatusView::MediaFetchError(d) => Some(d),
        StatusView::IoError(d) => Some(d),
        StatusView::MetadataError(d) => Some(d),
        StatusView::Pending => None,
    }
}

impl DownloadStatusEnum {
    /// The textual tag of this status, as persisted.
    pub fn tag(&self) -> (r: String)
        ensures
            r@ == tag_of(self@),
    {
        match self {
            DownloadStatusEnum::Success => "Success".to_owned(),
            DownloadStatusEnum::MediaFetchError(_) => "MediaFetchError".to_owned(),
            DownloadStatusEnum::IoError(_) => "IoError".to_owned(),
            DownloadStatusEnum::MetadataError(_) => "MetadataError".to_owned(),
            DownloadStatusEnum::Pending => "Pending".to_owned(),
        }
    }

    /// The detail text of this status, if it carries one.
    pub fn detail(&self) -> (r: Option<String>)
        ensures
            match r {
                Some(d) => detail_of(self@) == Some(d@),
                None => detail_of(self@) is None,
            },
    {
        match self {
            DownloadStatusEnum::Success => None,
            DownloadStatusEnum::MediaFetchError(d) => Some(d.clone()),
            DownloadStatusEnum::IoError(d) => Some(d.clone()),
            DownloadStatusEnum::MetadataError(d) => Some(d.clone()),
            DownloadStatusEnum::Pending => None,
        }
    }

    /// Whether this status may appear in persisted results.
    pub fn is_terminal(&self) -> (r: bool)
        ensures
            r == !(self@ is Pending),
    {
        match self {
            DownloadStatusEnum::Pending => false,
            _ => true,
        }
    }
}

} // verus!
