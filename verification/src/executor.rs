//! The download executor's outcome classification: how the observed fate
//! of one external fetch invocation maps to a download status.

use vstd::prelude::*;
use vstd::string::StringExecFns;

use crate::outcome::DownloadStatusEnum;
use crate::outcome::StatusView;
use crate::text::int_dec;
use crate::text::i32_dec;

verus! {

/// The observed fate of one external fetch invocation.
pub enum FetchStatus {
    /// The fetcher process ran to completion; `code` is its exit code, or
    /// `None` when the process was terminated without one (for example by
    /// a signal).
    Completed { code: Option<i32> },
    /// The fetcher process could not be spawned, or its pipes failed: the
    /// environment is broken rather than the medium unfetchable.
    SpawnFailed { detail: String },
}

/// Mathematical model of a [`FetchStatus`].
pub enum FetchStatusView {
    Completed { code: Option<int> },
    SpawnFailed { detail: Seq<char> },
}

impl View for FetchStatus {
    type V = FetchStatusView;

    open spec fn view(&self) -> FetchStatusView {
        match self {
            FetchStatus::Completed { code } => FetchStatusView::Completed {
                code: match code {
                    Some(c) => Some(*c as int),
                    None => None,
                },
            },
            FetchStatus::SpawnFailed { detail } => FetchStatusView::SpawnFailed { detail: detail@ },
        }
    }
}

/// The detail text recorded for a fetch that ran but failed: it carries
/// the track URL and the observed exit code.
pub open spec fn fetch_failure_detail(url: Seq<char>, code: int) -> Seq<char> {
    "Error downloading: "@ + url + ", status code: "@ + int_dec(code)
}

/// Classification of one fetch invocation: a zero exit status is a
/// success; any non-zero exit status is a media-fetch failure carrying the
/// URL and the code (with `-1` standing in when no code is available);
/// a spawn failure is an I/O error.
pub open spec fn classified(st: FetchStatusView, url: Seq<char>) -> StatusView {
    match st {
        FetchStatusView::Completed { code } => match code {
            Some(c) => if c == 0 {
                StatusView::Success
            } else {
                StatusView::MediaFetchError(fetch_failure_detail(url, c))
            },
            None => StatusView::MediaFetchError(fetch_failure_detail(url, -1)),
        },
        FetchStatusView::SpawnFailed { detail } => StatusView::IoError(detail),
    }
}

/// Builds the detail text for a fetch that ran but failed.
fn fetch_failure_text(url: &str, code: i32) -> (r: String)
    ensures
        r@ == fetch_failure_detail(url@, code as int),
{
    let mut s = "Error downloading: ".to_owned();
    s.append(url);
    s.append(", status code: ");
    let rendered = i32_dec(code);
    s.append(rendered.as_str());
    s
}

/// Classifies the observed fate of one fetch invocation into the
/// download status recorded for the track.
pub fn classify_fetch(st: &FetchStatus, url: &str) -> (r: DownloadStatusEnum)
    ensures
        r@ == classified(st@, url@),
{
    match st {
        FetchStatus::Completed { code } => match code {
            Some(c) => {
                if *c == 0 {
                    DownloadStatusEnum::Success
                } else {
                    DownloadStatusEnum::MediaFetchError(fetch_failure_text(url, *c))
                }
            },
            None => DownloadStatusEnum::MediaFetchError(fetch_failure_text(url, -1)),
        },
        FetchStatus::SpawnFailed { detail } => DownloadStatusEnum::IoError(detail.clone()),
    }
}

} // verus!
