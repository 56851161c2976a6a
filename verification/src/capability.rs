//! The capability boundary: everything the batch driver needs from the
//! outside world — the metadata query, destination-directory creation, the
//! per-track fetch, and classified console messages — behind one trait, so
//! that the orchestration and accounting logic runs the same over a real
//! subprocess-backed implementation and over a scripted one.

use vstd::prelude::*;

use crate::executor::FetchStatus;
use crate::executor::FetchStatusView;

verus! {

/// Classification of one console message.
#[derive(Clone, Copy)]
pub enum MessageClass {
    Info,
    Success,
    Error,
}

/// The view of a reply that carries a document or diagnostic text.
pub open spec fn reply_view(r: Result<String, String>) -> Result<Seq<char>, Seq<char>> {
    match r {
        Ok(s) => Ok(s@),
        Err(e) => Err(e@),
    }
}

/// The view of a reply that carries only diagnostic text on failure.
pub open spec fn unit_reply_view(r: Result<(), String>) -> Result<(), Seq<char>> {
    match r {
        Ok(_) => Ok(()),
        Err(e) => Err(e@),
    }
}

/// A provider of the external operations the batch driver depends on.
///
/// Each operation's reply is described by a spec function of the provider
/// and the arguments, so that the driver's contract pins every record to
/// the replies this capability gives. The spec functions default to an
/// unspecified value: an implementation outside the verified world leaves
/// them at that default, and nothing is then claimed of its replies.
pub trait MediaCapability {
    /// The reply the flat-listing metadata query returns for a playlist
    /// URL: the raw listing document, or diagnostic text on failure.
    open spec fn info_spec(&self, url: Seq<char>) -> Result<Seq<char>, Seq<char>> {
        arbitrary()
    }

    /// The reply destination-directory creation returns for a path:
    /// success, or diagnostic text on failure.
    open spec fn dir_spec(&self, path: Seq<char>) -> Result<(), Seq<char>> {
        arbitrary()
    }

    /// The observed fate of a fetch of `url` into `dest`.
    open spec fn fetch_spec(&self, url: Seq<char>, dest: Seq<char>) -> FetchStatusView {
        arbitrary()
    }

    /// Queries the flat listing of one playlist. A single attempt, no
    /// caching and no retry.
    fn playlist_info(&self, url: &String) -> (r: Result<String, String>)
        ensures
            reply_view(r) == self.info_spec(url@),
    ;

    /// Creates the destination directory and all missing path segments.
    fn ensure_dir(&self, path: &String) -> (r: Result<(), String>)
        ensures
            unit_reply_view(r) == self.dir_spec(path@),
    ;

    /// Invokes the media fetcher once for one track. A single invocation
    /// settles the outcome; it may block for an externally-determined
    /// duration.
    fn fetch_track(&self, url: &String, dest: &String) -> (r: FetchStatus)
        ensures
            r@ == self.fetch_spec(url@, dest@),
    ;

    /// Emits one classified console message.
    fn notify(&self, class: MessageClass, text: &String);
}

/// A scripted capability: every operation answers from a fixed script,
/// so orchestration and accounting can run without any external binary.
pub struct ScriptedCapability {
    /// The reply given to every metadata query.
    pub info_reply: Result<String, String>,
    /// When set, every directory creation fails with this detail.
    pub dir_error: Option<String>,
    /// The fate reported for every fetch.
    pub fetch_reply: FetchStatus,
}

impl MediaCapability for ScriptedCapability {
    open spec fn info_spec(&self, url: Seq<char>) -> Result<Seq<char>, Seq<char>> {
        reply_view(self.info_reply)
    }

    open spec fn dir_spec(&self, path: Seq<char>) -> Result<(), Seq<char>> {
        match self.dir_error {
            Some(e) => Err(e@),
            None => Ok(()),
        }
    }

    open spec fn fetch_spec(&self, url: Seq<char>, dest: Seq<char>) -> FetchStatusView {
        self.fetch_reply@
    }

    fn playlist_info(&self, _url: &String) -> (r: Result<String, String>) {
        match &self.info_reply {
            Ok(s) => Ok(s.clone()),
            Err(e) => Err(e.clone()),
        }
    }

    fn ensure_dir(&self, _path: &String) -> (r: Result<(), String>) {
        match &self.dir_error {
            Some(e) => Err(e.clone()),
            None => Ok(()),
        }
    }

    fn fetch_track(&self, _url: &String, _dest: &String) -> (r: FetchStatus) {
        match &self.fetch_reply {
            FetchStatus::Completed { code } => FetchStatus::Completed { code: *code },
            FetchStatus::SpawnFailed { detail } => FetchStatus::SpawnFailed {
                detail: detail.clone(),
            },
        }
    }

    fn notify(&self, _class: MessageClass, _text: &String) {
    }
}

} // verus!
