//! The batch driver: processes playlist requests in input order, resolves
//! each playlist through the capability, plans its tracks, dispatches each
//! track once, and appends exactly one result record per dispatched track.

use vstd::prelude::*;
use vstd::string::StringExecFns;

use crate::capability::MediaCapability;
use crate::capability::MessageClass;
use crate::decode::parse_playlist_metadata;
use crate::decode::playlist_doc_of;
use crate::executor::FetchStatusView;
use crate::executor::classified;
use crate::executor::classify_fetch;
use crate::executor::fetch_failure_detail;
use crate::model::Album;
use crate::model::DownloadEntry;
use crate::model::DownloadEntryView;
use crate::model::DownloadResult;
use crate::model::DownloadResultView;
use crate::model::PlaylistMetadata;
use crate::model::PlaylistMetadataView;
use crate::model::Track;
use crate::model::records_view;
use crate::outcome::DownloadStatusEnum;
use crate::outcome::StatusView;
use crate::planner::album_dir_of;
use crate::planner::album_dir_path;
use crate::planner::dest_template_of;
use crate::planner::plan_album;
use crate::planner::planned_album;
use crate::planner::track_dest_template;

verus! {

/// The record produced for track `j` of one playlist, given the replies
/// the capability gives: the planned track's identity and album context,
/// and the classified fate of its one fetch invocation.
pub open spec fn expected_record<C: MediaCapability>(
    cap: C,
    e: DownloadEntryView,
    m: PlaylistMetadataView,
    j: int,
) -> DownloadResultView {
    let album = planned_album(e, m);
    let t = album.tracks[j];
    let dir = album_dir_of(e.save_to, album.author_name, album.album_name);
    DownloadResultView {
        album_url: album.url,
        album_name: album.album_name,
        song_name: t.track_name,
        song_url: t.url,
        author_name: album.author_name,
        genre: album.genre,
        comment: album.comment,
        status: classified(cap.fetch_spec(t.url, dest_template_of(dir, t.track_name)), t.url),
    }
}

/// The records one playlist request contributes to the batch: none when
/// its destination directory cannot be created, else one per planned
/// track, in metadata order.
pub open spec fn playlist_records<C: MediaCapability>(
    cap: C,
    e: DownloadEntryView,
    m: PlaylistMetadataView,
) -> Seq<DownloadResultView> {
    let album = planned_album(e, m);
    let dir = album_dir_of(e.save_to, album.author_name, album.album_name);
    if cap.dir_spec(dir) is Err {
        Seq::empty()
    } else {
        Seq::new(album.tracks.len(), |j: int| expected_record(cap, e, m, j))
    }
}

/// Dispatches one planned track: builds the output template from the
/// sanitized track name, invokes the fetcher once, classifies the fate of
/// that invocation, and combines it with the track's denormalized album
/// context into one result record.
pub fn download_track_helper<C: MediaCapability>(
    cap: &C,
    track: &Track,
    album: &Album,
    album_dir: &String,
) -> (r: DownloadResult)
    ensures
        r@ == (DownloadResultView {
            album_url: album@.url,
            album_name: album@.album_name,
            song_name: track@.track_name,
            song_url: track@.url,
            author_name: album@.author_name,
            genre: album@.genre,
            comment: album@.comment,
            status: classified(
                cap.fetch_spec(
                    track@.url,
                    dest_template_of(album_dir@, track@.track_name),
                ),
                track@.url,
            ),
        }),
{
    let dest = track_dest_template(album_dir.as_str(), track.track_name.as_str());
    let st = cap.fetch_track(&track.url, &dest);
    let status = classify_fetch(&st, track.url.as_str());
    match &status {
        DownloadStatusEnum::Success => {
            let mut msg = "Finished downloading: ".to_owned();
            msg.append(track.url.as_str());
            cap.notify(MessageClass::Success, &msg);
        },
        _ => {
            let mut msg = "Failed to download: ".to_owned();
            msg.append(track.url.as_str());
            cap.notify(MessageClass::Error, &msg);
        },
    }
    DownloadResult {
        album_url: album.url.clone(),
        album_name: album.album_name.clone(),
        song_name: track.track_name.clone(),
        song_url: track.url.clone(),
        author_name: album.author_name.clone(),
        genre: album.genre.clone(),
        comment: album.comment.clone(),
        status,
    }
}

/// Processes one playlist request whose metadata resolved: plans the
/// album, creates its destination directory, and dispatches every planned
/// track in order, appending one record per dispatched track. When the
/// directory cannot be created the whole playlist is skipped and
/// contributes no records.
pub fn process_playlist<C: MediaCapability>(
    cap: &C,
    entry: &DownloadEntry,
    meta: &PlaylistMetadata,
    out: &mut Vec<DownloadResult>,
) -> (n: usize)
    ensures
        records_view(final(out)@) == records_view(old(out)@) + playlist_records(
            *cap,
            entry@,
            meta@,
        ),
        n as int == playlist_records(*cap, entry@, meta@).len(),
{
    let album = plan_album(entry, meta);
    let dir = album_dir_path(
        entry.save_to.as_str(),
        album.author_name.as_str(),
        album.album_name.as_str(),
    );
    let mut msg = "Processing: ".to_owned();
    msg.append(entry.url.as_str());
    cap.notify(MessageClass::Info, &msg);
    match cap.ensure_dir(&dir) {
        Err(_) => {
            let mut err_msg = "Failed to create directory: ".to_owned();
            err_msg.append(dir.as_str());
            cap.notify(MessageClass::Error, &err_msg);
            proof {
                assert(records_view(out@) =~= records_view(old(out)@) + playlist_records(
                    *cap,
                    entry@,
                    meta@,
                ));
            }
            0
        },
        Ok(_) => {
            let mut save_msg = "Saving into: ".to_owned();
            save_msg.append(dir.as_str());
            cap.notify(MessageClass::Info, &save_msg);
            let k = album.tracks.len();
            let mut j: usize = 0;
            while j < k
                invariant
                    k == album.tracks@.len(),
                    j <= k,
                    album@ == planned_album(entry@, meta@),
                    dir@ == album_dir_of(entry@.save_to, album@.author_name, album@.album_name),
                    cap.dir_spec(dir@) is Ok,
                    records_view(out@) == records_view(old(out)@) + Seq::new(
                        j as nat,
                        |q: int| expected_record(*cap, entry@, meta@, q),
                    ),
                decreases k - j,
            {
                let ghost pre = out@;
                let r = download_track_helper(cap, &album.tracks[j], &album, &dir);
                out.push(r);
                proof {
                    assert(album.tracks@[j as int]@ == album@.tracks[j as int]);
                    assert(r@ == expected_record(*cap, entry@, meta@, j as int));
                    assert(out@ =~= pre.push(r));
                    assert(records_view(out@) =~= records_view(pre).push(r@));
                    assert(records_view(out@) =~= records_view(old(out)@) + Seq::new(
                        (j + 1) as nat,
                        |q: int| expected_record(*cap, entry@, meta@, q),
                    ));
                }
                j = j + 1;
            }
            proof {
                assert(playlist_records(*cap, entry@, meta@) =~= Seq::new(
                    k as nat,
                    |q: int| expected_record(*cap, entry@, meta@, q),
                ));
            }
            k
        },
    }
}

/// The total number of dispatched tracks a per-playlist account gives.
pub open spec fn sum_usize(s: Seq<usize>) -> int
    decreases s.len(),
{
    if s.len() == 0 {
        0
    } else {
        sum_usize(s.drop_last()) + s.last()
    }
}

/// A record's outcome is the classification of the fate the capability
/// reports for its track URL and some destination template.
pub open spec fn outcome_classified<C: MediaCapability>(cap: C, r: DownloadResultView) -> bool {
    exists|d: Seq<char>|
        r.status == classified(#[trigger] cap.fetch_spec(r.song_url, d), r.song_url)
}

/// Every record of the sequence has a classified outcome.
pub open spec fn batch_outcomes_classified<C: MediaCapability>(
    cap: C,
    rs: Seq<DownloadResultView>,
) -> bool {
    forall|i: int| 0 <= i < rs.len() ==> outcome_classified(cap, #[trigger] rs[i])
}

/// What one playlist request contributes, decided entirely by the
/// capability's listing reply: nothing when the query fails or its reply
/// does not decode, and exactly the records planned for the decoded
/// metadata otherwise.
pub open spec fn playlist_segment<C: MediaCapability>(
    cap: C,
    e: DownloadEntryView,
    seg: Seq<DownloadResultView>,
) -> bool {
    match cap.info_spec(e.url) {
        Err(_) => seg.len() == 0,
        Ok(raw) => match playlist_doc_of(raw) {
            Err(_) => seg.len() == 0,
            Ok(m) => seg == playlist_records(cap, e, m),
        },
    }
}

/// How one batch run decomposes into per-playlist segments: segment `i`
/// holds exactly what playlist request `i` contributed, in input order,
/// as [`playlist_segment`] fixes it from the capability's replies.
pub open spec fn batch_partitioned<C: MediaCapability>(
    cap: C,
    entries: Seq<DownloadEntry>,
    segs: Seq<Seq<DownloadResultView>>,
    dispatched: Seq<usize>,
) -> bool {
    &&& segs.len() == entries.len()
    &&& dispatched.len() == entries.len()
    &&& forall|i: int| 0 <= i < entries.len() ==> (#[trigger] segs[i]).len() == dispatched[i]
    &&& forall|i: int|
        0 <= i < entries.len() ==> playlist_segment(cap, (#[trigger] entries[i])@, segs[i])
}

/// What one batch run produced: the accumulated records, and how many
/// tracks each playlist request dispatched, in input order.
pub struct BatchReport {
    pub records: Vec<DownloadResult>,
    pub dispatched: Vec<usize>,
}

/// Runs one batch: processes the playlist requests in input order, fully
/// resolving, planning and downloading one playlist before the next. A
/// metadata failure aborts only its own playlist; the batch continues
/// with the next request. The report holds exactly one record per
/// dispatched track, in processing order.
pub fn run_batch<C: MediaCapability>(cap: &C, entries: &Vec<DownloadEntry>) -> (r: BatchReport)
    ensures
        r.dispatched@.len() == entries@.len(),
        records_view(r.records@).len() == sum_usize(r.dispatched@),
        exists|segs: Seq<Seq<DownloadResultView>>|
            records_view(r.records@) == #[trigger] segs.flatten() && batch_partitioned(
                *cap,
                entries@,
                segs,
                r.dispatched@,
            ),
        batch_outcomes_classified(*cap, records_view(r.records@)),
{
    let mut records: Vec<DownloadResult> = Vec::new();
    let mut dispatched: Vec<usize> = Vec::new();
    let ghost mut segs: Seq<Seq<DownloadResultView>> = Seq::empty();
    let n = entries.len();
    let mut i: usize = 0;
    while i < n
        invariant
            n == entries@.len(),
            i <= n,
            dispatched@.len() == i,
            segs.len() == i,
            records_view(records@) == segs.flatten(),
            records_view(records@).len() == sum_usize(dispatched@),
            forall|q: int| 0 <= q < i ==> (#[trigger] segs[q]).len() == dispatched@[q],
            forall|q: int|
                0 <= q < i ==> playlist_segment(*cap, (#[trigger] entries@[q])@, segs[q]),
            batch_outcomes_classified(*cap, records_view(records@)),
        decreases n - i,
    {
        let ghost prev_segs = segs;
        let ghost prev_dispatched = dispatched@;
        let ghost prev_records = records_view(records@);
        let entry = &entries[i];
        match cap.playlist_info(&entry.url) {
            Err(_) => {
                let mut msg = "Failed to fetch playlist info for: ".to_owned();
                msg.append(entry.url.as_str());
                cap.notify(MessageClass::Error, &msg);
                dispatched.push(0);
                proof {
                    segs = segs.push(Seq::empty());
                    prev_segs.lemma_flatten_push(Seq::empty());
                    assert(segs.flatten() =~= prev_records);
                    assert(playlist_segment(*cap, entry@, segs[i as int]));
                }
            },
            Ok(raw) => {
                let mut msg = "Successfully fetched playlist info for: ".to_owned();
                msg.append(entry.url.as_str());
                cap.notify(MessageClass::Success, &msg);
                match parse_playlist_metadata(raw.as_str()) {
                    Err(parse_err) => {
                        let mut err_msg = "Failed to decode playlist info for: ".to_owned();
                        err_msg.append(entry.url.as_str());
                        err_msg.append(": ");
                        err_msg.append(parse_err.as_str());
                        cap.notify(MessageClass::Error, &err_msg);
                        dispatched.push(0);
                        proof {
                            segs = segs.push(Seq::empty());
                            prev_segs.lemma_flatten_push(Seq::empty());
                            assert(segs.flatten() =~= prev_records);
                            assert(playlist_doc_of(raw@) is Err);
                            assert(playlist_segment(*cap, entry@, segs[i as int]));
                        }
                    },
                    Ok(meta) => {
                        let added = process_playlist(cap, entry, &meta, &mut records);
                        dispatched.push(added);
                        proof {
                            let seg = playlist_records(*cap, entry@, meta@);
                            assert(added as int == seg.len());
                            let album = planned_album(entry@, meta@);
                            let dir = album_dir_of(
                                entry@.save_to,
                                album.author_name,
                                album.album_name,
                            );
                            assert forall|q: int| 0 <= q < seg.len() implies outcome_classified(
                                *cap,
                                seg[q],
                            ) by {
                                let t = album.tracks[q];
                                let d = dest_template_of(dir, t.track_name);
                                assert(seg[q] == expected_record(*cap, entry@, meta@, q));
                                assert(seg[q].status == classified(
                                    cap.fetch_spec(seg[q].song_url, d),
                                    seg[q].song_url,
                                ));
                            };
                            segs = segs.push(seg);
                            prev_segs.lemma_flatten_push(seg);
                            assert(records_view(records@) == prev_records + seg);
                            assert(playlist_doc_of(raw@) == Ok::<_, Seq<char>>(meta@));
                            assert(playlist_segment(*cap, entry@, segs[i as int]));
                            assert forall|q: int|
                                0 <= q < records_view(records@).len() implies outcome_classified(
                                *cap,
                                records_view(records@)[q],
                            ) by {
                                if q < prev_records.len() {
                                    assert(records_view(records@)[q] == prev_records[q]);
                                } else {
                                    assert(records_view(records@)[q] == seg[
                                        q - prev_records.len()
                                    ]);
                                }
                            };
                        }
                    },
                }
            },
        }
        proof {
            assert(dispatched@.drop_last() =~= prev_dispatched);
            assert(records_view(records@).len() == sum_usize(dispatched@));
        }
        i = i + 1;
    }
    proof {
        assert(records_view(records@) == segs.flatten() && batch_partitioned(
            *cap,
            entries@,
            segs,
            dispatched@,
        ));
    }
    BatchReport { records, dispatched }
}

/// One playlist's contribution to the batch accounting: a playlist whose
/// destination directory cannot be created contributes zero records, and
/// one whose directory step succeeds contributes exactly one record per
/// planned track.
pub proof fn lemma_playlist_contribution<C: MediaCapability>(
    cap: C,
    e: DownloadEntryView,
    m: PlaylistMetadataView,
)
    ensures
        ({
            let album = planned_album(e, m);
            let dir = album_dir_of(e.save_to, album.author_name, album.album_name);
            &&& (cap.dir_spec(dir) is Err ==> playlist_records(cap, e, m).len() == 0)
            &&& (cap.dir_spec(dir) is Ok ==> playlist_records(cap, e, m).len()
                == album.tracks.len())
        }),
{
}

/// With a fetch capability that reports exit status zero for every
/// request, every dispatched track's outcome is `Success`.
pub proof fn lemma_uniform_success<C: MediaCapability>(cap: C, rs: Seq<DownloadResultView>)
    requires
        forall|u: Seq<char>, d: Seq<char>|
            #[trigger] cap.fetch_spec(u, d) == (FetchStatusView::Completed { code: Some(0 as int) }),
        batch_outcomes_classified(cap, rs),
    ensures
        forall|i: int| 0 <= i < rs.len() ==> (#[trigger] rs[i].status) == StatusView::Success,
{
    assert forall|i: int| 0 <= i < rs.len() implies (#[trigger] rs[i].status)
        == StatusView::Success by {
        assert(outcome_classified(cap, rs[i]));
        let d = choose|d: Seq<char>|
            rs[i].status == classified(#[trigger] cap.fetch_spec(rs[i].song_url, d), rs[i].song_url);
        assert(cap.fetch_spec(rs[i].song_url, d) == (FetchStatusView::Completed {
            code: Some(0 as int),
        }));
    };
}

/// With a fetch capability that reports one fixed non-zero exit code for
/// every request, every dispatched track's outcome is a `MediaFetchError`
/// whose detail carries the track URL and that code.
pub proof fn lemma_uniform_failure<C: MediaCapability>(
    cap: C,
    rs: Seq<DownloadResultView>,
    code: int,
)
    requires
        code != 0,
        forall|u: Seq<char>, d: Seq<char>|
            #[trigger] cap.fetch_spec(u, d) == (FetchStatusView::Completed { code: Some(code) }),
        batch_outcomes_classified(cap, rs),
    ensures
        forall|i: int|
            0 <= i < rs.len() ==> (#[trigger] rs[i].status) == StatusView::MediaFetchError(
                fetch_failure_detail(rs[i].song_url, code),
            ),
{
    assert forall|i: int| 0 <= i < rs.len() implies (#[trigger] rs[i].status)
        == StatusView::MediaFetchError(fetch_failure_detail(rs[i].song_url, code)) by {
        assert(outcome_classified(cap, rs[i]));
        let d = choose|d: Seq<char>|
            rs[i].status == classified(#[trigger] cap.fetch_spec(rs[i].song_url, d), rs[i].song_url);
        assert(cap.fetch_spec(rs[i].song_url, d) == (FetchStatusView::Completed {
            code: Some(code),
        }));
    };
}

} // verus!
