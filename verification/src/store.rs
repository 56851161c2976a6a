//! The result store: a model of the relational sink the accumulated
//! records are persisted to — one fixed table, created if absent and never
//! dropped or altered, holding one row per persisted record in insertion
//! order. The durable medium behind it is the caller's concern; this model
//! is the contract every write must meet.

use vstd::prelude::*;

use crate::model::DownloadResult;
use crate::model::DownloadResultView;
use crate::model::records_view;
use crate::outcome::detail_of;
use crate::outcome::tag_of;

verus! {

/// A persistence failure.
#[derive(Clone, Copy)]
pub enum StoreError {
    /// The record's outcome is `Pending`, which must never appear in
    /// persisted results.
    PendingOutcome,
}

/// One row of the `download_status` table. The sink assigns the
/// auto-incrementing identifier column itself, in row order; the outcome
/// is flattened into its textual tag and its optional detail text.
pub struct StoredRow {
    pub album_url: String,
    pub album_name: String,
    pub song_name: String,
    pub song_url: String,
    pub status_tag: String,
    pub status_detail: Option<String>,
    pub author_name: String,
    pub genre: String,
    pub comment: String,
}

/// Mathematical model of a [`StoredRow`].
pub struct StoredRowView {
    pub album_url: Seq<char>,
    pub album_name: Seq<char>,
    pub song_name: Seq<char>,
    pub song_url: Seq<char>,
    pub status_tag: Seq<char>,
    pub status_detail: Option<Seq<char>>,
    pub author_name: Seq<char>,
    pub genre: Seq<char>,
    pub comment: Seq<char>,
}

impl View for StoredRow {
    type V = StoredRowView;

    open spec fn view(&self) -> StoredRowView {
        StoredRowView {
            album_url: self.album_url@,
            album_name: self.album_name@,
            song_name: self.song_name@,
            song_url: self.song_url@,
            status_tag: self.status_tag@,
            status_detail: crate::model::opt_view(self.status_detail),
            author_name: self.author_name@,
            genre: self.genre@,
            comment: self.comment@,
        }
    }
}

/// The row a record is persisted as.
pub open spec fn row_of(r: DownloadResultView) -> StoredRowView {
    StoredRowView {
        album_url: r.album_url,
        album_name: r.album_name,
        song_name: r.song_name,
        song_url: r.song_url,
        status_tag: tag_of(r.status),
        status_detail: detail_of(r.status),
        author_name: r.author_name,
        genre: r.genre,
        comment: r.comment,
    }
}

/// Whether a record may be persisted: every outcome but `Pending` is
/// terminal and persistable.
pub open spec fn persistable(r: DownloadResultView) -> bool {
    !(r.status is Pending)
}

/// The rows one persistence pass appends: one per persistable record, in
/// input order; records with a `Pending` outcome are refused row by row.
pub open spec fn appended_rows(rs: Seq<DownloadResultView>) -> Seq<StoredRowView>
    decreases rs.len(),
{
    if rs.len() == 0 {
        Seq::empty()
    } else {
        let rest = appended_rows(rs.drop_last());
        if persistable(rs.last()) {
            rest.push(row_of(rs.last()))
        } else {
            rest
        }
    }
}

/// The store state after one persistence pass: the table exists, the
/// earlier rows stand unchanged, and the pass's rows follow them.
pub open spec fn store_after_persist(s: ResultStoreView, rs: Seq<DownloadResultView>) -> ResultStoreView {
    ResultStoreView { table_created: true, rows: s.rows + appended_rows(rs) }
}

/// A persistence pass appends no more rows than it was given records,
/// and exactly as many when every record is persistable.
pub proof fn lemma_appended_rows_len(rs: Seq<DownloadResultView>)
    ensures
        appended_rows(rs).len() <= rs.len(),
        (forall|i: int| 0 <= i < rs.len() ==> persistable(#[trigger] rs[i])) ==> appended_rows(
            rs,
        ).len() == rs.len(),
    decreases rs.len(),
{
    if rs.len() > 0 {
        lemma_appended_rows_len(rs.drop_last());
    }
}

/// The relational sink's state: whether the fixed table exists, and its
/// rows in insertion order.
pub struct ResultStore {
    table_created: bool,
    rows: Vec<StoredRow>,
}

/// Mathematical model of a [`ResultStore`].
pub struct ResultStoreView {
    pub table_created: bool,
    pub rows: Seq<StoredRowView>,
}

impl View for ResultStore {
    type V = ResultStoreView;

    closed spec fn view(&self) -> ResultStoreView {
        ResultStoreView {
            table_created: self.table_created,
            rows: self.rows@.map_values(|r: StoredRow| r@),
        }
    }
}

impl ResultStore {
    /// A fresh sink: no table yet, no rows.
    pub fn new() -> (r: ResultStore)
        ensures
            !r@.table_created,
            r@.rows == Seq::<StoredRowView>::empty(),
    {
        let r = ResultStore { table_created: false, rows: Vec::new() };
        proof {
            assert(r@.rows =~= Seq::<StoredRowView>::empty());
        }
        r
    }

    /// Whether the fixed table exists.
    pub fn table_exists(&self) -> (r: bool)
        ensures
            r == self@.table_created,
    {
        self.table_created
    }

    /// The number of rows the table holds.
    pub fn row_count(&self) -> (r: usize)
        ensures
            r == self@.rows.len(),
    {
        self.rows.len()
    }

    /// The rows of the table, in insertion order.
    pub fn rows(&self) -> (r: &Vec<StoredRow>)
        ensures
            r@.map_values(|row: StoredRow| row@) == self@.rows,
    {
        &self.rows
    }

    /// The idempotent schema step: creates the fixed table if it does not
    /// already exist; an existing table, and its rows, are left exactly
    /// as they are.
    pub fn create_table_if_absent(&mut self)
        ensures
            final(self)@.table_created,
            final(self)@.rows == old(self)@.rows,
    {
        if !self.table_created {
            self.table_created = true;
        }
    }

    /// Inserts one record as one row. A record whose outcome is still
    /// `Pending` is refused and changes nothing; every terminal record is
    /// appended, exactly once, behind the existing rows.
    pub fn insert_row(&mut self, rec: &DownloadResult) -> (r: Result<(), StoreError>)
        requires
            old(self)@.table_created,
        ensures
            final(self)@.table_created,
            r is Ok <==> persistable(rec@),
            persistable(rec@) ==> final(self)@.rows == old(self)@.rows.push(row_of(rec@)),
            !persistable(rec@) ==> final(self)@.rows == old(self)@.rows,
    {
        if !rec.status.is_terminal() {
            return Err(StoreError::PendingOutcome);
        }
        let row = StoredRow {
            album_url: rec.album_url.clone(),
            album_name: rec.album_name.clone(),
            song_name: rec.song_name.clone(),
            song_url: rec.song_url.clone(),
            status_tag: rec.status.tag(),
            status_detail: rec.status.detail(),
            author_name: rec.author_name.clone(),
            genre: rec.genre.clone(),
            comment: rec.comment.clone(),
        };
        proof {
            assert(row@ == row_of(rec@));
        }
        self.rows.push(row);
        proof {
            assert(self@.rows =~= old(self)@.rows.push(row_of(rec@)));
        }
        Ok(())
    }

    /// Persists a record sequence in one pass: the idempotent schema step
    /// first, then one insertion per record in input order. A refused row
    /// (a `Pending` outcome) is skipped and reported, but does not abort
    /// the remaining insertions; the pass succeeds as a whole exactly
    /// when every record was persistable.
    pub fn persist(&mut self, records: &Vec<DownloadResult>) -> (r: Result<(), StoreError>)
        ensures
            final(self)@ == store_after_persist(old(self)@, records_view(records@)),
            r is Ok <==> (forall|i: int|
                0 <= i < records@.len() ==> persistable(#[trigger] records_view(records@)[i])),
    {
        self.create_table_if_absent();
        let mut failure: Option<StoreError> = None;
        let n = records.len();
        let mut i: usize = 0;
        while i < n
            invariant
                n == records@.len(),
                i <= n,
                self@.table_created,
                self@.rows == old(self)@.rows + appended_rows(
                    records_view(records@).subrange(0, i as int),
                ),
                failure is None <==> (forall|q: int|
                    0 <= q < i ==> persistable(#[trigger] records_view(records@)[q])),
            decreases n - i,
        {
            let ghost prefix = records_view(records@).subrange(0, i as int);
            match self.insert_row(&records[i]) {
                Ok(_) => {
                },
                Err(e) => {
                    if failure.is_none() {
                        failure = Some(e);
                    }
                },
            }
            proof {
                let next_prefix = records_view(records@).subrange(0, i + 1 as int);
                assert(next_prefix.drop_last() =~= prefix);
                assert(next_prefix.last() == records_view(records@)[i as int]);
                assert(records@[i as int]@ == records_view(records@)[i as int]);
                assert(self@.rows =~= old(self)@.rows + appended_rows(next_prefix));
            }
            i = i + 1;
        }
        proof {
            assert(records_view(records@).subrange(0, n as int) =~= records_view(records@));
        }
        match failure {
            None => Ok(()),
            Some(e) => Err(e),
        }
    }
}

/// Persisting an empty record sequence still performs the idempotent
/// schema step and inserts zero rows.
pub proof fn lemma_persist_empty(s: ResultStoreView)
    ensures
        store_after_persist(s, Seq::<DownloadResultView>::empty()).table_created,
        store_after_persist(s, Seq::<DownloadResultView>::empty()).rows == s.rows,
{
    assert(store_after_persist(s, Seq::<DownloadResultView>::empty()).rows =~= s.rows);
}

/// Persisting the same terminal record sequence twice leaves the one
/// table in place and appends the rows twice over: 2×N rows from N
/// records, with no deduplication.
pub proof fn lemma_persist_twice(s0: ResultStoreView, rs: Seq<DownloadResultView>)
    requires
        s0.rows.len() == 0,
        forall|i: int| 0 <= i < rs.len() ==> persistable(#[trigger] rs[i]),
    ensures
        store_after_persist(s0, rs).table_created,
        store_after_persist(store_after_persist(s0, rs), rs).table_created,
        store_after_persist(store_after_persist(s0, rs), rs).rows.len() == 2 * rs.len(),
{
    lemma_appended_rows_len(rs);
}

} // verus!
