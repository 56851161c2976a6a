use tunebatch::model::DownloadResult;
use tunebatch::outcome::DownloadStatusEnum;
use tunebatch::store::ResultStore;
use tunebatch::store::StoreError;

fn record(song: &str, status: DownloadStatusEnum) -> DownloadResult {
    DownloadResult {
        album_url: "P".to_string(),
        album_name: "Live Set".to_string(),
        song_name: song.to_string(),
        song_url: "u1".to_string(),
        author_name: "X".to_string(),
        genre: "G".to_string(),
        comment: "No comment provided".to_string(),
        status,
    }
}

#[test]
fn persisting_nothing_still_creates_the_table() {
    let mut store = ResultStore::new();
    assert!(!store.table_exists());
    let r = store.persist(&Vec::new());
    assert!(r.is_ok());
    assert!(store.table_exists());
    assert_eq!(store.row_count(), 0);
}

#[test]
fn persisting_twice_doubles_the_rows_and_keeps_one_table() {
    let records = vec![
        record("A", DownloadStatusEnum::Success),
        record("B", DownloadStatusEnum::MediaFetchError("d".to_string())),
    ];
    let mut store = ResultStore::new();
    assert!(store.persist(&records).is_ok());
    assert!(store.table_exists());
    assert_eq!(store.row_count(), 2);
    assert!(store.persist(&records).is_ok());
    assert!(store.table_exists());
    assert_eq!(store.row_count(), 4);
}

#[test]
fn a_pending_outcome_is_refused_and_stores_nothing() {
    let records = vec![record("A", DownloadStatusEnum::Pending)];
    let mut store = ResultStore::new();
    let r = store.persist(&records);
    assert!(matches!(r, Err(StoreError::PendingOutcome)));
    assert!(store.table_exists());
    assert_eq!(store.row_count(), 0);
}

#[test]
fn a_pending_row_does_not_abort_the_remaining_insertions() {
    let records = vec![
        record("A", DownloadStatusEnum::Success),
        record("B", DownloadStatusEnum::Pending),
        record("C", DownloadStatusEnum::IoError("io".to_string())),
    ];
    let mut store = ResultStore::new();
    let r = store.persist(&records);
    assert!(matches!(r, Err(StoreError::PendingOutcome)));
    assert_eq!(store.row_count(), 2);
    assert_eq!(store.rows()[0].song_name, "A");
    assert_eq!(store.rows()[1].song_name, "C");
}

#[test]
fn rows_flatten_the_outcome_into_tag_and_detail() {
    let records = vec![
        record("A", DownloadStatusEnum::Success),
        record("B", DownloadStatusEnum::MediaFetchError("why".to_string())),
    ];
    let mut store = ResultStore::new();
    assert!(store.persist(&records).is_ok());
    let rows = store.rows();
    assert_eq!(rows[0].status_tag, "Success");
    assert_eq!(rows[0].status_detail, None);
    assert_eq!(rows[0].album_url, "P");
    assert_eq!(rows[0].album_name, "Live Set");
    assert_eq!(rows[0].song_name, "A");
    assert_eq!(rows[0].song_url, "u1");
    assert_eq!(rows[0].author_name, "X");
    assert_eq!(rows[0].genre, "G");
    assert_eq!(rows[0].comment, "No comment provided");
    assert_eq!(rows[1].status_tag, "MediaFetchError");
    assert_eq!(rows[1].status_detail, Some("why".to_string()));
}

#[test]
fn insert_after_schema_step_appends_in_order() {
    let mut store = ResultStore::new();
    store.create_table_if_absent();
    assert!(store.insert_row(&record("A", DownloadStatusEnum::Success)).is_ok());
    assert!(store.insert_row(&record("B", DownloadStatusEnum::Success)).is_ok());
    assert_eq!(store.row_count(), 2);
    assert_eq!(store.rows()[0].song_name, "A");
    assert_eq!(store.rows()[1].song_name, "B");
}

#[test]
fn schema_step_is_idempotent() {
    let mut store = ResultStore::new();
    store.create_table_if_absent();
    store.create_table_if_absent();
    assert!(store.table_exists());
    assert_eq!(store.row_count(), 0);
}
