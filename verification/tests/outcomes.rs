use tunebatch::executor::FetchStatus;
use tunebatch::executor::classify_fetch;
use tunebatch::outcome::DownloadStatusEnum;
use tunebatch::text::i32_dec;
use tunebatch::text::join_path;

#[test]
fn zero_exit_status_is_success() {
    let st = FetchStatus::Completed { code: Some(0) };
    let r = classify_fetch(&st, "u1");
    assert!(matches!(r, DownloadStatusEnum::Success));
}

#[test]
fn nonzero_exit_status_is_media_fetch_error_with_code() {
    let st = FetchStatus::Completed { code: Some(2) };
    let r = classify_fetch(&st, "u1");
    match r {
        DownloadStatusEnum::MediaFetchError(d) => {
            assert_eq!(d, "Error downloading: u1, status code: 2");
        },
        _ => panic!("expected a media fetch error"),
    }
}

#[test]
fn missing_exit_code_uses_minus_one_sentinel() {
    let st = FetchStatus::Completed { code: None };
    let r = classify_fetch(&st, "u9");
    match r {
        DownloadStatusEnum::MediaFetchError(d) => {
            assert_eq!(d, "Error downloading: u9, status code: -1");
        },
        _ => panic!("expected a media fetch error"),
    }
}

#[test]
fn spawn_failure_is_io_error_with_detail() {
    let st = FetchStatus::SpawnFailed { detail: "binary not found".to_string() };
    let r = classify_fetch(&st, "u1");
    match r {
        DownloadStatusEnum::IoError(d) => {
            assert_eq!(d, "binary not found");
        },
        _ => panic!("expected an io error"),
    }
}

#[test]
fn status_tags_are_fixed() {
    assert_eq!(DownloadStatusEnum::Success.tag(), "Success");
    assert_eq!(DownloadStatusEnum::MediaFetchError("d".to_string()).tag(), "MediaFetchError");
    assert_eq!(DownloadStatusEnum::IoError("d".to_string()).tag(), "IoError");
    assert_eq!(DownloadStatusEnum::MetadataError("d".to_string()).tag(), "MetadataError");
    assert_eq!(DownloadStatusEnum::Pending.tag(), "Pending");
}

#[test]
fn status_detail_keeps_text() {
    assert_eq!(DownloadStatusEnum::Success.detail(), None);
    assert_eq!(DownloadStatusEnum::Pending.detail(), None);
    assert_eq!(
        DownloadStatusEnum::MediaFetchError("why".to_string()).detail(),
        Some("why".to_string())
    );
    assert_eq!(DownloadStatusEnum::IoError("io".to_string()).detail(), Some("io".to_string()));
    assert_eq!(
        DownloadStatusEnum::MetadataError("m".to_string()).detail(),
        Some("m".to_string())
    );
}

#[test]
fn only_pending_is_not_terminal() {
    assert!(DownloadStatusEnum::Success.is_terminal());
    assert!(DownloadStatusEnum::MediaFetchError("d".to_string()).is_terminal());
    assert!(DownloadStatusEnum::IoError("d".to_string()).is_terminal());
    assert!(DownloadStatusEnum::MetadataError("d".to_string()).is_terminal());
    assert!(!DownloadStatusEnum::Pending.is_terminal());
}

#[test]
fn decimal_rendering_is_exact() {
    assert_eq!(i32_dec(0), "0");
    assert_eq!(i32_dec(7), "7");
    assert_eq!(i32_dec(10), "10");
    assert_eq!(i32_dec(12345), "12345");
    assert_eq!(i32_dec(-1), "-1");
    assert_eq!(i32_dec(i32::MAX), "2147483647");
    assert_eq!(i32_dec(i32::MIN), "-2147483648");
}

#[test]
fn join_path_inserts_one_separator() {
    assert_eq!(join_path("a", "b"), "a/b");
    assert_eq!(join_path("", "b"), "/b");
}
