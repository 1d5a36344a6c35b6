use emulatorx::error::ManagerError;
use emulatorx::fetch::{check_archive_download, check_stream_complete, is_success, ProgressTracker};

#[test]
fn size_gate_boundary() {
    assert!(matches!(
        check_archive_download(200, 999_999),
        Err(ManagerError::SuspiciouslySmallDownload(999_999))
    ));
    assert!(check_archive_download(200, 1_000_000).is_ok());
    assert!(check_archive_download(204, 50_000_000).is_ok());
}

#[test]
fn error_status_rejected_first() {
    assert!(matches!(check_archive_download(404, 5_000_000), Err(ManagerError::DownloadFailed(404))));
    assert!(matches!(check_archive_download(302, 10), Err(ManagerError::DownloadFailed(302))));
    assert!(!is_success(199));
    assert!(is_success(200));
    assert!(is_success(299));
    assert!(!is_success(300));
}

#[test]
fn truncated_stream() {
    assert!(matches!(
        check_stream_complete(1000, 900),
        Err(ManagerError::TruncatedDownload(1000, 900))
    ));
    assert!(check_stream_complete(1000, 1000).is_ok());
    assert!(check_stream_complete(0, 900).is_ok());
}

#[test]
fn progress_every_ten_points() {
    let mut t = ProgressTracker::new(1000);
    assert_eq!(t.record_chunk(50), None);
    assert_eq!(t.record_chunk(50), Some(10));
    assert_eq!(t.record_chunk(150), Some(25));
    assert_eq!(t.record_chunk(50), None);
    assert_eq!(t.record_chunk(700), Some(100));
    assert_eq!(t.downloaded, 1000);
    let mut unknown = ProgressTracker::new(0);
    assert_eq!(unknown.record_chunk(500), None);
    assert_eq!(unknown.downloaded, 500);
}
