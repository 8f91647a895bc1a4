use phyrexian_library::utility::download::error::{
    DownloadError, IoErrorKind, IoFailure, TransportFailure,
};
use phyrexian_library::utility::download::shared::{fail_download, SharedDownload};
use phyrexian_library::utility::download::state::{Download, DownloadUpdate, SpeedSample};
use phyrexian_library::utility::download::status::DownloadStatus;
use std::sync::Arc;

fn new_download(status: DownloadStatus) -> SharedDownload {
    SharedDownload::new(Download::with_status(status))
}

#[test]
fn test_download_status_is_pending() {
    let status: DownloadStatus = DownloadStatus::Pending;
    assert_eq!(status.is_pending(), true);

    let status: DownloadStatus = DownloadStatus::Successful;
    assert_eq!(status.is_pending(), false);

    let err = IoFailure::new(IoErrorKind::InvalidInput, "This is a test error.");
    let status: DownloadStatus = DownloadStatus::from(err);
    assert_eq!(status.is_pending(), false);
}

#[test]
fn test_download_status_is_successful() {
    let status: DownloadStatus = DownloadStatus::Pending;
    assert_eq!(status.is_successful(), false);

    let status: DownloadStatus = DownloadStatus::Successful;
    assert_eq!(status.is_successful(), true);

    let err = IoFailure::new(IoErrorKind::InvalidInput, "This is a test error.");
    let status: DownloadStatus = DownloadStatus::from(err);
    assert_eq!(status.is_successful(), false);
}

#[test]
fn test_download_status_is_failed() {
    let status: DownloadStatus = DownloadStatus::Pending;
    assert_eq!(status.is_failed(), false);

    let status: DownloadStatus = DownloadStatus::Successful;
    assert_eq!(status.is_failed(), false);

    let err = IoFailure::new(IoErrorKind::InvalidInput, "This is a test error.");
    let status: DownloadStatus = DownloadStatus::from(err);
    assert_eq!(status.is_failed(), true);
}

#[test]
fn download_test_download_status_get_error() {
    let error_description = "This is a test error.";
    let err = Arc::new(DownloadError::from(IoFailure::new(
        IoErrorKind::InvalidInput,
        error_description,
    )));
    let status = DownloadStatus::Failed(Arc::clone(&err));
    match *status.get_error().expect("There must be an error.") {
        DownloadError::IoError(ref err)
            if err.kind() == IoErrorKind::InvalidInput
                && err.to_string() == error_description => {}
        DownloadError::IoError(ref err) => panic!("{:?} is not the correct error.", err),
        DownloadError::TransportError(ref err) => panic!("{:?} is not the correct error.", err),
    }
}

#[test]
fn download_status_tests_test_download_status_get_error() {
    let error_description = "This is a test error.";
    let err = Arc::new(DownloadError::from(IoFailure::new(
        IoErrorKind::InvalidInput,
        error_description,
    )));
    let status = DownloadStatus::Failed(Arc::clone(&err));
    match *status.get_error().expect("There must be an error.") {
        DownloadError::IoError(ref err)
            if err.kind() == IoErrorKind::InvalidInput
                && err.to_string() == error_description => {}
        DownloadError::IoError(ref err) => panic!("{:?} is not the correct error.", err),
        DownloadError::TransportError(ref err) => panic!("{:?} is not the correct error.", err),
    }
}

#[test]
fn test_is_pending() {
    let status: DownloadStatus = DownloadStatus::Pending;
    assert_eq!(status.is_pending(), true);

    let status: DownloadStatus = DownloadStatus::Successful;
    assert_eq!(status.is_pending(), false);

    let err = IoFailure::new(IoErrorKind::InvalidInput, "This is a test error.");
    let status: DownloadStatus = DownloadStatus::from(err);
    assert_eq!(status.is_pending(), false);
}

#[test]
fn test_is_successful() {
    let status: DownloadStatus = DownloadStatus::Pending;
    assert_eq!(status.is_successful(), false);

    let status: DownloadStatus = DownloadStatus::Successful;
    assert_eq!(status.is_successful(), true);

    let err = IoFailure::new(IoErrorKind::InvalidInput, "This is a test error.");
    let status: DownloadStatus = DownloadStatus::from(err);
    assert_eq!(status.is_successful(), false);
}

#[test]
fn test_is_failed() {
    let status: DownloadStatus = DownloadStatus::Pending;
    assert_eq!(status.is_failed(), false);

    let status: DownloadStatus = DownloadStatus::Successful;
    assert_eq!(status.is_failed(), false);

    let err = IoFailure::new(IoErrorKind::InvalidInput, "This is a test error.");
    let status: DownloadStatus = DownloadStatus::from(err);
    assert_eq!(status.is_failed(), true);
}

#[test]
fn download_mod_tests_test_fail_download() {
    let download = new_download(DownloadStatus::Pending);
    assert!(!download.snapshot().status().is_failed());
    let err = DownloadError::from(IoFailure::new(
        IoErrorKind::InvalidInput,
        "This is a test error.",
    ));
    fail_download(err, &download.share());
    assert!(download.snapshot().status().is_failed());
}

#[test]
fn test_test_fail_download() {
    let download = new_download(DownloadStatus::Pending);
    assert!(!download.snapshot().status().is_failed());
    let err = DownloadError::from(IoFailure::new(
        IoErrorKind::InvalidInput,
        "This is a test error.",
    ));
    fail_download(err, &download.share());
    assert!(download.snapshot().status().is_failed());
}

#[test]
fn status_is_running_only_while_running() {
    assert!(DownloadStatus::Running.is_running());
    assert!(!DownloadStatus::Pending.is_running());
    assert!(!DownloadStatus::Successful.is_running());
    assert!(DownloadStatus::Running.is_active());
    assert!(DownloadStatus::Pending.is_active());
    assert!(!DownloadStatus::Successful.is_active());
    let failed = DownloadStatus::from(TransportFailure::new("no route"));
    assert!(!failed.is_active());
    assert!(failed.is_failed());
}

#[test]
fn status_of_a_transport_failure_holds_its_cause() {
    let status = DownloadStatus::from(TransportFailure::new("relative URL without a base"));
    let cause = status.get_error().expect("There must be an error.");
    assert!(!cause.is_io());
    assert_eq!(cause.to_string(), "relative URL without a base");
    assert!(DownloadStatus::Pending.get_error().is_none());
    assert!(DownloadStatus::Running.get_error().is_none());
    assert!(DownloadStatus::Successful.get_error().is_none());
}

#[test]
fn io_failure_keeps_kind_and_message() {
    let failure = IoFailure::new(IoErrorKind::PermissionDenied, "denied");
    assert_eq!(failure.kind(), IoErrorKind::PermissionDenied);
    assert_eq!(failure.to_string(), "denied");
    assert!(!failure.is_interrupted());
    assert!(IoFailure::new(IoErrorKind::Interrupted, "signal").is_interrupted());
    let error = DownloadError::from(failure);
    assert!(error.is_io());
    assert_eq!(error.to_string(), "denied");
}

#[test]
fn pending_download_has_nothing_yet() {
    let download = Download::pending();
    assert!(download.status().is_pending());
    assert_eq!(download.get_downloaded_size(), 0);
    assert_eq!(download.get_total_size(), None);
    assert_eq!(download.get_download_speed(), None);
}

#[test]
fn updates_follow_the_order_of_the_statuses() {
    let mut download = Download::pending();
    // Nothing but a start or a failure changes a pending download.
    download.apply(DownloadUpdate::Progress(10));
    download.apply(DownloadUpdate::TotalSize(99));
    download.apply(DownloadUpdate::Succeed);
    assert!(download.status().is_pending());
    assert_eq!(download.get_downloaded_size(), 0);
    assert_eq!(download.get_total_size(), None);

    download.apply(DownloadUpdate::Start);
    assert!(download.status().is_running());
    // A second start changes nothing.
    download.apply(DownloadUpdate::Start);
    assert!(download.status().is_running());

    download.apply(DownloadUpdate::TotalSize(100));
    assert_eq!(download.get_total_size(), Some(100));
    // The total size is set once.
    download.apply(DownloadUpdate::TotalSize(7));
    assert_eq!(download.get_total_size(), Some(100));

    download.apply(DownloadUpdate::Progress(40));
    assert_eq!(download.get_downloaded_size(), 40);
    // The number of bytes never goes down.
    download.apply(DownloadUpdate::Progress(30));
    assert_eq!(download.get_downloaded_size(), 40);

    let sample = SpeedSample::new(1000, 250_000_000).unwrap();
    download.apply(DownloadUpdate::Speed(sample));
    assert_eq!(download.get_download_speed(), Some(sample));

    download.apply(DownloadUpdate::Succeed);
    assert!(download.status().is_successful());
    assert_eq!(download.get_download_speed(), None);

    // Nothing leaves a terminal status.
    download.apply(DownloadUpdate::Start);
    download.apply(DownloadUpdate::Fail(DownloadError::from(TransportFailure::new("late"))));
    download.apply(DownloadUpdate::Progress(50));
    assert!(download.status().is_successful());
    assert_eq!(download.get_downloaded_size(), 40);
}

#[test]
fn failed_download_stays_failed() {
    let mut download = Download::pending();
    download.apply(DownloadUpdate::Start);
    download.apply(DownloadUpdate::Fail(DownloadError::from(IoFailure::new(
        IoErrorKind::Other,
        "first",
    ))));
    assert!(download.status().is_failed());
    download.apply(DownloadUpdate::Succeed);
    download.apply(DownloadUpdate::Start);
    download.apply(DownloadUpdate::Fail(DownloadError::from(IoFailure::new(
        IoErrorKind::Other,
        "second",
    ))));
    assert!(download.status().is_failed());
    assert_eq!(download.status().get_error().unwrap().to_string(), "first");
}

#[test]
fn speed_is_bytes_per_second_rounded_down() {
    let sample = SpeedSample::new(1000, 250_000_000).unwrap();
    assert_eq!(sample.bytes(), 1000);
    assert_eq!(sample.nanoseconds(), 250_000_000);
    assert_eq!(sample.bytes_per_second(), 4000);
    assert_eq!(SpeedSample::new(1, 3).unwrap().bytes_per_second(), 333_333_333);
    assert_eq!(SpeedSample::new(10, 3_000_000_000).unwrap().bytes_per_second(), 3);
    assert_eq!(
        SpeedSample::new(u64::MAX, 1).unwrap().bytes_per_second(),
        (u64::MAX as u128) * 1_000_000_000
    );
    assert_eq!(SpeedSample::idle().bytes_per_second(), 0);
    assert_eq!(SpeedSample::new(5, 0), None);
}

#[test]
fn duplicate_keeps_every_field() {
    let mut download = Download::pending();
    download.apply(DownloadUpdate::Start);
    download.apply(DownloadUpdate::TotalSize(12));
    download.apply(DownloadUpdate::Progress(5));
    let copy = download.duplicate();
    assert!(copy.status().is_running());
    assert_eq!(copy.get_total_size(), Some(12));
    assert_eq!(copy.get_downloaded_size(), 5);
    download.apply(DownloadUpdate::Progress(6));
    assert_eq!(copy.get_downloaded_size(), 5);
}

#[test]
fn shared_download_is_seen_through_every_handle() {
    let shared = new_download(DownloadStatus::Pending);
    let first = shared.proxy();
    let second = shared.share().proxy();
    assert!(first.is_pending());
    assert!(second.is_pending());
    shared.update(DownloadUpdate::Start);
    assert!(first.is_running());
    assert!(second.is_running());
    assert!(!first.is_pending());
    shared.update(DownloadUpdate::TotalSize(64));
    shared.update(DownloadUpdate::Progress(32));
    shared.update(DownloadUpdate::Speed(SpeedSample::new(32, 200_000_000).unwrap()));
    assert_eq!(first.get_total_size(), Some(64));
    assert_eq!(second.get_downloaded_size(), 32);
    assert_eq!(first.get_download_speed().unwrap().bytes_per_second(), 160);
    assert!(first.get_error().is_none());
    shared.update(DownloadUpdate::Succeed);
    assert!(first.is_successful());
    assert!(second.is_successful());
    assert!(!second.is_failed());
    assert_eq!(second.get_download_speed(), None);
    let record = first.snapshot();
    assert!(record.status().is_successful());
    assert_eq!(record.get_downloaded_size(), 32);
}

#[test]
fn failed_shared_download_hands_out_its_cause() {
    let shared = new_download(DownloadStatus::Running);
    fail_download(
        DownloadError::from(TransportFailure::new("connection reset")),
        &shared,
    );
    let proxy = shared.proxy();
    assert!(proxy.is_failed());
    let cause = proxy.get_error().expect("There must be an error.");
    assert_eq!(cause.to_string(), "connection reset");
    assert!(!cause.is_io());
}
