use std::io::Write;

use navdata_installer::downloader::{
    DownloadAction, DownloadStatus, NavdataDownloader, Task, TaskStatus, TickOutput,
};
use navdata_installer::installer::FsAction;

fn make_zip(entries: &[(&str, &[u8])]) -> Vec<u8> {
    let mut zw = zip::ZipWriter::new(std::io::Cursor::new(Vec::new()));
    let options = zip::write::SimpleFileOptions::default();
    for (name, data) in entries {
        if name.ends_with('/') {
            zw.add_directory(*name, options).unwrap();
        } else {
            zw.start_file(*name, options).unwrap();
            zw.write_all(data).unwrap();
        }
    }
    zw.finish().unwrap().into_inner()
}

fn task(url: &str, folder: &str, batch_size: Option<u64>) -> Task {
    Task {
        url: url.to_string(),
        folder: folder.to_string(),
        batch_size,
        status: TaskStatus::InProgress,
    }
}

fn submit_and_fetch(d: &mut NavdataDownloader, folder: &str, bytes: Vec<u8>, existing: Vec<Vec<u8>>) {
    let action = d.download(task("http://example.invalid/a.zip", folder, None));
    assert!(matches!(action, DownloadAction::StartFetch { .. }));
    d.on_fetch_complete(200, Some(bytes), folder.to_string(), existing);
}

#[test]
fn new_engine_is_idle_with_default_batch() {
    let d = NavdataDownloader::new();
    assert!(matches!(d.download_status, DownloadStatus::NoDownload));
    assert_eq!(d.options.batch_size, 10);
    assert!(d.zip_handler.is_none());
    assert!(d.task.is_none());
}

#[test]
fn submit_empty_url_fails_fast() {
    let mut d = NavdataDownloader::new();
    let action = d.download(task("", "x", None));
    assert!(matches!(action, DownloadAction::Rejected { .. }));
    match &d.download_status {
        DownloadStatus::Failed(m) => assert_eq!(m, "No url or folder provided"),
        other => panic!("expected failed status, got {:?}", other),
    }
}

#[test]
fn submit_empty_folder_fails_fast() {
    let mut d = NavdataDownloader::new();
    let action = d.download(task("x", "", None));
    assert!(matches!(action, DownloadAction::Rejected { .. }));
    match &d.download_status {
        DownloadStatus::Failed(m) => assert_eq!(m, "No url or folder provided"),
        other => panic!("expected failed status, got {:?}", other),
    }
    // the rejected request is reported on the next tick
    match d.on_update() {
        TickOutput::Resolved { task } => {
            assert!(matches!(task.status, TaskStatus::Failure(m) if m == "No url or folder provided"));
        }
        _ => panic!("expected a resolved request"),
    }
    assert!(matches!(d.download_status, DownloadStatus::NoDownload));
}

#[test]
fn submit_while_active_drops_new_request() {
    let mut d = NavdataDownloader::new();
    let first = d.download(task("http://example.invalid/a.zip", "f", None));
    assert!(matches!(first, DownloadAction::StartFetch { .. }));
    let status_before = d.download_status.clone();
    let second = d.download(task("http://example.invalid/b.zip", "g", None));
    match second {
        DownloadAction::Dropped { task } => {
            assert_eq!(task.url, "http://example.invalid/b.zip");
            assert_eq!(task.folder, "g");
        }
        _ => panic!("expected the second request to be dropped"),
    }
    assert_eq!(d.download_status, status_before);
    let stored = d.task.as_ref().unwrap();
    assert_eq!(stored.url, "http://example.invalid/a.zip");
    assert_eq!(stored.folder, "f");
}

#[test]
fn status_404_fails_then_engine_idles_and_accepts() {
    let mut d = NavdataDownloader::new();
    let action = d.download(task("http://example.invalid/a.zip", "f", None));
    let folder = match action {
        DownloadAction::StartFetch { folder, .. } => folder,
        _ => panic!("expected a fetch"),
    };
    d.on_fetch_complete(404, None, folder, Vec::new());
    match &d.download_status {
        DownloadStatus::Failed(m) => {
            assert_eq!(m, "Failed to download file. Status code: 404")
        }
        other => panic!("expected failed status, got {:?}", other),
    }
    match d.on_update() {
        TickOutput::Resolved { task } => {
            assert!(matches!(
                task.status,
                TaskStatus::Failure(m) if m == "Failed to download file. Status code: 404"
            ));
        }
        _ => panic!("expected a resolved request"),
    }
    assert!(matches!(d.download_status, DownloadStatus::NoDownload));
    let again = d.download(task("http://example.invalid/b.zip", "g", None));
    assert!(matches!(again, DownloadAction::StartFetch { .. }));
}

#[test]
fn negative_status_code_is_rendered_in_the_message() {
    let mut d = NavdataDownloader::new();
    let _ = d.download(task("http://example.invalid/a.zip", "f", None));
    d.on_fetch_complete(-1, None, "f".to_string(), Vec::new());
    match &d.download_status {
        DownloadStatus::Failed(m) => assert_eq!(m, "Failed to download file. Status code: -1"),
        other => panic!("expected failed status, got {:?}", other),
    }
}

#[test]
fn empty_body_reports_no_data_received() {
    let mut d = NavdataDownloader::new();
    let _ = d.download(task("http://example.invalid/a.zip", "f", None));
    d.on_fetch_complete(200, Some(Vec::new()), "f".to_string(), Vec::new());
    match &d.download_status {
        DownloadStatus::Failed(m) => assert_eq!(m, "No data received"),
        other => panic!("expected failed status, got {:?}", other),
    }
}

#[test]
fn missing_body_reports_no_data_received() {
    let mut d = NavdataDownloader::new();
    let _ = d.download(task("http://example.invalid/a.zip", "f", None));
    d.on_fetch_complete(200, None, "f".to_string(), Vec::new());
    match &d.download_status {
        DownloadStatus::Failed(m) => assert_eq!(m, "No data received"),
        other => panic!("expected failed status, got {:?}", other),
    }
}

#[test]
fn unparsable_body_reports_archive_error() {
    let mut d = NavdataDownloader::new();
    let _ = d.download(task("http://example.invalid/a.zip", "f", None));
    d.on_fetch_complete(200, Some(vec![1, 2, 3, 4]), "f".to_string(), Vec::new());
    match &d.download_status {
        DownloadStatus::Failed(m) => {
            assert!(m.starts_with("Failed to create zip archive: "), "message was {:?}", m)
        }
        other => panic!("expected failed status, got {:?}", other),
    }
    assert!(d.zip_handler.is_none());
}

#[test]
fn twenty_five_entries_batch_ten_progress() {
    let entries: Vec<(String, Vec<u8>)> =
        (0..25).map(|i| (format!("file{}.txt", i), format!("data{}", i).into_bytes())).collect();
    let borrowed: Vec<(&str, &[u8])> =
        entries.iter().map(|(n, d)| (n.as_str(), d.as_slice())).collect();
    let bytes = make_zip(&borrowed);

    let mut d = NavdataDownloader::new();
    submit_and_fetch(&mut d, "navdata", bytes, Vec::new());
    assert!(matches!(d.download_status, DownloadStatus::Downloading));

    let mut seen = Vec::new();
    for _ in 0..3 {
        match d.on_update() {
            TickOutput::Progress { update, actions } => {
                assert_eq!(update.phase.code(), 2);
                assert_eq!(update.total_to_unzip, Some(25));
                assert_eq!(update.deleted, None);
                seen.push((update.unzipped.unwrap(), actions.len()));
            }
            _ => panic!("expected progress"),
        }
        assert!(matches!(d.download_status, DownloadStatus::Extracting));
    }
    assert_eq!(seen, vec![(10, 10), (20, 10), (25, 5)]);
    // the finishing batch kept the installer so its actions could still
    // fail; the next tick finds no work left and resolves the request
    match d.on_update() {
        TickOutput::Resolved { task } => {
            assert!(matches!(task.status, TaskStatus::Success(None)));
            assert_eq!(task.folder, "navdata");
        }
        _ => panic!("expected the request to resolve"),
    }
    assert!(matches!(d.download_status, DownloadStatus::NoDownload));
    assert!(d.zip_handler.is_none());
}

#[test]
fn extraction_writes_carry_destination_and_contents() {
    let bytes = make_zip(&[("dir/", b""), ("dir/a.txt", b"alpha"), ("b.bin", b"\x00\x01\x02")]);
    let mut d = NavdataDownloader::new();
    submit_and_fetch(&mut d, "fold", bytes, Vec::new());
    let actions = match d.on_update() {
        TickOutput::Progress { actions, .. } => actions,
        _ => panic!("expected progress"),
    };
    assert_eq!(actions.len(), 3);
    match &actions[0] {
        FsAction::EnsureDir { path } => assert_eq!(path, b"\\work/fold/dir/"),
        other => panic!("expected a directory action, got {:?}", other),
    }
    match &actions[1] {
        FsAction::WriteFile { path, data } => {
            assert_eq!(path, b"\\work/fold/dir/a.txt");
            assert_eq!(data, b"alpha");
        }
        other => panic!("expected a write action, got {:?}", other),
    }
    match &actions[2] {
        FsAction::WriteFile { path, data } => {
            assert_eq!(path, b"\\work/fold/b.bin");
            assert_eq!(data, &[0u8, 1, 2]);
        }
        other => panic!("expected a write action, got {:?}", other),
    }
}

#[test]
fn deletions_run_first_and_never_mix_with_extraction() {
    let bytes = make_zip(&[("a.txt", b"a"), ("b.txt", b"b")]);
    let mut d = NavdataDownloader::new();
    let existing = vec![
        b"\\work/f/old1".to_vec(),
        b"\\work/f/old2".to_vec(),
        b"\\work/f/old3".to_vec(),
    ];
    submit_and_fetch(&mut d, "f", bytes, existing);
    let _ = d.set_download_options(task("", "", Some(2)));

    match d.on_update() {
        TickOutput::Progress { update, actions } => {
            assert_eq!(update.phase.code(), 1);
            assert_eq!(update.deleted, Some(2));
            assert_eq!(update.unzipped, None);
            assert_eq!(update.total_to_unzip, None);
            assert_eq!(actions.len(), 2);
            assert!(matches!(&actions[0], FsAction::DeleteFile { path } if path == b"\\work/f/old3"));
            assert!(matches!(&actions[1], FsAction::DeleteFile { path } if path == b"\\work/f/old2"));
        }
        _ => panic!("expected progress"),
    }
    assert!(matches!(d.download_status, DownloadStatus::CleaningDestination));

    match d.on_update() {
        TickOutput::Progress { update, actions } => {
            assert_eq!(update.phase.code(), 1);
            assert_eq!(update.deleted, Some(3));
            assert_eq!(actions.len(), 1);
            assert!(matches!(&actions[0], FsAction::DeleteFile { path } if path == b"\\work/f/old1"));
        }
        _ => panic!("expected progress"),
    }

    match d.on_update() {
        TickOutput::Progress { update, actions } => {
            assert_eq!(update.phase.code(), 2);
            assert_eq!(update.unzipped, Some(2));
            assert_eq!(update.total_to_unzip, Some(2));
            assert_eq!(actions.len(), 2);
            assert!(actions.iter().all(|a| matches!(a, FsAction::WriteFile { .. })));
        }
        _ => panic!("expected progress"),
    }
    assert!(matches!(d.on_update(), TickOutput::Resolved { .. }));
    assert!(matches!(d.download_status, DownloadStatus::NoDownload));
}

#[test]
fn traversal_entry_fails_the_installation() {
    let bytes = make_zip(&[("ok.txt", b"fine"), ("../evil.txt", b"bad")]);
    let mut d = NavdataDownloader::new();
    submit_and_fetch(&mut d, "f", bytes, Vec::new());
    match d.on_update() {
        TickOutput::Resolved { task } => match task.status {
            TaskStatus::Failure(m) => {
                assert_eq!(m, "Archive entry path escapes the destination folder")
            }
            other => panic!("expected failure, got {:?}", other),
        },
        _ => panic!("expected the installation to fail"),
    }
    assert!(matches!(d.download_status, DownloadStatus::NoDownload));
    assert!(d.zip_handler.is_none());
}

#[test]
fn configure_zero_batch_clamps_to_one() {
    let mut d = NavdataDownloader::new();
    let r = d.set_download_options(task("", "", Some(0)));
    assert_eq!(d.options.batch_size, 1);
    assert!(matches!(r.status, TaskStatus::Success(None)));
}

#[test]
fn configure_without_batch_keeps_previous_and_still_succeeds() {
    let mut d = NavdataDownloader::new();
    let r = d.set_download_options(task("", "", None));
    assert_eq!(d.options.batch_size, 10);
    assert!(matches!(r.status, TaskStatus::Success(None)));
    let r2 = d.set_download_options(task("", "", Some(5)));
    assert_eq!(d.options.batch_size, 5);
    assert!(matches!(r2.status, TaskStatus::Success(None)));
}

#[test]
fn unzip_batch_without_handler_reports_missing_handler() {
    let mut d = NavdataDownloader::new();
    match d.unzip_batch(10) {
        Err(m) => assert_eq!(m, "Zip handler not found"),
        Ok(_) => panic!("expected an error"),
    }
}

#[test]
fn report_install_failure_drives_the_next_tick_to_failure() {
    let bytes = make_zip(&[("a.txt", b"a")]);
    let mut d = NavdataDownloader::new();
    submit_and_fetch(&mut d, "f", bytes, Vec::new());
    d.report_install_failure("disk full".to_string());
    assert!(d.zip_handler.is_none());
    match d.on_update() {
        TickOutput::Resolved { task } => {
            assert!(matches!(task.status, TaskStatus::Failure(m) if m == "disk full"));
        }
        _ => panic!("expected a resolved request"),
    }
    assert!(matches!(d.download_status, DownloadStatus::NoDownload));
}

#[test]
fn reset_download_returns_to_idle() {
    let bytes = make_zip(&[("a.txt", b"a")]);
    let mut d = NavdataDownloader::new();
    submit_and_fetch(&mut d, "f", bytes, Vec::new());
    d.reset_download();
    assert!(matches!(d.download_status, DownloadStatus::NoDownload));
    assert!(d.zip_handler.is_none());
    assert!(d.task.is_none());
}

#[test]
fn spurious_callback_changes_nothing() {
    let mut d = NavdataDownloader::new();
    d.on_fetch_complete(200, Some(vec![1, 2, 3]), "f".to_string(), Vec::new());
    assert!(matches!(d.download_status, DownloadStatus::NoDownload));
    assert!(d.zip_handler.is_none());
}

#[test]
fn fetch_not_created_reports_the_request_failure() {
    let mut d = NavdataDownloader::new();
    let action = d.download(task("http://example.invalid/a.zip", "f", None));
    assert!(matches!(action, DownloadAction::StartFetch { .. }));
    d.report_fetch_not_created();
    match &d.download_status {
        DownloadStatus::Failed(m) => assert_eq!(m, "Failed to create request"),
        other => panic!("expected failed status, got {:?}", other),
    }
    match d.on_update() {
        TickOutput::Resolved { task } => {
            assert!(matches!(task.status, TaskStatus::Failure(m) if m == "Failed to create request"));
        }
        _ => panic!("expected a resolved request"),
    }
}

#[test]
fn empty_archive_resolves_after_the_cleaning_batch() {
    let bytes = make_zip(&[]);
    let mut d = NavdataDownloader::new();
    submit_and_fetch(&mut d, "f", bytes, vec![b"\\work/f/old".to_vec()]);
    // the one deletion batch is also the last work: it still reports
    // progress, so a failed deletion could be reported before resolution
    match d.on_update() {
        TickOutput::Progress { update, actions } => {
            assert_eq!(update.phase.code(), 1);
            assert_eq!(update.deleted, Some(1));
            assert_eq!(actions.len(), 1);
            assert!(matches!(&actions[0], FsAction::DeleteFile { .. }));
        }
        _ => panic!("expected the cleaning phase"),
    }
    match d.on_update() {
        TickOutput::Resolved { task } => assert!(matches!(task.status, TaskStatus::Success(None))),
        _ => panic!("expected the request to resolve"),
    }
    assert!(matches!(d.download_status, DownloadStatus::NoDownload));
}

#[test]
fn empty_archive_with_clean_destination_resolves_at_once() {
    let bytes = make_zip(&[]);
    let mut d = NavdataDownloader::new();
    submit_and_fetch(&mut d, "f", bytes, Vec::new());
    // nothing to delete, nothing to extract: the engine never sits stuck
    // with a request it cannot resolve
    match d.on_update() {
        TickOutput::Resolved { task } => assert!(matches!(task.status, TaskStatus::Success(None))),
        _ => panic!("expected the request to resolve"),
    }
    assert!(matches!(d.download_status, DownloadStatus::NoDownload));
    assert!(d.zip_handler.is_none());
}

#[test]
fn a_failure_in_the_finishing_batch_is_still_reported() {
    let bytes = make_zip(&[("only.txt", b"x")]);
    let mut d = NavdataDownloader::new();
    submit_and_fetch(&mut d, "f", bytes, Vec::new());
    // the finishing batch reports progress and keeps the installer
    match d.on_update() {
        TickOutput::Progress { update, .. } => assert_eq!(update.unzipped, Some(1)),
        _ => panic!("expected progress"),
    }
    assert!(d.zip_handler.is_some());
    // the host fails to perform one of the final actions
    d.report_install_failure("disk full".to_string());
    match d.on_update() {
        TickOutput::Resolved { task } => {
            assert!(matches!(task.status, TaskStatus::Failure(m) if m == "disk full"));
        }
        _ => panic!("expected the failure to reach the request"),
    }
    assert!(matches!(d.download_status, DownloadStatus::NoDownload));
}
