use std::path::PathBuf;

use namimado::browser::bytes_format::format_bytes;
use namimado::browser::download::{Download, DownloadId, DownloadManager, DownloadState};
use namimado::location::Url;

fn test_url(s: &str) -> Url {
    Url::parse(s).unwrap()
}

#[test]
fn download_lifecycle() {
    let mut mgr = DownloadManager::new(PathBuf::from("/tmp/downloads"));

    let id = mgr.start_download(test_url("https://example.com/file.zip"), "file.zip");

    assert_eq!(mgr.active_count(), 1);
    assert_eq!(mgr.get(id).unwrap().state, DownloadState::InProgress);
    assert_eq!(mgr.get(id).unwrap().path, PathBuf::from("/tmp/downloads/file.zip"));

    mgr.update_progress(id, 500, Some(1000));
    let dl = mgr.get(id).unwrap();
    assert_eq!(dl.bytes_downloaded, 500);
    let progress = dl.bytes_downloaded as f32 / dl.total_bytes.unwrap() as f32;
    assert!((progress - 0.5).abs() < f32::EPSILON);

    mgr.complete(id);
    assert_eq!(mgr.get(id).unwrap().state, DownloadState::Completed);
    assert_eq!(mgr.active_count(), 0);
}

#[test]
fn pause_resume() {
    let mut mgr = DownloadManager::new(PathBuf::from("/tmp"));
    let id = mgr.start_download(test_url("https://example.com/f"), "f");

    mgr.pause(id);
    assert_eq!(mgr.get(id).unwrap().state, DownloadState::Paused);
    assert!(mgr.get(id).unwrap().state.is_active());

    mgr.resume(id);
    assert_eq!(mgr.get(id).unwrap().state, DownloadState::InProgress);
}

#[test]
fn cancel_download() {
    let mut mgr = DownloadManager::new(PathBuf::from("/tmp"));
    let id = mgr.start_download(test_url("https://example.com/f"), "f");

    mgr.cancel(id);
    assert_eq!(mgr.get(id).unwrap().state, DownloadState::Cancelled);
    assert!(mgr.get(id).unwrap().state.is_finished());
}

#[test]
fn fail_download() {
    let mut mgr = DownloadManager::new(PathBuf::from("/tmp"));
    let id = mgr.start_download(test_url("https://example.com/f"), "f");

    mgr.fail(id, "network timeout");
    let dl = mgr.get(id).unwrap();
    assert_eq!(dl.state, DownloadState::Failed);
    assert_eq!(dl.error.as_deref(), Some("network timeout"));
}

#[test]
fn clear_finished() {
    let mut mgr = DownloadManager::new(PathBuf::from("/tmp"));
    let id1 = mgr.start_download(test_url("https://example.com/a"), "a");
    let _id2 = mgr.start_download(test_url("https://example.com/b"), "b");

    mgr.complete(id1);
    mgr.clear_finished();
    assert_eq!(mgr.all().len(), 1);
}

#[test]
fn progress_text() {
    let mut counter: u64 = 1;
    let dl = Download {
        id: DownloadId::next(&mut counter),
        url: test_url("https://example.com/file"),
        filename: "file".into(),
        path: PathBuf::from("/tmp/file"),
        mime_type: None,
        bytes_downloaded: 1_500_000,
        total_bytes: Some(5_000_000),
        state: DownloadState::InProgress,
        started_at: 0,
        finished_at: None,
        error: None,
    };

    let text = dl.progress_text();
    assert!(text.contains("MB"));
    assert_eq!(text, "1.4 MB / 4.8 MB");
}

#[test]
fn format_bytes_units() {
    assert_eq!(format_bytes(500), "500 B");
    assert_eq!(format_bytes(1024), "1.0 KB");
    assert_eq!(format_bytes(1_048_576), "1.0 MB");
    assert_eq!(format_bytes(1_073_741_824), "1.0 GB");
}

fn float_formatting(bytes: u64) -> String {
    const KB: u64 = 1024;
    const MB: u64 = 1024 * KB;
    const GB: u64 = 1024 * MB;
    if bytes >= GB {
        format!("{:.1} GB", bytes as f64 / GB as f64)
    } else if bytes >= MB {
        format!("{:.1} MB", bytes as f64 / MB as f64)
    } else if bytes >= KB {
        format!("{:.1} KB", bytes as f64 / KB as f64)
    } else {
        format!("{bytes} B")
    }
}

#[test]
fn format_bytes_agrees_with_float_formatting() {
    let samples: Vec<u64> = vec![
        0, 1, 1023, 1024, 1075, 1126, 1127, 1280, 1331, 1536, 1945, 10_240, 1_048_575,
        1_048_576, 1_153_433, 1_500_000, 5_000_000, 104_857_600, 1_073_741_823, 1_073_741_824,
        1_181_116_006, 1_610_612_736, 1_099_511_627_776, 18_446_744_073_709_551_615,
    ];
    for b in samples {
        assert_eq!(format_bytes(b), float_formatting(b), "bytes = {b}");
    }
    let mut b: u64 = 1;
    while b < u64::MAX / 3 {
        for d in [0u64, 1, 51, 52, 102, 103] {
            let x = b + d;
            assert_eq!(format_bytes(x), float_formatting(x), "bytes = {x}");
        }
        b = b * 3 + 7;
    }
}

#[test]
fn format_bytes_half_tenth_rounds_to_even() {
    // 1280 bytes is exactly 1.25 KB: printed with one decimal it rounds to even.
    assert_eq!(format_bytes(1280), "1.2 KB");
    assert_eq!(format_bytes(1792), "1.8 KB");
}

#[test]
fn download_ids_count_up() {
    let mut counter: u64 = 7;
    let a = DownloadId::next(&mut counter);
    let b = DownloadId::next(&mut counter);
    assert_eq!(a.as_u64(), 7);
    assert_eq!(b.as_u64(), 8);
}

#[test]
fn cancel_after_completion_is_ignored() {
    let mut mgr = DownloadManager::new(PathBuf::from("/tmp"));
    let id = mgr.start_download(test_url("https://example.com/f"), "f");
    mgr.complete_at(id, 10);
    mgr.cancel_at(id, 20);
    let dl = mgr.get(id).unwrap();
    assert_eq!(dl.state, DownloadState::Completed);
    assert_eq!(dl.finished_at, Some(10));
}

#[test]
fn complete_fills_known_total() {
    let mut mgr = DownloadManager::new(PathBuf::from("/tmp"));
    let id = mgr.start_download(test_url("https://example.com/f"), "f");
    mgr.update_progress(id, 10, Some(100));
    mgr.complete_at(id, 5);
    assert_eq!(mgr.get(id).unwrap().bytes_downloaded, 100);
}

#[test]
fn pause_only_from_in_progress() {
    let mut mgr = DownloadManager::new(PathBuf::from("/tmp"));
    let id = mgr.start_download(test_url("https://example.com/f"), "f");
    mgr.fail_at(id, "x", 3);
    mgr.pause(id);
    assert_eq!(mgr.get(id).unwrap().state, DownloadState::Failed);
    mgr.resume(id);
    assert_eq!(mgr.get(id).unwrap().state, DownloadState::Failed);
}

#[test]
fn active_completed_and_remove() {
    let mut mgr = DownloadManager::new(PathBuf::from("/tmp"));
    let a = mgr.start_download(test_url("https://example.com/a"), "a");
    let b = mgr.start_download(test_url("https://example.com/b"), "b");
    mgr.complete_at(a, 1);
    assert_eq!(mgr.active().len(), 1);
    assert_eq!(mgr.completed().len(), 1);
    mgr.remove(b);
    assert_eq!(mgr.all().len(), 1);
    assert!(mgr.get(b).is_none());
}

#[test]
fn progress_text_without_total() {
    let mut mgr = DownloadManager::new(PathBuf::from("/tmp"));
    let id = mgr.start_download(test_url("https://example.com/f"), "f");
    mgr.update_progress(id, 2048, None);
    assert_eq!(mgr.get(id).unwrap().progress_text(), "2.0 KB");
}

#[test]
fn all_lists_most_recent_first() {
    let mut mgr = DownloadManager::new(PathBuf::from("/tmp"));
    let a = mgr.start_download(test_url("https://example.com/a"), "a");
    let b = mgr.start_download(test_url("https://example.com/b"), "b");
    assert_eq!(mgr.all().len(), 2);
    assert_eq!(mgr.all()[0].id, b);
    assert_eq!(mgr.all()[1].id, a);
    assert_ne!(a, b);
    assert_eq!(mgr.get(b).unwrap().filename, "b");
    assert_eq!(mgr.get(a).unwrap().filename, "a");
}
