use std::io::Write;

use stn_notice::error::FetchError;
use stn_notice::fetch::{
    check_status, fetch_archive_text, fetch_bytes, is_error_status_code, latest_file_name,
    DataDumpList,
};
use zip::write::SimpleFileOptions;

fn body_in_chunks(total: usize, chunk: usize) -> Vec<Vec<u8>> {
    let mut chunks = Vec::new();
    let mut left = total;
    let mut n: u8 = 0;
    while left > 0 {
        let size = left.min(chunk);
        chunks.push(vec![n; size]);
        left -= size;
        n = n.wrapping_add(1);
    }
    chunks
}

#[test]
fn error_statuses_are_client_and_server_errors() {
    assert!(!is_error_status_code(200));
    assert!(!is_error_status_code(204));
    assert!(!is_error_status_code(304));
    assert!(is_error_status_code(400));
    assert!(is_error_status_code(404));
    assert!(is_error_status_code(503));
    assert!(is_error_status_code(599));
    assert!(!is_error_status_code(600));
    assert_eq!(check_status(404), Err(FetchError::UpstreamError(404)));
    assert_eq!(check_status(200), Ok(()));
}

#[test]
fn error_status_leaves_body_unread() {
    let chunks = body_in_chunks(10, 4);
    let r = fetch_bytes(500, Some(10), &chunks, 100);
    assert_eq!(r.result, Err(FetchError::UpstreamError(500)));
    assert_eq!(r.chunks_read, 0);
}

#[test]
fn declared_length_over_limit_fails_before_reading() {
    let chunks = body_in_chunks(2_000_000, 65_536);
    let r = fetch_bytes(200, Some(2_000_000), &chunks, 1_000_000);
    assert_eq!(r.result, Err(FetchError::DeclaredSizeExceeded));
    assert_eq!(r.chunks_read, 0);
}

#[test]
fn streamed_body_without_length_is_returned_whole() {
    let chunks = body_in_chunks(500_000, 16_384);
    let r = fetch_bytes(200, None, &chunks, 1_000_000);
    let body = r.result.unwrap();
    assert_eq!(body.len(), 500_000);
    assert_eq!(body, chunks.concat());
    assert_eq!(r.chunks_read, chunks.len());
}

#[test]
fn streamed_body_over_limit_fails_at_the_crossing_chunk() {
    let chunks = body_in_chunks(1_500_000, 100_000);
    let r = fetch_bytes(200, None, &chunks, 1_000_000);
    assert_eq!(r.result, Err(FetchError::ActualSizeExceeded));
    assert_eq!(r.chunks_read, 11);
}

#[test]
fn archive_fetch_returns_the_entry_text() {
    let mut writer = zip::ZipWriter::new(std::io::Cursor::new(Vec::new()));
    writer.start_file("dump.json", SimpleFileOptions::default()).unwrap();
    writer.write_all(b"[1,2,3]").unwrap();
    let archive = writer.finish().unwrap().into_inner();
    let chunks: Vec<Vec<u8>> = archive.chunks(7).map(|c| c.to_vec()).collect();
    let r = fetch_archive_text(200, Some(archive.len() as u64), &chunks, 10_000, 1_000);
    assert_eq!(r.result, Ok("[1,2,3]".to_string()));
    assert_eq!(r.chunks_read, chunks.len());
}

#[test]
fn archive_fetch_passes_errors_on_unchanged() {
    let chunks = body_in_chunks(100, 10);
    let r = fetch_archive_text(403, None, &chunks, 1_000, 1_000);
    assert_eq!(r.result, Err(FetchError::UpstreamError(403)));
    let r = fetch_archive_text(200, Some(2_000), &chunks, 1_000, 1_000);
    assert_eq!(r.result, Err(FetchError::DeclaredSizeExceeded));
    let r = fetch_archive_text(200, None, &chunks, 50, 1_000);
    assert_eq!(r.result, Err(FetchError::ActualSizeExceeded));
    assert_eq!(r.chunks_read, 6);
    let r = fetch_archive_text(200, None, &chunks, 1_000, 1_000);
    assert_eq!(r.result, Err(FetchError::InvalidArchive));
}

#[test]
fn latest_file_is_the_last_listed() {
    let list = DataDumpList {
        files: vec!["2024-01-01.zip".to_string(), "2024-01-02.zip".to_string()],
        success: true,
    };
    assert_eq!(latest_file_name(list), Ok("2024-01-02.zip".to_string()));
}

#[test]
fn failed_or_empty_listing_is_unavailable() {
    let failed = DataDumpList { files: vec!["a.zip".to_string()], success: false };
    assert_eq!(latest_file_name(failed), Err(FetchError::FileListUnavailable));
    let empty = DataDumpList { files: Vec::new(), success: true };
    assert_eq!(latest_file_name(empty), Err(FetchError::FileListUnavailable));
}
