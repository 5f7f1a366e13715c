use vstd::prelude::*;

use crate::archive::{extract_outcome, extract_single_entry};
use crate::bounded_read::{
    bounded_read_post, chunk_views, concat, declared_too_large, first_overflow, read_bounded,
    BoundedRead,
};
use crate::error::FetchError;

verus! {

/// A client error (4xx) or server error (5xx) status.
pub open spec fn is_error_status(code: u16) -> bool {
    400 <= code < 600
}

/// Whether `code` is a client or server error status.
pub fn is_error_status_code(code: u16) -> (r: bool)
    ensures
        r == is_error_status(code),
{
    400 <= code && code < 600
}

/// Accepts any status but a client or server error, which becomes
/// `UpstreamError` carrying the status.
pub fn check_status(code: u16) -> (r: Result<(), FetchError>)
    ensures
        is_error_status(code) ==> r == Err::<(), FetchError>(FetchError::UpstreamError(code)),
        !is_error_status(code) ==> r is Ok,
{
    if is_error_status_code(code) {
        Err(FetchError::UpstreamError(code))
    } else {
        Ok(())
    }
}

/// One bounded fetch in raw-bytes mode, over a response whose status,
/// declared length and body chunks are given: the status is judged first and
/// an error status leaves the body unread; then the body is read under `limit`.
pub fn fetch_bytes(status: u16, declared: Option<u64>, chunks: &Vec<Vec<u8>>, limit: usize) -> (r:
    BoundedRead)
    ensures
        is_error_status(status) ==> {
            &&& r.result == Err::<Vec<u8>, FetchError>(FetchError::UpstreamError(status))
            &&& r.chunks_read == 0
        },
        !is_error_status(status) ==> bounded_read_post(
            declared,
            chunk_views(chunks@),
            limit,
            r.result,
            r.chunks_read,
        ),
{
    match check_status(status) {
        Ok(()) => read_bounded(declared, chunks, limit),
        Err(e) => BoundedRead { result: Err(e), chunks_read: 0 },
    }
}

/// The outcome of a bounded fetch in archive-text mode.
pub struct ArchiveFetch {
    /// The text of the archive's entry, or why there is none.
    pub result: Result<String, FetchError>,
    /// How many body chunks were taken from the source.
    pub chunks_read: usize,
}

/// One bounded fetch in archive-text mode: as `fetch_bytes`, then the bytes
/// received are extracted as a single-entry archive under `ceiling`. Every
/// error of either step is passed on unchanged.
pub fn fetch_archive_text(
    status: u16,
    declared: Option<u64>,
    chunks: &Vec<Vec<u8>>,
    limit: usize,
    ceiling: u64,
) -> (r: ArchiveFetch)
    ensures
        is_error_status(status) ==> {
            &&& r.result == Err::<String, FetchError>(FetchError::UpstreamError(status))
            &&& r.chunks_read == 0
        },
        !is_error_status(status) && declared_too_large(declared, limit) ==> {
            &&& r.result == Err::<String, FetchError>(FetchError::DeclaredSizeExceeded)
            &&& r.chunks_read == 0
        },
        !is_error_status(status) && !declared_too_large(declared, limit) && concat(
            chunk_views(chunks@),
        ).len() > limit ==> {
            &&& r.result == Err::<String, FetchError>(FetchError::ActualSizeExceeded)
            &&& first_overflow(chunk_views(chunks@), limit, r.chunks_read - 1)
        },
        !is_error_status(status) && !declared_too_large(declared, limit) && concat(
            chunk_views(chunks@),
        ).len() <= limit ==> {
            &&& r.chunks_read == chunks@.len()
            &&& r.result is Ok ==> extract_outcome(concat(chunk_views(chunks@)), ceiling) == Ok::<
                Seq<char>,
                FetchError,
            >(r.result->Ok_0@)
            &&& r.result is Err ==> extract_outcome(concat(chunk_views(chunks@)), ceiling) == Err::<
                Seq<char>,
                FetchError,
            >(r.result->Err_0)
        },
{
    let fetched = fetch_bytes(status, declared, chunks, limit);
    let chunks_read = fetched.chunks_read;
    match fetched.result {
        Ok(bytes) => {
            let text = extract_single_entry(bytes.as_slice(), ceiling);
            ArchiveFetch { result: text, chunks_read }
        },
        Err(e) => ArchiveFetch { result: Err(e), chunks_read },
    }
}

/// The listing of published data files, as the service reports it.
pub struct DataDumpList {
    pub files: Vec<String>,
    pub success: bool,
}

/// Picks the newest file of a listing: the last one, provided the listing
/// reports success and is not empty; otherwise `FileListUnavailable`.
pub fn latest_file_name(list: DataDumpList) -> (r: Result<String, FetchError>)
    ensures
        list.success && list.files@.len() > 0 ==> r is Ok && r->Ok_0@ == list.files@.last()@,
        !(list.success && list.files@.len() > 0) ==> r == Err::<String, FetchError>(
            FetchError::FileListUnavailable,
        ),
{
    let mut files = list.files;
    if list.success {
        match files.pop() {
            Some(name) => Ok(name),
            None => Err(FetchError::FileListUnavailable),
        }
    } else {
        Err(FetchError::FileListUnavailable)
    }
}

} // verus!
