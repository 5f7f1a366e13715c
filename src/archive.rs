use vstd::prelude::*;

use crate::error::FetchError;

verus! {

#[verifier::external_type_specification]
#[verifier::external_body]
pub struct ExZipError(zip::result::ZipError);

/// The number of entries in the central directory of `archive`, or `None`
/// when the bytes do not parse as a zip archive.
pub uninterp spec fn zip_entry_count(archive: Seq<u8>) -> Option<nat>;

/// The uncompressed size that the first entry of `archive` declares, or
/// `None` when the archive or that entry cannot be read.
pub uninterp spec fn zip_first_entry_size(archive: Seq<u8>) -> Option<u64>;

/// At most the first `cap` decompressed bytes of the first entry of
/// `archive`, or `None` when reading them fails.
pub uninterp spec fn zip_first_entry_read(archive: Seq<u8>, cap: u64) -> Option<Seq<u8>>;

/// The text that `bytes` encode as UTF-8, or `None` when they are not UTF-8.
pub uninterp spec fn utf8_decode(bytes: Seq<u8>) -> Option<Seq<char>>;

/// Relies on zip::ZipArchive::new and ZipArchive::len: the archive is parsed
/// from its central directory and the number of entries found there is returned.
#[verifier::external_body]
fn archive_entry_count(archive: &[u8]) -> (r: Result<usize, zip::result::ZipError>)
    ensures
        r is Ok ==> zip_entry_count(archive@) == Some(r->Ok_0 as nat),
        r is Err ==> zip_entry_count(archive@) is None,
{
    let zip = zip::ZipArchive::new(std::io::Cursor::new(archive))?;
    Ok(zip.len())
}

/// Relies on zip::ZipArchive::by_index and ZipFile::size: the uncompressed
/// size recorded for entry 0, read without decompressing anything.
#[verifier::external_body]
fn archive_first_entry_size(archive: &[u8]) -> (r: Result<u64, zip::result::ZipError>)
    ensures
        r is Ok ==> zip_first_entry_size(archive@) == Some(r->Ok_0),
        r is Err ==> zip_first_entry_size(archive@) is None,
{
    let mut zip = zip::ZipArchive::new(std::io::Cursor::new(archive))?;
    let entry = zip.by_index(0)?;
    Ok(entry.size())
}

/// Relies on zip::ZipArchive::by_index, std::io::Read::take and
/// Read::read_to_end: entry 0 is decompressed into a buffer of the given
/// capacity, and `take` stops the output after `cap` bytes.
#[verifier::external_body]
fn archive_read_first_entry(archive: &[u8], cap: u64, capacity: usize) -> (r: Result<Vec<u8>, zip::result::ZipError>)
    ensures
        r is Ok ==> zip_first_entry_read(archive@, cap) == Some(r->Ok_0@),
        r is Ok ==> r->Ok_0@.len() <= cap,
        r is Err ==> zip_first_entry_read(archive@, cap) is None,
{
    let mut zip = zip::ZipArchive::new(std::io::Cursor::new(archive))?;
    let entry = zip.by_index(0)?;
    let mut data: Vec<u8> = Vec::with_capacity(capacity);
    std::io::Read::read_to_end(&mut std::io::Read::take(entry, cap), &mut data)?;
    Ok(data)
}

/// Relies on String::from_utf8: it succeeds exactly on valid UTF-8 and then
/// holds the decoded text.
#[verifier::external_body]
fn utf8_to_string(bytes: Vec<u8>) -> (r: Option<String>)
    ensures
        r is Some ==> utf8_decode(bytes@) == Some(r->0@),
        r is None ==> utf8_decode(bytes@) is None,
{
    String::from_utf8(bytes).ok()
}

/// How many decompressed bytes are read: one past the ceiling, so that an
/// entry whose data runs over its declared size is caught.
pub open spec fn read_cap(ceiling: u64) -> u64 {
    if ceiling < u64::MAX {
        (ceiling + 1) as u64
    } else {
        ceiling
    }
}

/// The verdict on an archive's directory, before anything is decompressed.
pub open spec fn header_outcome(entry_count: nat, declared_size: u64, ceiling: u64) -> Result<(), FetchError> {
    if entry_count == 0 {
        Err(FetchError::EmptyArchive)
    } else if declared_size > ceiling {
        Err(FetchError::UncompressedSizeExceeded)
    } else {
        Ok(())
    }
}

/// The text of a decompressed entry, bounded by the ceiling.
pub open spec fn decode_outcome(data: Seq<u8>, ceiling: u64) -> Result<Seq<char>, FetchError> {
    if data.len() > ceiling {
        Err(FetchError::UncompressedSizeExceeded)
    } else {
        match utf8_decode(data) {
            Some(text) => Ok(text),
            None => Err(FetchError::InvalidText),
        }
    }
}

/// What extracting the single entry of `archive` yields.
pub open spec fn extract_outcome(archive: Seq<u8>, ceiling: u64) -> Result<Seq<char>, FetchError> {
    match zip_entry_count(archive) {
        None => Err(FetchError::InvalidArchive),
        Some(n) => if n == 0 {
            Err(FetchError::EmptyArchive)
        } else {
            match zip_first_entry_size(archive) {
                None => Err(FetchError::InvalidArchive),
                Some(size) => if size > ceiling {
                    Err(FetchError::UncompressedSizeExceeded)
                } else {
                    match zip_first_entry_read(archive, read_cap(ceiling)) {
                        None => Err(FetchError::InvalidArchive),
                        Some(data) => decode_outcome(data, ceiling),
                    }
                },
            }
        },
    }
}

/// Judges an archive from its directory alone: no entry is `EmptyArchive`,
/// and a first entry that declares more than `ceiling` bytes is
/// `UncompressedSizeExceeded`. Only entry 0 is ever considered.
pub fn check_entry_header(entry_count: usize, declared_size: u64, ceiling: u64) -> (r: Result<(), FetchError>)
    ensures
        r == header_outcome(entry_count as nat, declared_size, ceiling),
{
    if entry_count == 0 {
        Err(FetchError::EmptyArchive)
    } else if declared_size > ceiling {
        Err(FetchError::UncompressedSizeExceeded)
    } else {
        Ok(())
    }
}

/// Turns the decompressed bytes of the entry into text: more than `ceiling`
/// bytes is `UncompressedSizeExceeded` (the entry lied about its size), bytes
/// that are not UTF-8 are `InvalidText`.
pub fn decode_entry(data: Vec<u8>, ceiling: u64) -> (r: Result<String, FetchError>)
    ensures
        r is Ok ==> decode_outcome(data@, ceiling) == Ok::<Seq<char>, FetchError>(r->Ok_0@),
        r is Err ==> decode_outcome(data@, ceiling) == Err::<Seq<char>, FetchError>(r->Err_0),
{
    if data.len() as u64 > ceiling {
        return Err(FetchError::UncompressedSizeExceeded);
    }
    match utf8_to_string(data) {
        Some(text) => Ok(text),
        None => Err(FetchError::InvalidText),
    }
}

/// Extracts the single entry of a zip archive into memory as text.
///
/// The archive must parse and hold at least one entry; only entry 0 is read,
/// any others are ignored. Its declared uncompressed size is checked against
/// `ceiling` before anything is decompressed, and the decompressed output is
/// cut off one byte past `ceiling`, so an entry that lies about its size is
/// refused as well.
pub fn extract_single_entry(archive: &[u8], ceiling: u64) -> (r: Result<String, FetchError>)
    ensures
        r is Ok ==> extract_outcome(archive@, ceiling) == Ok::<Seq<char>, FetchError>(r->Ok_0@),
        r is Err ==> extract_outcome(archive@, ceiling) == Err::<Seq<char>, FetchError>(r->Err_0),
        zip_entry_count(archive@) == Some(0nat) ==> r == Err::<String, FetchError>(FetchError::EmptyArchive),
        zip_entry_count(archive@) is Some && zip_entry_count(archive@)->0 > 0 && zip_first_entry_size(
            archive@,
        ) is Some && zip_first_entry_size(archive@)->0 > ceiling ==> r == Err::<String, FetchError>(
            FetchError::UncompressedSizeExceeded,
        ),
{
    let count = match archive_entry_count(archive) {
        Ok(n) => n,
        Err(_) => {
            return Err(FetchError::InvalidArchive);
        },
    };
    if count == 0 {
        return Err(FetchError::EmptyArchive);
    }
    let declared = match archive_first_entry_size(archive) {
        Ok(size) => size,
        Err(_) => {
            return Err(FetchError::InvalidArchive);
        },
    };
    match check_entry_header(count, declared, ceiling) {
        Ok(()) => {},
        Err(e) => {
            return Err(e);
        },
    }
    let cap: u64 = if ceiling < u64::MAX {
        ceiling + 1
    } else {
        ceiling
    };
    let capacity: usize = if declared <= usize::MAX as u64 {
        declared as usize
    } else {
        0
    };
    let data = match archive_read_first_entry(archive, cap, capacity) {
        Ok(d) => d,
        Err(_) => {
            return Err(FetchError::InvalidArchive);
        },
    };
    decode_entry(data, ceiling)
}

} // verus!
