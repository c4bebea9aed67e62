use vstd::prelude::*;
use vstd::string::*;
use crate::paths::{is_relative_part, join_path, joins, plain_base};
use crate::setup::{extracted_file_name, extracted_name_spec, lemma_file_part_plain};
use crate::text::ends_with;

verus! {

#[verifier::external_type_specification]
#[verifier::external_body]
pub struct ExZipError(zip::result::ZipError);

#[verifier::external_type_specification]
#[verifier::external_body]
pub struct ExIoError(std::io::Error);

/// Why an archive entry's contents could not be read.
pub enum EntryError {
    /// The archive or the entry's record could not be read.
    Archive(zip::result::ZipError),
    /// The entry's contents could not be read (or decompressed).
    Read(std::io::Error),
}

/// The number of entries that the `zip` crate reads from the central
/// directory of an archive held in `bytes`, or `None` when it cannot open it.
pub uninterp spec fn zip_entry_count_of(bytes: Seq<u8>) -> Option<nat>;

/// The name of entry `i` of the archive held in `bytes` as the `zip` crate
/// reads it, or `None` when it cannot open the archive or the entry.
pub uninterp spec fn zip_entry_name_of(bytes: Seq<u8>, i: nat) -> Option<Seq<char>>;

/// The uncompressed contents of entry `i` of the archive held in `bytes` as
/// the `zip` crate reads them, or `None` when it cannot.
pub uninterp spec fn zip_entry_data_of(bytes: Seq<u8>, i: nat) -> Option<Seq<u8>>;

/// Opens the archive held in `bytes` and counts its entries.
///
/// Trusted: calls `zip::ZipArchive::new` on an in-memory reader and
/// `ZipArchive::len`. Whether it succeeds and the count depend on the bytes
/// alone; the contract gives them the name `zip_entry_count_of`. Nothing is
/// claimed of the error value.
#[verifier::external_body]
fn zip_entry_count(bytes: &[u8]) -> (r: Result<usize, zip::result::ZipError>)
    ensures
        match r {
            Ok(n) => zip_entry_count_of(bytes@) == Some(n as nat),
            Err(_) => zip_entry_count_of(bytes@) is None,
        },
{
    match zip::ZipArchive::new(std::io::Cursor::new(bytes)) {
        Ok(archive) => Ok(archive.len()),
        Err(e) => Err(e),
    }
}

/// Reads the name of entry `i` of the archive held in `bytes`.
///
/// Trusted: calls `zip::ZipArchive::new` on an in-memory reader,
/// `ZipArchive::by_index` and `ZipFile::name`. Whether it succeeds and the
/// name depend on the bytes and the index alone; the contract gives them the
/// name `zip_entry_name_of`. Nothing is claimed of the error value.
#[verifier::external_body]
fn zip_entry_name(bytes: &[u8], i: usize) -> (r: Result<String, zip::result::ZipError>)
    ensures
        match r {
            Ok(name) => zip_entry_name_of(bytes@, i as nat) == Some(name@),
            Err(_) => zip_entry_name_of(bytes@, i as nat) is None,
        },
{
    let mut archive = match zip::ZipArchive::new(std::io::Cursor::new(bytes)) {
        Ok(a) => a,
        Err(e) => return Err(e),
    };
    let name = match archive.by_index(i) {
        Ok(entry) => entry.name().to_string(),
        Err(e) => return Err(e),
    };
    Ok(name)
}

/// Reads the contents of entry `i` of the archive held in `bytes`.
///
/// Trusted: calls `zip::ZipArchive::new` on an in-memory reader,
/// `ZipArchive::by_index` and reads the entry to its end
/// (`Read::read_to_end`). Whether it succeeds and the contents depend on the
/// bytes and the index alone; the contract gives them the name
/// `zip_entry_data_of`. Nothing is claimed of the error value.
#[verifier::external_body]
fn zip_entry_data(bytes: &[u8], i: usize) -> (r: Result<Vec<u8>, EntryError>)
    ensures
        match r {
            Ok(data) => zip_entry_data_of(bytes@, i as nat) == Some(data@),
            Err(_) => zip_entry_data_of(bytes@, i as nat) is None,
        },
{
    let mut archive = match zip::ZipArchive::new(std::io::Cursor::new(bytes)) {
        Ok(a) => a,
        Err(e) => return Err(EntryError::Archive(e)),
    };
    let mut entry = match archive.by_index(i) {
        Ok(e) => e,
        Err(e) => return Err(EntryError::Archive(e)),
    };
    let mut data: Vec<u8> = Vec::new();
    match std::io::Read::read_to_end(&mut entry, &mut data) {
        Ok(_) => Ok(data),
        Err(e) => Err(EntryError::Read(e)),
    }
}

/// The message of an archive error: the text its `Display` writes.
fn archive_error_message(e: zip::result::ZipError) -> (r: String)
    ensures
        to_string_from_display_ensures::<zip::result::ZipError>(&e, r),
{
    e.to_string()
}

/// The message of an entry that could not be read: the text that the
/// `Display` of the archive or read error writes.
fn entry_error_message(e: EntryError) -> (r: String)
    ensures
        match e {
            EntryError::Archive(z) => to_string_from_display_ensures::<zip::result::ZipError>(&z, r),
            EntryError::Read(io) => to_string_from_display_ensures::<std::io::Error>(&io, r),
        },
{
    match e {
        EntryError::Archive(z) => z.to_string(),
        EntryError::Read(io) => io.to_string(),
    }
}

/// What entry `i` of the archive held in `bytes` unpacks to: `Some(None)`
/// when its name is read and it is neither an executable nor a library (its
/// contents are not read), `Some(Some((name, contents)))` for an executable
/// or a library, and `None` when its name, or the contents it needs, cannot
/// be read.
pub open spec fn unpacks_entry(bytes: Seq<u8>, i: nat) -> Option<Option<(Seq<char>, Seq<u8>)>> {
    match zip_entry_name_of(bytes, i) {
        None => None,
        Some(name) => match extracted_name_spec(name) {
            None => Some(None),
            Some(f) => match zip_entry_data_of(bytes, i) {
                None => None,
                Some(data) => Some(Some((f, data))),
            },
        },
    }
}

/// The files unpacked from the first `k` entries of the archive held in
/// `bytes`, in archive order, or `None` when one of them fails to unpack.
pub open spec fn unpacked_from(bytes: Seq<u8>, k: nat) -> Option<Seq<(Seq<char>, Seq<u8>)>>
    decreases k,
{
    if k == 0 {
        Some(Seq::empty())
    } else {
        match unpacked_from(bytes, (k - 1) as nat) {
            None => None,
            Some(prev) => match unpacks_entry(bytes, (k - 1) as nat) {
                None => None,
                Some(None) => Some(prev),
                Some(Some(file)) => Some(prev.push(file)),
            },
        }
    }
}

/// The files the whole archive held in `bytes` unpacks to, or `None` when
/// it cannot be opened or unpacking it fails.
pub open spec fn unpacked_archive(bytes: Seq<u8>) -> Option<Seq<(Seq<char>, Seq<u8>)>> {
    match zip_entry_count_of(bytes) {
        None => None,
        Some(n) => unpacked_from(bytes, n),
    }
}

/// Once unpacking the first `k` entries fails, so does unpacking the first
/// `n >= k`.
proof fn lemma_unpacking_fails(bytes: Seq<u8>, k: nat, n: nat)
    requires
        k <= n,
        unpacked_from(bytes, k) is None,
    ensures
        unpacked_from(bytes, n) is None,
    decreases n - k,
{
    if k < n {
        lemma_unpacking_fails(bytes, k, (n - 1) as nat);
    }
}

/// Every unpacked file is an executable or a library named without any
/// directory part.
pub proof fn law_unpacked_names(bytes: Seq<u8>, k: nat)
    ensures
        unpacked_from(bytes, k) matches Some(u) ==> forall|j: int|
            0 <= j < u.len() ==> {
                let f = (#[trigger] u[j]).0;
                &&& !f.contains('/')
                &&& !f.contains('\\')
                &&& ends_with(f, ".exe"@) || ends_with(f, ".dll"@)
            },
    decreases k,
{
    if k > 0 {
        law_unpacked_names(bytes, (k - 1) as nat);
        if let Some(name) = zip_entry_name_of(bytes, (k - 1) as nat) {
            lemma_file_part_plain(name);
        }
        if let Some(u) = unpacked_from(bytes, k) {
            let prev = unpacked_from(bytes, (k - 1) as nat)->0;
            assert forall|j: int| 0 <= j < u.len() implies {
                let f = (#[trigger] u[j]).0;
                &&& !f.contains('/')
                &&& !f.contains('\\')
                &&& ends_with(f, ".exe"@) || ends_with(f, ".dll"@)
            } by {
                if j < prev.len() {
                    assert(u[j] == prev[j]);
                }
            }
        }
    }
}

/// A file to write when unpacking an archive.
#[derive(Debug, Clone)]
pub struct ExtractedFile {
    pub path: String,
    pub contents: Vec<u8>,
}

/// `files` are the unpacked `(name, contents)` pairs written into `dest`.
pub open spec fn written_to(files: Seq<ExtractedFile>, unpacked: Seq<(Seq<char>, Seq<u8>)>, dest: Seq<char>) -> bool {
    &&& files.len() == unpacked.len()
    &&& forall|j: int|
        0 <= j < files.len() ==> {
            &&& (#[trigger] files[j]).contents@ == unpacked[j].1
            &&& is_relative_part(unpacked[j].0) && plain_base(dest) ==> joins(dest, unpacked[j].0, files[j].path@)
        }
}

/// Where an archive entry is unpacked in `dest_dir`: its file name (the part
/// after the last separator) under the directory when it names an
/// executable or a library, and nowhere otherwise.
pub fn entry_target(entry_name: &str, dest_dir: &str) -> (r: Option<String>)
    ensures
        match extracted_name_spec(entry_name@) {
            None => r is None,
            Some(f) => r matches Some(p) && (is_relative_part(f) && plain_base(dest_dir@) ==> joins(
                dest_dir@,
                f,
                p@,
            )),
        },
{
    match extracted_file_name(entry_name) {
        Some(f) => Some(join_path(dest_dir, f.as_str())),
        None => None,
    }
}

/// The number of entries of the archive held in `bytes`; fails with the
/// reader's message when it cannot be opened.
pub fn zip_entries(bytes: &[u8]) -> (r: Result<usize, String>)
    ensures
        match zip_entry_count_of(bytes@) {
            None => r is Err,
            Some(n) => r matches Ok(m) && m == n,
        },
{
    match zip_entry_count(bytes) {
        Ok(n) => Ok(n),
        Err(e) => Err(archive_error_message(e)),
    }
}

/// Unpacks entry `i` of the archive held in `bytes` into `dest_dir`: the
/// file to write for an executable or a library, nothing for another entry
/// (whose contents are not read), or the reader's message when the entry's
/// name, or the contents it needs, cannot be read.
pub fn extract_entry(bytes: &[u8], i: usize, dest_dir: &str) -> (r: Result<Option<ExtractedFile>, String>)
    ensures
        match unpacks_entry(bytes@, i as nat) {
            None => r is Err,
            Some(None) => r matches Ok(None),
            Some(Some((f, d))) => r matches Ok(Some(file)) && file.contents@ == d && (is_relative_part(f)
                && plain_base(dest_dir@) ==> joins(dest_dir@, f, file.path@)),
        },
{
    let name = match zip_entry_name(bytes, i) {
        Ok(name) => name,
        Err(e) => return Err(archive_error_message(e)),
    };
    match entry_target(name.as_str(), dest_dir) {
        None => Ok(None),
        Some(path) => match zip_entry_data(bytes, i) {
            Ok(contents) => Ok(Some(ExtractedFile { path, contents })),
            Err(e) => Err(entry_error_message(e)),
        },
    }
}

/// Unpacks the recogniser's release archive: every executable and library
/// in it, flattened into `dest_dir`; the contents of other entries are not
/// read. Fails with the reader's message when the archive cannot be opened,
/// an entry's name cannot be read, or the contents of an executable or
/// library cannot be read.
pub fn extract_whisper_zip(bytes: &[u8], dest_dir: &str) -> (r: Result<Vec<ExtractedFile>, String>)
    ensures
        match unpacked_archive(bytes@) {
            None => r is Err,
            Some(u) => r matches Ok(files) && written_to(files@, u, dest_dir@),
        },
{
    let n = match zip_entries(bytes) {
        Ok(n) => n,
        Err(e) => return Err(e),
    };
    let mut out: Vec<ExtractedFile> = Vec::new();
    let ghost mut unpacked: Seq<(Seq<char>, Seq<u8>)> = Seq::empty();
    let mut i: usize = 0;
    while i < n
        invariant
            i <= n,
            zip_entry_count_of(bytes@) == Some(n as nat),
            unpacked_from(bytes@, i as nat) == Some(unpacked),
            written_to(out@, unpacked, dest_dir@),
        decreases n - i,
    {
        match extract_entry(bytes, i, dest_dir) {
            Err(e) => {
                proof {
                    lemma_unpacking_fails(bytes@, (i + 1) as nat, n as nat);
                }
                return Err(e);
            },
            Ok(None) => {},
            Ok(Some(file)) => {
                let ghost entry = unpacks_entry(bytes@, i as nat)->0->0;
                out.push(file);
                proof {
                    unpacked = unpacked.push(entry);
                }
            },
        }
        i = i + 1;
    }
    Ok(out)
}

} // verus!
