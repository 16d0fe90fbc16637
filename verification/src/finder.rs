//! Archive-backed finder: wraps one in-memory byte source as a decoded
//! archive index and retrieves the decompressed bytes of named entries,
//! with extension fallback.

use vstd::prelude::*;

use crate::format::FileFormat;
use crate::format::format_to_extension;
use crate::format::spec_extension;
use vstd::string::StringExecFns;

verus! {

/// Failures of the archive backing store. `NotArchive` means the byte
/// source could not be decoded as an archive at all (fatal at startup);
/// `Damaged` means an entry that the index lists could not be extracted
/// (fatal for the process, distinct from mere absence).
#[derive(Clone, Copy, Debug, PartialEq, Eq, Structural)]
pub enum BundleError {
    NotArchive,
    Damaged,
}

/// Outcome of one raw extraction attempt, before extension fallback.
#[derive(Clone, Copy, Debug, PartialEq, Eq, Structural)]
enum EntryError {
    Absent,
    Corrupt,
}

/// Declares `std::io::Cursor`, the in-memory byte source the archive is
/// decoded from; opaque here.
#[verifier::external_type_specification]
#[verifier::external_body]
#[verifier::reject_recursive_types(T)]
pub struct ExIoCursor<T>(std::io::Cursor<T>);

/// Declares zip's `ZipArchive`, the decoded random-access archive reader;
/// opaque here, described only through `zip_entries`.
#[verifier::external_type_specification]
#[verifier::external_body]
#[verifier::reject_recursive_types(R)]
pub struct ExZipArchive<R>(zip::ZipArchive<R>);

/// The decoded directory of an open archive: entry names mapped to the
/// decompressed bytes of each entry.
pub uninterp spec fn zip_entries(z: zip::ZipArchive<std::io::Cursor<Vec<u8>>>) -> Map<
    Seq<char>,
    Seq<u8>,
>;

/// What decoding a byte source as an archive yields: the entry directory
/// when the bytes form a valid archive, and nothing otherwise. Decoding is
/// a function of the bytes alone.
pub uninterp spec fn zip_index(bytes: Seq<u8>) -> Option<Map<Seq<char>, Seq<u8>>>;

/// Relies on zip's `ZipArchive::new`: decodes the central directory of the
/// byte source, failing exactly when the bytes are not a valid archive.
#[verifier::external_body]
fn archive_open(source: Vec<u8>) -> (r: Result<
    zip::ZipArchive<std::io::Cursor<Vec<u8>>>,
    BundleError,
>)
    ensures
        match r {
            Ok(z) => zip_index(source@) == Some(zip_entries(z)),
            Err(e) => zip_index(source@) is None && e == BundleError::NotArchive,
        },
{
    match zip::ZipArchive::new(std::io::Cursor::new(source)) {
        Ok(z) => Ok(z),
        Err(_) => Err(BundleError::NotArchive),
    }
}

/// Relies on zip's `ZipArchive::by_name`, which fails with `FileNotFound`
/// exactly when no entry has the given name, and on `Read::read_to_end`
/// over the returned entry reader, which yields the entry's decompressed
/// bytes in full.
#[verifier::external_body]
fn archive_entry(z: &mut zip::ZipArchive<std::io::Cursor<Vec<u8>>>, name: &str) -> (r: Result<
    Vec<u8>,
    EntryError,
>)
    ensures
        zip_entries(*final(z)) == zip_entries(*old(z)),
        match r {
            Ok(bytes) => zip_entries(*old(z)).contains_key(name@) && bytes@ == zip_entries(
                *old(z),
            )[name@],
            Err(EntryError::Absent) => !zip_entries(*old(z)).contains_key(name@),
            Err(EntryError::Corrupt) => zip_entries(*old(z)).contains_key(name@),
        },
{
    let mut entry = match z.by_name(name) {
        Ok(e) => e,
        Err(zip::result::ZipError::FileNotFound) => return Err(EntryError::Absent),
        Err(_) => return Err(EntryError::Corrupt),
    };
    let mut data = Vec::new();
    match std::io::Read::read_to_end(&mut entry, &mut data) {
        Ok(_) => Ok(data),
        Err(_) => Err(EntryError::Corrupt),
    }
}

/// The extension-augmented form of a resource name: the canonical
/// extension of the format, appended.
pub open spec fn spec_augmented(name: Seq<char>, format: FileFormat) -> Seq<char> {
    name + spec_extension(format)
}

/// Append the canonical extension of `format` to `name`.
pub fn augment_name(name: &str, format: FileFormat) -> (r: String)
    ensures
        r@ == spec_augmented(name@, format),
{
    let mut augmented = name.to_owned();
    augmented.append(format_to_extension(format));
    augmented
}

/// What a lookup in an archive with entry directory `e` must answer for a
/// request of `name` under `format`: the bytes of the exactly matching
/// entry, else the bytes of the extension-augmented entry, else a soft
/// "none" exactly when both spellings are absent; a hard `Damaged` answer
/// only over a listed entry that would not extract.
pub open spec fn locate_post(
    e: Map<Seq<char>, Seq<u8>>,
    name: Seq<char>,
    format: FileFormat,
    r: Result<Option<Vec<u8>>, BundleError>,
) -> bool {
    let aug = spec_augmented(name, format);
    match r {
        Ok(found) => match found {
            Some(bytes) => (e.contains_key(name) && bytes@ == e[name]) || (!e.contains_key(name)
                && e.contains_key(aug) && bytes@ == e[aug]),
            None => !e.contains_key(name) && !e.contains_key(aug),
        },
        Err(be) => be == BundleError::Damaged && (e.contains_key(name) || e.contains_key(aug)),
    }
}

/// One opened archive bundle: the decoded index over an in-memory byte
/// source. Owned by the resolver for the rest of the process's life.
pub struct FinderState {
    zip: zip::ZipArchive<std::io::Cursor<Vec<u8>>>,
}

impl FinderState {
    /// The entry directory this finder serves from.
    pub closed spec fn entries(&self) -> Map<Seq<char>, Seq<u8>> {
        zip_entries(self.zip)
    }

    /// Decode a byte source as an archive bundle. Construction fails with
    /// `NotArchive` exactly when the bytes are not a valid archive.
    pub fn new(source: Vec<u8>) -> (r: Result<FinderState, BundleError>)
        ensures
            match r {
                Ok(f) => zip_index(source@) == Some(f.entries()),
                Err(e) => zip_index(source@) is None && e == BundleError::NotArchive,
            },
    {
        match archive_open(source) {
            Ok(z) => Ok(FinderState { zip: z }),
            Err(e) => Err(e),
        }
    }

    /// Retrieve the decompressed bytes of the entry named `name`, falling
    /// back to the name with the format's canonical extension appended.
    /// Genuine absence of both spellings is soft (`Ok(None)`); a listed
    /// entry that cannot be extracted is `Damaged`, an unrecoverable
    /// condition for the caller.
    pub fn locate(&mut self, name: &str, format: FileFormat) -> (r: Result<
        Option<Vec<u8>>,
        BundleError,
    >)
        ensures
            final(self).entries() == old(self).entries(),
            locate_post(old(self).entries(), name@, format, r),
    {
        match archive_entry(&mut self.zip, name) {
            Ok(bytes) => {
                return Ok(Some(bytes));
            },
            Err(EntryError::Corrupt) => {
                return Err(BundleError::Damaged);
            },
            Err(EntryError::Absent) => {},
        }
        let augmented = augment_name(name, format);
        match archive_entry(&mut self.zip, augmented.as_str()) {
            Ok(bytes) => Ok(Some(bytes)),
            Err(EntryError::Corrupt) => Err(BundleError::Damaged),
            Err(EntryError::Absent) => Ok(None),
        }
    }
}

} // verus!
