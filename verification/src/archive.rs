//! Pack archives, opened by `zip`.
use std::io::Read;
use vstd::prelude::*;

verus! {

/// `zip::result::ZipError`, the error of opening or reading an archive. Opaque,
/// and only passed on.
#[verifier::external_type_specification]
#[verifier::external_body]
pub struct ExZipError(zip::result::ZipError);

/// What `zip` finds in an archive under a name: the text of that entry, or `None`
/// where the bytes are no archive it can read, the archive has no such entry, or
/// the entry cannot be unpacked into text.
pub uninterp spec fn archive_entry(archive: Seq<u8>, name: Seq<char>) -> Option<Seq<char>>;

/// `ZipArchive::new` over the bytes, `ZipArchive::by_name`, and the entry's
/// `read_to_string`: the text of the entry called `name`, or the first error that
/// one of the three reports. The contract names the outcome [`archive_entry`].
#[verifier::external_body]
pub(crate) fn read_entry(archive: &[u8], name: &str) -> (r: Result<String, zip::result::ZipError>)
    ensures
        match r {
            Ok(text) => archive_entry(archive@, name@) == Some(text@),
            Err(_) => archive_entry(archive@, name@) is None,
        },
{
    let mut zip = zip::ZipArchive::new(std::io::Cursor::new(archive))?;
    let mut entry = zip.by_name(name)?;
    let mut text = String::new();
    entry.read_to_string(&mut text)?;
    Ok(text)
}

} // verus!
