//! Reading one classpath archive: the zip access is the one trusted call,
//! and its whole outcome — success or refusal, and the manifest entry's
//! text — is named over the archive's bytes; everything from the manifest
//! text to the recorded (title, version) pair is verified.

use vstd::prelude::*;
use rc_zip_sync::ReadZip;
use crate::errors::{Error, ParseError};
use crate::manifest::{analyze_manifest_text, lookup, manifest_record};
use crate::records::Records;

verus! {

/// What reading the archive for the entry named `META-INF/MANIFEST.MF`
/// yields: that entry's text, nothing when the archive has no such entry,
/// or the reader's refusal — a function of the archive's bytes alone.
pub uninterp spec fn manifest_read_of(archive: Seq<u8>) -> Result<Option<Seq<char>>, Seq<char>>;

/// Relies on rc-zip-sync's `ReadZip` for byte buffers: parses the archive
/// from its bytes, looks the manifest entry up under its exact name, and
/// decodes that entry's bytes. Parsing, lookup and decoding are functions
/// of the bytes alone, so both the outcome's side and the text are named
/// over them. An entry whose recorded header offset lies beyond the buffer
/// is refused here as an error, because the reader would panic slicing at
/// that offset instead of failing.
#[verifier::external_body]
fn read_manifest_text(archive: &Vec<u8>) -> (r: Result<Option<String>, String>)
    ensures
        r is Err <==> manifest_read_of(archive@) is Err,
        r matches Ok(o) ==> match o {
            Some(s) => manifest_read_of(archive@) == Ok::<Option<Seq<char>>, Seq<char>>(
                Some(s@),
            ),
            None => manifest_read_of(archive@) == Ok::<Option<Seq<char>>, Seq<char>>(None),
        },
{
    let handle = match archive.read_zip() {
        Ok(h) => h,
        Err(e) => return Err(format!("{}", e)),
    };
    match handle.by_name("META-INF/MANIFEST.MF") {
        None => Ok(None),
        Some(entry) if entry.header_offset <= archive.len() as u64 => match entry.bytes() {
            Ok(b) => Ok(Some(String::from_utf8_lossy(&b).into_owned())),
            Err(e) => Err(format!("{}", e)),
        },
        Some(entry) => Err(format!("entry offset {} beyond archive end", entry.header_offset)),
    }
}

/// One classpath entry's contribution to the records, successful exactly
/// when the reader accepts the archive's bytes. An archive without a
/// manifest entry, or whose manifest names no product, contributes nothing
/// and raises no error; an archive the reader refuses is a recoverable
/// parse error leaving the records unchanged; a product record takes its
/// place under last-write-wins. The returned flag says whether a record was
/// taken.
pub fn scan_archive(records: &mut Records, archive: &Vec<u8>) -> (r: Result<bool, Error>)
    requires
        old(records).wf(),
    ensures
        final(records).wf(),
        r is Err <==> manifest_read_of(archive@) is Err,
        r matches Err(e) ==> final(records)@ == old(records)@ && e is Parse,
        r matches Ok(found) ==> match manifest_read_of(archive@) {
            Ok(None) => !found && final(records)@ == old(records)@,
            Ok(Some(t)) => match manifest_record(t) {
                None => !found && final(records)@ == old(records)@,
                Some(kv) => found && lookup(final(records)@, kv.0) == Some(kv.1) && (forall|
                    k2: Seq<char>,
                |
                    k2 != kv.0 ==> lookup(final(records)@, k2) == lookup(old(records)@, k2)) && (
                forall|j: int|
                    0 <= j < old(records)@.len() ==> (#[trigger] final(records)@[j]).0 == old(
                        records,
                    )@[j].0),
            },
            Err(_) => false,
        },
{
    match read_manifest_text(archive) {
        Err(m) => Err(Error::Parse(ParseError::Archive(m))),
        Ok(None) => Ok(false),
        Ok(Some(text)) => match analyze_manifest_text(text.as_str()) {
            None => Ok(false),
            Some(kv) => {
                let (title, version) = kv;
                records.insert(title, version);
                Ok(true)
            },
        },
    }
}

} // verus!
