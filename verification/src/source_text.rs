//! Resolving and decoding a record's source text.
//!
//! Resolution of file-backed data is delegated to an external collaborator
//! and may fail; decoding requires the resolved bytes to be valid UTF-8.
//! Both failures are surfaced as distinct error kinds.

use vstd::prelude::*;
use vstd::utf8::{decode_utf8, valid_utf8};

use crate::resource::SourceData;
use crate::values::{AttrV, AttrValue, ValueError};

verus! {

/// Relies on `simple_file_manifest::FileData::resolve_content`: reads the
/// named file and returns its bytes, or the I/O error. The result depends
/// on what is on disk, so nothing is promised of it.
#[verifier::external_body]
fn resolve_external_file(path: &String) -> (r: Result<Vec<u8>, String>)
{
    simple_file_manifest::FileData::Path(std::path::PathBuf::from(path))
        .resolve_content()
        .map_err(|e| e.to_string())
}

/// Relies on `String::from_utf8`: succeeds exactly when the bytes are
/// valid UTF-8, and then returns the text they decode to.
#[verifier::external_body]
fn string_from_utf8(bytes: Vec<u8>) -> (r: Option<String>)
    ensures
        r is Some <==> valid_utf8(bytes@),
        r matches Some(s) ==> s@ == decode_utf8(bytes@),
{
    String::from_utf8(bytes).ok()
}

/// What resolving and decoding source data may yield. For in-memory data
/// the outcome is a function of the bytes: their decoded text, or a
/// text-decoding error exactly when they are not valid UTF-8. For
/// file-backed data the outcome depends on what is on disk: any returned
/// value is the decoded text of some valid byte sequence, and any error
/// is a resolution or a text-decoding error.
pub open spec fn source_read_describes(src: SourceData, r: Result<AttrValue, ValueError>) -> bool {
    match src {
        SourceData::Memory(b) => {
            if valid_utf8(b@) {
                r matches Ok(v) && v@ == AttrV::Str(decode_utf8(b@))
            } else {
                r matches Err(e) && e is TextDecodingError
            }
        },
        SourceData::ExternalFile(_) => {
            match r {
                Ok(v) => exists|b: Seq<u8>| valid_utf8(b) && v@ == AttrV::Str(decode_utf8(b)),
                Err(e) => e is SourceResolutionError || e is TextDecodingError,
            }
        },
    }
}

/// Resolve source data to its text, decoding the bytes as UTF-8.
pub fn resolve_source_text(src: &SourceData) -> (r: Result<AttrValue, ValueError>)
    ensures
        source_read_describes(*src, r),
{
    let bytes: Vec<u8> = match src {
        SourceData::Memory(b) => b.clone(),
        SourceData::ExternalFile(p) => {
            match resolve_external_file(p) {
                Ok(b) => b,
                Err(message) => {
                    return Err(ValueError::SourceResolutionError { message });
                },
            }
        },
    };
    match string_from_utf8(bytes) {
        Some(s) => Ok(AttrValue::Str(s)),
        None => Err(ValueError::TextDecodingError),
    }
}

} // verus!
