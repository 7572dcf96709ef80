//! Which uploaded recordings can be transcribed: the type of a file is told from
//! its first bytes, and only common audio and video containers are taken.
use vstd::prelude::*;

use crate::text::{opt_view, same_text};

verus! {

/// The MIME type that `infer` recognises in the first bytes of a file, if any.
pub uninterp spec fn inferred_mime(head: Seq<u8>) -> Option<Seq<char>>;

/// Relies on `infer::get`, then `infer::Type::mime_type`: the MIME type of the
/// file that starts with these bytes, where `infer` recognises one.
#[verifier::external_body]
fn infer_mime_type(head: &[u8]) -> (r: Option<String>)
    ensures
        opt_view(r) == inferred_mime(head@),
{
    infer::get(head).map(|kind| kind.mime_type().to_owned())
}

/// The MIME types of the recordings that can be transcribed.
pub open spec fn allowed_mime_types() -> Seq<&'static str> {
    seq![
        "audio/mpeg",
        "audio/x-wav",
        "audio/m4a",
        "audio/ogg",
        "audio/x-flac",
        "video/mp4",
        "video/webm",
        "video/x-matroska",
        "video/x-msvideo",
        "video/quicktime",
    ]
}

/// Whether recordings of this MIME type can be transcribed.
pub open spec fn is_allowed_mime(mime: Seq<char>) -> bool {
    exists|i: int| 0 <= i < allowed_mime_types().len() && (#[trigger] allowed_mime_types()[i])@ == mime
}

/// Why a file cannot be transcribed.
#[derive(Debug, Clone, PartialEq, Eq)]
pub enum FileTypeError {
    /// The type of the file could not be told from its first bytes.
    Unrecognized,
    /// The file is of a type that is not taken, named by its MIME type.
    Unsupported(String),
}

/// Whether a recording of the MIME type `mime`, if one was recognised, can be
/// transcribed.
pub fn check_mime_type(mime: Option<String>) -> (r: Result<(), FileTypeError>)
    ensures
        match mime {
            None => r == Err::<(), FileTypeError>(FileTypeError::Unrecognized),
            Some(m) => if is_allowed_mime(m@) {
                r is Ok
            } else {
                r matches Err(FileTypeError::Unsupported(n)) && n@ == m@
            },
        },
{
    let m = match mime {
        Some(m) => m,
        None => return Err(FileTypeError::Unrecognized),
    };
    let allowed: [&'static str; 10] = [
        "audio/mpeg",
        "audio/x-wav",
        "audio/m4a",
        "audio/ogg",
        "audio/x-flac",
        "video/mp4",
        "video/webm",
        "video/x-matroska",
        "video/x-msvideo",
        "video/quicktime",
    ];
    assert(allowed@ =~= allowed_mime_types());
    let mut i: usize = 0;
    while i < 10
        invariant
            i <= 10,
            allowed@ == allowed_mime_types(),
            mime == Some(m),
            forall|j: int| 0 <= j < i ==> (#[trigger] allowed_mime_types()[j])@ != m@,
        decreases 10 - i,
    {
        if same_text(m.as_str(), allowed[i]) {
            assert(allowed_mime_types()[i as int]@ == m@);
            return Ok(());
        }
        i = i + 1;
    }
    Err(FileTypeError::Unsupported(m))
}

/// Whether the file that starts with `head` can be transcribed, told from those
/// bytes alone.
pub fn validate_file_type(head: &[u8]) -> (r: Result<(), FileTypeError>)
    ensures
        match inferred_mime(head@) {
            None => r == Err::<(), FileTypeError>(FileTypeError::Unrecognized),
            Some(m) => if is_allowed_mime(m) {
                r is Ok
            } else {
                r matches Err(FileTypeError::Unsupported(n)) && n@ == m
            },
        },
{
    check_mime_type(infer_mime_type(head))
}

} // verus!
