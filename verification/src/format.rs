//! Format registry: maps the host engine's numeric resource-class codes to
//! internal format tags and canonical filename extensions.

use vstd::prelude::*;

verus! {

/// The resource classes the engine may request.
#[derive(Clone, Copy, Debug, PartialEq, Eq, Structural)]
pub enum FileFormat {
    TFM,
    Pict,
    Tex,
    Format,
}

/// The fixed, finite mapping from the engine's numeric class codes to
/// format tags; every unmapped code yields `None`.
pub open spec fn spec_classify(code: int) -> Option<FileFormat> {
    if code == 3 {
        Some(FileFormat::TFM)
    } else if code == 10 {
        Some(FileFormat::Format)
    } else if code == 25 {
        Some(FileFormat::Pict)
    } else if code == 26 {
        Some(FileFormat::Tex)
    } else {
        None
    }
}

/// Classify an externally supplied numeric resource-class code.
/// Unmapped codes are not an error: the caller simply skips resolution
/// for that class.
pub fn c_format_to_rust(format: libc::c_int) -> (r: Option<FileFormat>)
    ensures
        r == spec_classify(format as int),
{
    match format {
        3 => Some(FileFormat::TFM),
        10 => Some(FileFormat::Format),
        25 => Some(FileFormat::Pict),
        26 => Some(FileFormat::Tex),
        _ => None,
    }
}

/// The canonical filename extension of each format tag.
pub open spec fn spec_extension(format: FileFormat) -> Seq<char> {
    match format {
        FileFormat::TFM => ".tfm"@,
        FileFormat::Pict => ".pdf"@,
        FileFormat::Tex => ".tex"@,
        FileFormat::Format => ".fmt"@,
    }
}

/// Return the canonical extension for a format tag; pure and total.
pub fn format_to_extension(format: FileFormat) -> (r: &'static str)
    ensures
        r@ == spec_extension(format),
{
    match format {
        FileFormat::TFM => ".tfm",
        FileFormat::Pict => ".pdf",
        FileFormat::Tex => ".tex",
        FileFormat::Format => ".fmt",
    }
}

} // verus!
