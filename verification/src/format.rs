//! The image formats a capture can be delivered in, and their MIME names.

use vstd::prelude::*;

verus! {

/// The encodings the external codec can produce for a captured buffer.
#[derive(Clone, Copy, Debug, PartialEq, Eq, Structural)]
pub enum OutputFormat {
    Png,
    Jpg,
    Jpeg,
    Gif,
    Bmp,
}

/// The MIME name under which a format is offered on the clipboard.
pub open spec fn spec_mime_type(format: OutputFormat) -> Seq<char> {
    match format {
        OutputFormat::Png => "image/png"@,
        OutputFormat::Jpg => "image/jpeg"@,
        OutputFormat::Jpeg => "image/jpeg"@,
        OutputFormat::Gif => "image/gif"@,
        OutputFormat::Bmp => "image/bmp"@,
    }
}

impl OutputFormat {
    /// The MIME type a clipboard consumer knows this format by.
    pub fn to_mime_type(self) -> (r: &'static str)
        ensures
            r@ == spec_mime_type(self),
    {
        match self {
            OutputFormat::Png => "image/png",
            OutputFormat::Jpg => "image/jpeg",
            OutputFormat::Jpeg => "image/jpeg",
            OutputFormat::Gif => "image/gif",
            OutputFormat::Bmp => "image/bmp",
        }
    }
}

} // verus!
