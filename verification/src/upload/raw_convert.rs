//! The raw-conversion add-ons that derive a related file from an upload.

use vstd::prelude::*;

verus! {

/// Which add-on generates a related file based on the uploaded file.
#[derive(Debug, Clone, PartialEq, Eq, Structural)]
pub enum RawConvert {
    /// Creates a PDF or image from a raw Office document.
    Aspose,
    /// Generates an automatic transcript raw file from an uploaded video.
    GoogleSpeech,
    /// Extracts all the text from a PDF file into a raw JSON file.
    ExtractText,
}

/// The canonical token of a raw-conversion selection.
pub open spec fn raw_convert_token(r: RawConvert) -> Seq<char> {
    match r {
        RawConvert::Aspose => "aspose"@,
        RawConvert::GoogleSpeech => "google_speech"@,
        RawConvert::ExtractText => "extract_text"@,
    }
}

impl RawConvert {
    /// The canonical token of this selection.
    pub fn to_token(&self) -> (r: String)
        ensures
            r@ == raw_convert_token(*self),
    {
        match self {
            RawConvert::Aspose => String::from_str("aspose"),
            RawConvert::GoogleSpeech => String::from_str("google_speech"),
            RawConvert::ExtractText => String::from_str("extract_text"),
        }
    }
}

} // verus!
