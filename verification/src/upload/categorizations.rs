//! The categorization add-ons that classify an uploaded asset.

use vstd::prelude::*;

verus! {

/// Which categorization add-on runs on the uploaded asset.
#[derive(Debug, Clone, PartialEq, Eq, Structural)]
pub enum Categorizations {
    /// Automatic video tagging.
    Google,
    /// Automatic image tagging.
    GoogleVideo,
    /// Imagga automatic tagging.
    Imagga,
    /// Amazon Rekognition automatic tagging.
    AwsRek,
}

/// The canonical token of a categorization selection.
pub open spec fn categorizations_token(c: Categorizations) -> Seq<char> {
    match c {
        Categorizations::Google => "google_tagging"@,
        Categorizations::GoogleVideo => "google_video_tagging"@,
        Categorizations::Imagga => "imagga_tagging"@,
        Categorizations::AwsRek => "auto_tagging"@,
    }
}

impl Categorizations {
    /// The canonical token of this selection.
    pub fn to_token(&self) -> (r: String)
        ensures
            r@ == categorizations_token(*self),
    {
        match self {
            Categorizations::Google => String::from_str("google_tagging"),
            Categorizations::GoogleVideo => String::from_str("google_video_tagging"),
            Categorizations::Imagga => String::from_str("imagga_tagging"),
            Categorizations::AwsRek => String::from_str("auto_tagging"),
        }
    }
}

} // verus!
