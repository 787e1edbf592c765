//! The background-removal add-on selection.

use vstd::prelude::*;

verus! {

/// Which add-on removes the background of an uploaded image.
#[derive(Debug, Clone, PartialEq, Eq, Structural)]
pub enum BackgroundRemoval {
    /// The deep-learning based background removal add-on.
    CloudinaryAi,
    /// The human-powered editing add-on service.
    Pixelz,
}

/// The canonical token of a background-removal selection.
pub open spec fn background_removal_token(b: BackgroundRemoval) -> Seq<char> {
    match b {
        BackgroundRemoval::CloudinaryAi => "cloudinary_ai"@,
        BackgroundRemoval::Pixelz => "pixelz"@,
    }
}

impl BackgroundRemoval {
    /// The canonical token of this selection.
    pub fn to_token(&self) -> (r: String)
        ensures
            r@ == background_removal_token(*self),
    {
        match self {
            BackgroundRemoval::CloudinaryAi => String::from_str("cloudinary_ai"),
            BackgroundRemoval::Pixelz => String::from_str("pixelz"),
        }
    }
}

} // verus!
