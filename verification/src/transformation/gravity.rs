//! The gravity qualifier: which part of an asset to focus on when cropping
//! or padding. Gravity is write-only: the URL parser never reconstructs it.

use vstd::prelude::*;

verus! {

/// A qualifier that determines which part of an asset to focus on, and thus
/// which part of the asset to keep, when any part of the asset is cropped.
#[derive(Debug, Clone)]
pub enum Gravity {
    /// The top-right corner.
    NorthEast,
    /// The top-center.
    North,
    /// The top-left corner.
    NorthWest,
    /// The left-center.
    West,
    /// The bottom-left corner.
    SouthWest,
    /// The bottom-center.
    South,
    /// The bottom-right corner.
    SouthEast,
    /// The right-center.
    East,
    /// The center of the asset.
    Center,
    /// All detected eyes, via the advanced facial-attribute detection add-on.
    AdvEyes,
    /// The largest detected face, via the advanced facial-attribute detection
    /// add-on.
    AdvFace,
    /// All detected faces, via the advanced facial-attribute detection add-on.
    AdvFaces,
    /// Custom coordinates that were previously specified; defaults to center
    /// gravity if none were.
    Custom,
    /// Custom coordinates, defaulting to face gravity if none were specified.
    CustomFace,
    /// Custom coordinates, defaulting to AdvFace gravity if none were
    /// specified.
    CustomAdvFace,
    /// Custom coordinates, defaulting to AdvFaces gravity if none were
    /// specified.
    CustomAdvFaces,
    /// Custom coordinates, defaulting to Faces gravity if none were specified.
    CustomFaces,
    /// The largest detected face, defaulting to North gravity if no face is
    /// detected or previously specified.
    Face,
    /// Same as Face, but defaults to Center gravity if no face is detected.
    FaceCenter,
    /// Same as Face, but defaults to automatic gravity if no face is detected.
    FaceAuto,
    /// The rectangle containing all detected faces, defaulting to North
    /// gravity if none are detected.
    Faces,
    /// Same as Faces, but defaults to Center gravity if no face is detected.
    FacesCenter,
    /// Same as Faces, but defaults to automatic gravity if no face is
    /// detected.
    FacesAuto,
    /// All detected text elements, via the OCR text detection add-on.
    OcrText,
    /// The subjects most likely to attract a person's gaze, chosen by
    /// deep-learning heuristics.
    AutoSubject,
    /// Significant regions detected by a combination of saliency heuristics.
    AutoClassic,
}

/// The canonical token of a gravity qualifier, including its "g_" prefix.
/// Compound directives render as single colon-joined tokens.
pub open spec fn gravity_token(g: Gravity) -> Seq<char> {
    match g {
        Gravity::NorthEast => "g_north_east"@,
        Gravity::North => "g_north"@,
        Gravity::NorthWest => "g_north_west"@,
        Gravity::West => "g_west"@,
        Gravity::SouthWest => "g_south_west"@,
        Gravity::South => "g_south"@,
        Gravity::SouthEast => "g_south_east"@,
        Gravity::East => "g_east"@,
        Gravity::Center => "g_center"@,
        Gravity::AdvEyes => "g_adv_eyes"@,
        Gravity::AdvFace => "g_adv_face"@,
        Gravity::AdvFaces => "g_adv_faces"@,
        Gravity::Custom => "g_custom"@,
        Gravity::CustomFace => "g_custom:face"@,
        Gravity::CustomAdvFace => "g_custom:adv_face"@,
        Gravity::CustomAdvFaces => "g_custom:adv_faces"@,
        Gravity::CustomFaces => "g_custom:faces"@,
        Gravity::Face => "g_face"@,
        Gravity::FaceCenter => "g_face:center"@,
        Gravity::FaceAuto => "g_face:auto"@,
        Gravity::Faces => "g_faces"@,
        Gravity::FacesCenter => "g_faces:center"@,
        Gravity::FacesAuto => "g_faces:auto"@,
        Gravity::OcrText => "g_ocr_text"@,
        Gravity::AutoSubject => "g_auto:subject"@,
        Gravity::AutoClassic => "g_auto:classic"@,
    }
}

/// The optional trailing gravity qualifier of a segment: a comma followed by
/// the token when present, empty otherwise.
pub open spec fn gravity_infix(g: Option<Gravity>) -> Seq<char> {
    match g {
        Some(gr) => ","@ + gravity_token(gr),
        None => Seq::empty(),
    }
}

impl Gravity {
    /// The canonical token of this qualifier, including its "g_" prefix.
    pub fn to_token(&self) -> (r: String)
        ensures
            r@ == gravity_token(*self),
    {
        match self {
            Gravity::NorthEast => String::from_str("g_north_east"),
            Gravity::North => String::from_str("g_north"),
            Gravity::NorthWest => String::from_str("g_north_west"),
            Gravity::West => String::from_str("g_west"),
            Gravity::SouthWest => String::from_str("g_south_west"),
            Gravity::South => String::from_str("g_south"),
            Gravity::SouthEast => String::from_str("g_south_east"),
            Gravity::East => String::from_str("g_east"),
            Gravity::Center => String::from_str("g_center"),
            Gravity::AdvEyes => String::from_str("g_adv_eyes"),
            Gravity::AdvFace => String::from_str("g_adv_face"),
            Gravity::AdvFaces => String::from_str("g_adv_faces"),
            Gravity::Custom => String::from_str("g_custom"),
            Gravity::CustomFace => String::from_str("g_custom:face"),
            Gravity::CustomAdvFace => String::from_str("g_custom:adv_face"),
            Gravity::CustomAdvFaces => String::from_str("g_custom:adv_faces"),
            Gravity::CustomFaces => String::from_str("g_custom:faces"),
            Gravity::Face => String::from_str("g_face"),
            Gravity::FaceCenter => String::from_str("g_face:center"),
            Gravity::FaceAuto => String::from_str("g_face:auto"),
            Gravity::Faces => String::from_str("g_faces"),
            Gravity::FacesCenter => String::from_str("g_faces:center"),
            Gravity::FacesAuto => String::from_str("g_faces:auto"),
            Gravity::OcrText => String::from_str("g_ocr_text"),
            Gravity::AutoSubject => String::from_str("g_auto:subject"),
            Gravity::AutoClassic => String::from_str("g_auto:classic"),
        }
    }
}

} // verus!
