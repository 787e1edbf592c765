//! The moderation add-ons requested for an upload.

use vstd::prelude::*;

verus! {

/// One requested moderation. Two moderations count as the same kind when
/// their directive names match; the duplicate-detection threshold does not
/// distinguish kinds.
#[derive(Debug, Clone)]
pub enum Moderation {
    /// Adds the uploaded asset to a list of pending assets moderated by hand.
    Manual,
    /// Malware detection, for all asset types.
    PerceptionPoint,
    /// Image moderation, for images only.
    Webpurify,
    /// AI moderation, for images only.
    AwsRek,
    /// Duplicate detection at a similarity threshold between 0 and 1, given
    /// as its decimal literal (e.g. "0.8"); 0 only adds the image to the
    /// search index.
    Duplicate(String),
    /// Video moderation, for videos only.
    AwsRekVideo,
    /// AI video moderation, for videos only.
    GoogleVideoModeration,
}

/// The canonical token of a moderation request.
pub open spec fn moderation_token(m: Moderation) -> Seq<char> {
    match m {
        Moderation::Manual => "manual"@,
        Moderation::PerceptionPoint => "perception_point"@,
        Moderation::Webpurify => "webpurify"@,
        Moderation::AwsRek => "aws_rek"@,
        Moderation::Duplicate(threshold) => "duplicate:"@ + threshold@,
        Moderation::AwsRekVideo => "aws_rek_video"@,
        Moderation::GoogleVideoModeration => "google_video_moderation"@,
    }
}

/// Whether two moderations are of the same kind, thresholds aside.
pub open spec fn same_moderation_kind(a: Moderation, b: Moderation) -> bool {
    match (a, b) {
        (Moderation::Manual, Moderation::Manual) => true,
        (Moderation::PerceptionPoint, Moderation::PerceptionPoint) => true,
        (Moderation::Webpurify, Moderation::Webpurify) => true,
        (Moderation::AwsRek, Moderation::AwsRek) => true,
        (Moderation::Duplicate(_), Moderation::Duplicate(_)) => true,
        (Moderation::AwsRekVideo, Moderation::AwsRekVideo) => true,
        (Moderation::GoogleVideoModeration, Moderation::GoogleVideoModeration) => true,
        _ => false,
    }
}

impl Moderation {
    /// The canonical token of this moderation request.
    pub fn to_token(&self) -> (r: String)
        ensures
            r@ == moderation_token(*self),
    {
        match self {
            Moderation::Manual => String::from_str("manual"),
            Moderation::PerceptionPoint => String::from_str("perception_point"),
            Moderation::Webpurify => String::from_str("webpurify"),
            Moderation::AwsRek => String::from_str("aws_rek"),
            Moderation::Duplicate(threshold) => {
                let mut t = String::from_str("duplicate:");
                t.append(threshold.as_str());
                t
            },
            Moderation::AwsRekVideo => String::from_str("aws_rek_video"),
            Moderation::GoogleVideoModeration => String::from_str("google_video_moderation"),
        }
    }
}

impl PartialEq for Moderation {
    /// Two moderations are equal when they are of the same kind; the
    /// duplicate-detection threshold is not compared.
    fn eq(&self, other: &Self) -> (r: bool) {
        match (self, other) {
            (Moderation::Manual, Moderation::Manual) => true,
            (Moderation::PerceptionPoint, Moderation::PerceptionPoint) => true,
            (Moderation::Webpurify, Moderation::Webpurify) => true,
            (Moderation::AwsRek, Moderation::AwsRek) => true,
            (Moderation::Duplicate(_), Moderation::Duplicate(_)) => true,
            (Moderation::AwsRekVideo, Moderation::AwsRekVideo) => true,
            (Moderation::GoogleVideoModeration, Moderation::GoogleVideoModeration) => true,
            _ => false,
        }
    }
}

impl vstd::std_specs::cmp::PartialEqSpecImpl for Moderation {
    open spec fn obeys_eq_spec() -> bool {
        true
    }

    open spec fn eq_spec(&self, other: &Self) -> bool {
        same_moderation_kind(*self, *other)
    }
}

impl Eq for Moderation {

}

} // verus!
