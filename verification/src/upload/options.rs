//! The optional parameters of an upload, each rendered as one form-field
//! key and value.

use vstd::prelude::*;

use crate::text::{
    bool_str, dec_str, join_by, join_kv, join_strings, json_string, json_string_token, kv_text,
    lemma_join_by_step,
};
use crate::transformation::{join_transformations, transformation_segment, Transformations};
use super::access_mode::{access_modes_token, AccessModes};
use super::allowed_headers::{allowed_headers_token, AllowedHeaders};
use super::background_removal::{background_removal_token, BackgroundRemoval};
use super::categorizations::{categorizations_token, Categorizations};
use super::delivery_type::{delivery_type_token, DeliveryType};
use super::moderation::{moderation_token, Moderation};
use super::raw_convert::{raw_convert_token, RawConvert};
use super::resource_type::{resource_types_token, ResourceTypes};
use super::responsive_breakpoints::{breakpoints_list, breakpoints_list_token, ResponsiveBreakpoints};

verus! {

/// One optional upload parameter. Each case renders as one key and value of
/// the multipart form. List- and map-valued cases carry their entries in the
/// order they will be rendered; decimal scores are carried as their decimal
/// literals.
pub enum OptionalParameters {
    /// The identifier used for accessing and delivering the uploaded asset.
    PublicId(String),
    /// A path automatically prepended to the public id with a slash.
    PublicIdPrefix(String),
    /// A user-friendly name for the asset.
    DisplayName(String),
    /// The folder where the asset is placed within the repository.
    AssetFolder(String),
    /// Whether to add the asset-folder value as a prefix to the public id.
    UseAssetFolderAsPublicIdPrefix(bool),
    /// The legacy fixed folder: both the storage folder and a public-id
    /// prefix.
    Folder(String),
    /// Whether to use the original file name as the public id.
    UseFileName(bool),
    /// Whether to use the original file name as the display name.
    UseFilenameAsDisplayName(bool),
    /// Whether to append random characters to the file name for uniqueness.
    UniqueFilename(bool),
    /// Overrides the stored original-filename metadata header.
    FilenameOverride(String),
    /// The type of file being uploaded, or automatic detection.
    ResourceType(ResourceTypes),
    /// The delivery type: public upload, private, or authenticated.
    Type(DeliveryType),
    /// Access types restricting the asset.
    AccessControl(String),
    /// Whether the asset behaves as public or as authenticated.
    AccessMode(AccessModes),
    /// Whether to discard the name of the original uploaded file.
    DiscardOriginalFilename(bool),
    /// Whether to overwrite an existing asset with the same public id.
    Overwrite(bool),
    /// Tag names to assign, rendered comma-separated in the given order.
    Tags(Vec<String>),
    /// Contextual metadata pairs, rendered pipe-separated in the given order.
    Context(Vec<(String, String)>),
    /// Structured metadata pairs, rendered pipe-separated in the given order.
    Metadata(Vec<(String, String)>),
    /// Whether invalidated cascading metadata values are cleared rather than
    /// rejected.
    ClearInvalid(bool),
    /// Whether to retrieve predominant colors and a color histogram.
    Colors(bool),
    /// Whether to return the coordinates of detected faces.
    Faces(bool),
    /// Whether to return a quality-analysis score.
    QualityAnalysis(bool),
    /// Whether to return accessibility-analysis values.
    AccessibilityAnalysis(bool),
    /// Whether to return a cinemagraph-analysis value.
    CinemagraphAnalysis(bool),
    /// Whether to return IPTC, XMP and detailed Exif metadata.
    MediaMetadata(bool),
    /// Whether to return the perceptual hash of the uploaded image.
    Phash(bool),
    /// Requests for automatically found responsive breakpoints.
    ResponsiveBreakpoints(Vec<ResponsiveBreakpoints>),
    /// The confidence threshold for automatic tagging, between 0 and 1,
    /// given as its decimal literal (e.g. "0.4").
    AutoTagging(String),
    /// The categorization add-ons to run on the asset.
    Categorization(Categorizations),
    /// The content-detection add-on to invoke.
    Detection(String),
    /// Whether to trigger automatic generation of video chapters.
    AutoChaptering(bool),
    /// Whether to trigger automatic video transcription.
    AutoTranscription(bool),
    /// Extracts all text elements in an image with the OCR add-on.
    Ocr,
    /// Whether to index the image for visual searches.
    VisualSearch(bool),
    /// Transformations to create eagerly, rendered pipe-separated.
    Eager(Vec<Transformations>),
    /// Whether eager transformations are generated asynchronously.
    EagerAsync(bool),
    /// A webhook URL notified when eager generation completes.
    EagerNotificationUrl(String),
    /// An incoming transformation run before saving, segments joined with
    /// slashes.
    Transformation(Vec<Transformations>),
    /// A format to convert the uploaded asset to before saving.
    Format(String),
    /// A region for later custom-gravity cropping: the top-left corner and
    /// the width and height.
    CustomCoordinates([u16; 4]),
    /// Named regions for later region-gravity cropping, each a name and its
    /// coordinate pairs, rendered as a JSON object in the given order.
    Regions(Vec<(String, Vec<[u16; 2]>)>),
    /// Face coordinates overriding automatic detection, one quadruple per
    /// face, pipe-separated.
    FaceCoordinates(Vec<[u16; 4]>),
    /// The file formats allowed for this upload, comma-separated.
    AllowedFormats(Vec<String>),
    /// Whether to perform the upload in the background.
    Async(bool),
    /// Whether to back up the uploaded asset.
    Backup(bool),
    /// A URL to redirect to after the upload completes.
    Callback(String),
    /// JavaScript evaluated to modify upload parameters.
    Eval(String),
    /// JavaScript executed after a successful upload.
    OnSuccess(String),
    /// Response header lines to add when delivering the asset, one per line.
    Headers(Vec<AllowedHeaders>),
    /// Whether to invalidate cached CDN copies of the asset.
    Invalidate(bool),
    /// The moderations to apply, pipe-separated in the given order; the list
    /// stands for a set keyed by moderation kind.
    Moderation(Vec<Moderation>),
    /// A webhook URL notified when the upload completes.
    NotificationUrl(String),
    /// A proxy through which remote URLs are fetched.
    Proxy(String),
    /// Whether to return a deletion token in the upload response.
    ReturnDeleteToken(bool),
    /// The background-removal add-on to apply.
    BackgroundRemoval(BackgroundRemoval),
    /// The raw-conversion add-on to apply.
    RawConvert(RawConvert),
}

/// A coordinate quadruple, comma-separated.
pub open spec fn coords4_text(c: Seq<u16>) -> Seq<char>
    recommends
        c.len() == 4,
{
    dec_str(c[0] as nat) + ","@ + dec_str(c[1] as nat) + ","@ + dec_str(c[2] as nat) + ","@
        + dec_str(c[3] as nat)
}

/// A coordinate pair as a JSON array.
pub open spec fn point_json(p: Seq<u16>) -> Seq<char>
    recommends
        p.len() == 2,
{
    "["@ + dec_str(p[0] as nat) + ","@ + dec_str(p[1] as nat) + "]"@
}

/// A region's coordinate pairs as a JSON array of arrays.
pub open spec fn region_points_json(ps: Seq<[u16; 2]>) -> Seq<char> {
    "["@ + join_by(ps.map(|i, p: [u16; 2]| point_json(p@)), ","@) + "]"@
}

/// One named region as a JSON member.
pub open spec fn region_entry_json(e: (String, Vec<[u16; 2]>)) -> Seq<char> {
    json_string(e.0@) + ":"@ + region_points_json(e.1@)
}

/// The named regions as a JSON object, in the given order.
pub open spec fn regions_json(rs: Seq<(String, Vec<[u16; 2]>)>) -> Seq<char> {
    "{"@ + join_by(rs.map(|i, e: (String, Vec<[u16; 2]>)| region_entry_json(e)), ","@) + "}"@
}

/// The form-field key and value of an optional parameter.
pub open spec fn pair_spec(p: OptionalParameters) -> (Seq<char>, Seq<char>) {
    match p {
        OptionalParameters::PublicId(s) => ("public_id"@, s@),
        OptionalParameters::PublicIdPrefix(s) => ("public_id_prefix"@, s@),
        OptionalParameters::DisplayName(s) => ("display_name"@, s@),
        OptionalParameters::AssetFolder(s) => ("asset_folder"@, s@),
        OptionalParameters::UseAssetFolderAsPublicIdPrefix(b) => (
            "use_asset_folder_as_public_id_prefix"@,
            bool_str(b),
        ),
        OptionalParameters::Folder(s) => ("folder"@, s@),
        OptionalParameters::UseFileName(b) => ("use_filename"@, bool_str(b)),
        OptionalParameters::UseFilenameAsDisplayName(b) => (
            "use_filename_as_display_name"@,
            bool_str(b),
        ),
        OptionalParameters::UniqueFilename(b) => ("unique_filename"@, bool_str(b)),
        OptionalParameters::FilenameOverride(s) => ("filename_override"@, s@),
        OptionalParameters::ResourceType(t) => ("resource_type"@, resource_types_token(t)),
        OptionalParameters::Type(t) => ("type"@, delivery_type_token(t)),
        OptionalParameters::AccessControl(s) => ("access_control"@, s@),
        OptionalParameters::AccessMode(m) => ("access_mode"@, access_modes_token(m)),
        OptionalParameters::DiscardOriginalFilename(b) => (
            "discard_original_filename"@,
            bool_str(b),
        ),
        OptionalParameters::Overwrite(b) => ("overwrite"@, bool_str(b)),
        OptionalParameters::Tags(tags) => ("tags"@, join_by(tags@.map(|i, t: String| t@), ","@)),
        OptionalParameters::Context(ctx) => (
            "context"@,
            join_by(ctx@.map(|i, kv: (String, String)| kv_text(kv)), "|"@),
        ),
        OptionalParameters::Metadata(md) => (
            "metadata"@,
            join_by(md@.map(|i, kv: (String, String)| kv_text(kv)), "|"@),
        ),
        OptionalParameters::ClearInvalid(b) => ("clear_invalid"@, bool_str(b)),
        OptionalParameters::Colors(b) => ("colors"@, bool_str(b)),
        OptionalParameters::Faces(b) => ("faces"@, bool_str(b)),
        OptionalParameters::QualityAnalysis(b) => ("quality_analysis"@, bool_str(b)),
        OptionalParameters::AccessibilityAnalysis(b) => ("accessibility_analysis"@, bool_str(b)),
        OptionalParameters::CinemagraphAnalysis(b) => ("cinemagraph_analysis"@, bool_str(b)),
        OptionalParameters::MediaMetadata(b) => ("media_metadata"@, bool_str(b)),
        OptionalParameters::Phash(b) => ("phash"@, bool_str(b)),
        OptionalParameters::ResponsiveBreakpoints(v) => (
            "responsive_breakpoints"@,
            breakpoints_list(v@),
        ),
        OptionalParameters::AutoTagging(s) => ("auto_tagging"@, s@),
        OptionalParameters::Categorization(c) => ("categorization"@, categorizations_token(c)),
        OptionalParameters::Detection(s) => ("detection"@, s@),
        OptionalParameters::AutoChaptering(b) => ("auto_chaptering"@, bool_str(b)),
        OptionalParameters::AutoTranscription(b) => ("auto_transcription"@, bool_str(b)),
        OptionalParameters::Ocr => ("ocr"@, "adv_ocr"@),
        OptionalParameters::VisualSearch(b) => ("visual_search"@, bool_str(b)),
        OptionalParameters::Eager(v) => (
            "eager"@,
            join_by(v@.map(|i, t: Transformations| transformation_segment(t)), "|"@),
        ),
        OptionalParameters::EagerAsync(b) => ("eager_async"@, bool_str(b)),
        OptionalParameters::EagerNotificationUrl(s) => ("eager_notification_url"@, s@),
        OptionalParameters::Transformation(v) => (
            "transformation"@,
            join_by(v@.map(|i, t: Transformations| transformation_segment(t)), "/"@),
        ),
        OptionalParameters::Format(s) => ("format"@, s@),
        OptionalParameters::CustomCoordinates(c) => ("custom_coordinates"@, coords4_text(c@)),
        OptionalParameters::Regions(rs) => ("regions"@, regions_json(rs@)),
        OptionalParameters::FaceCoordinates(v) => (
            "face_coordinates"@,
            join_by(v@.map(|i, c: [u16; 4]| coords4_text(c@)), "|"@),
        ),
        OptionalParameters::AllowedFormats(v) => (
            "allowed_formats"@,
            join_by(v@.map(|i, s: String| s@), ","@),
        ),
        OptionalParameters::Async(b) => ("async"@, bool_str(b)),
        OptionalParameters::Backup(b) => ("backup"@, bool_str(b)),
        OptionalParameters::Callback(s) => ("callback"@, s@),
        OptionalParameters::Eval(s) => ("eval"@, s@),
        OptionalParameters::OnSuccess(s) => ("on_success"@, s@),
        OptionalParameters::Headers(v) => (
            "headers"@,
            join_by(v@.map(|i, h: AllowedHeaders| allowed_headers_token(h)), "\n"@),
        ),
        OptionalParameters::Invalidate(b) => ("invalidate"@, bool_str(b)),
        OptionalParameters::Moderation(v) => (
            "moderation"@,
            join_by(v@.map(|i, m: Moderation| moderation_token(m)), "|"@),
        ),
        OptionalParameters::NotificationUrl(s) => ("notification_url"@, s@),
        OptionalParameters::Proxy(s) => ("proxy"@, s@),
        OptionalParameters::ReturnDeleteToken(b) => ("return_delete_token"@, bool_str(b)),
        OptionalParameters::BackgroundRemoval(b) => (
            "background_removal"@,
            background_removal_token(b),
        ),
        OptionalParameters::RawConvert(r) => ("raw_convert"@, raw_convert_token(r)),
    }
}

/// Renders a coordinate quadruple, comma-separated.
fn coords4_token(c: &[u16; 4]) -> (r: String)
    ensures
        r@ == coords4_text(c@),
{
    let mut out = crate::text::u64_str(c[0] as u64);
    out.append(",");
    out.append(crate::text::u64_str(c[1] as u64).as_str());
    out.append(",");
    out.append(crate::text::u64_str(c[2] as u64).as_str());
    out.append(",");
    out.append(crate::text::u64_str(c[3] as u64).as_str());
    proof {
        assert(out@ =~= coords4_text(c@));
    }
    out
}

/// Joins face-coordinate quadruples with pipes.
fn join_face_coordinates(v: &Vec<[u16; 4]>) -> (r: String)
    ensures
        r@ == join_by(v@.map(|i, c: [u16; 4]| coords4_text(c@)), "|"@),
{
    let ghost model = v@.map(|i, c: [u16; 4]| coords4_text(c@));
    let mut out = String::new();
    let mut i: usize = 0;
    while i < v.len()
        invariant
            0 <= i <= v.len(),
            model == v@.map(|i, c: [u16; 4]| coords4_text(c@)),
            out@ == join_by(model.take(i as int), "|"@),
        decreases v.len() - i,
    {
        proof {
            lemma_join_by_step(model, "|"@, i as int);
        }
        if i > 0 {
            out.append("|");
        }
        out.append(coords4_token(&v[i]).as_str());
        i = i + 1;
    }
    proof {
        assert(model.take(v@.len() as int) =~= model);
    }
    out
}

/// Joins header lines with newlines.
fn join_headers(v: &Vec<AllowedHeaders>) -> (r: String)
    ensures
        r@ == join_by(v@.map(|i, h: AllowedHeaders| allowed_headers_token(h)), "\n"@),
{
    let ghost model = v@.map(|i, h: AllowedHeaders| allowed_headers_token(h));
    let mut out = String::new();
    let mut i: usize = 0;
    while i < v.len()
        invariant
            0 <= i <= v.len(),
            model == v@.map(|i, h: AllowedHeaders| allowed_headers_token(h)),
            out@ == join_by(model.take(i as int), "\n"@),
        decreases v.len() - i,
    {
        proof {
            lemma_join_by_step(model, "\n"@, i as int);
        }
        if i > 0 {
            out.append("\n");
        }
        out.append(v[i].to_token().as_str());
        i = i + 1;
    }
    proof {
        assert(model.take(v@.len() as int) =~= model);
    }
    out
}

/// Joins moderation tokens with pipes.
fn join_moderations(v: &Vec<Moderation>) -> (r: String)
    ensures
        r@ == join_by(v@.map(|i, m: Moderation| moderation_token(m)), "|"@),
{
    let ghost model = v@.map(|i, m: Moderation| moderation_token(m));
    let mut out = String::new();
    let mut i: usize = 0;
    while i < v.len()
        invariant
            0 <= i <= v.len(),
            model == v@.map(|i, m: Moderation| moderation_token(m)),
            out@ == join_by(model.take(i as int), "|"@),
        decreases v.len() - i,
    {
        proof {
            lemma_join_by_step(model, "|"@, i as int);
        }
        if i > 0 {
            out.append("|");
        }
        out.append(v[i].to_token().as_str());
        i = i + 1;
    }
    proof {
        assert(model.take(v@.len() as int) =~= model);
    }
    out
}

/// Renders a region's coordinate pairs as a JSON array of arrays.
fn region_points_token(ps: &Vec<[u16; 2]>) -> (r: String)
    ensures
        r@ == region_points_json(ps@),
{
    let ghost model = ps@.map(|i, p: [u16; 2]| point_json(p@));
    let mut out = String::from_str("[");
    let mut i: usize = 0;
    while i < ps.len()
        invariant
            0 <= i <= ps.len(),
            model == ps@.map(|i, p: [u16; 2]| point_json(p@)),
            out@ == "["@ + join_by(model.take(i as int), ","@),
        decreases ps.len() - i,
    {
        proof {
            lemma_join_by_step(model, ","@, i as int);
        }
        if i > 0 {
            out.append(",");
        }
        out.append("[");
        out.append(crate::text::u64_str(ps[i][0] as u64).as_str());
        out.append(",");
        out.append(crate::text::u64_str(ps[i][1] as u64).as_str());
        out.append("]");
        proof {
            assert(out@ =~= "["@ + join_by(model.take(i as int + 1), ","@));
        }
        i = i + 1;
    }
    proof {
        assert(model.take(ps@.len() as int) =~= model);
    }
    out.append("]");
    proof {
        assert(out@ =~= region_points_json(ps@));
    }
    out
}

/// Renders the named regions as a JSON object.
fn regions_token(rs: &Vec<(String, Vec<[u16; 2]>)>) -> (r: String)
    ensures
        r@ == regions_json(rs@),
{
    let ghost model = rs@.map(|i, e: (String, Vec<[u16; 2]>)| region_entry_json(e));
    let mut out = String::from_str("{");
    let mut i: usize = 0;
    while i < rs.len()
        invariant
            0 <= i <= rs.len(),
            model == rs@.map(|i, e: (String, Vec<[u16; 2]>)| region_entry_json(e)),
            out@ == "{"@ + join_by(model.take(i as int), ","@),
        decreases rs.len() - i,
    {
        proof {
            lemma_join_by_step(model, ","@, i as int);
        }
        if i > 0 {
            out.append(",");
        }
        out.append(json_string_token(rs[i].0.as_str()).as_str());
        out.append(":");
        out.append(region_points_token(&rs[i].1).as_str());
        proof {
            assert(out@ =~= "{"@ + join_by(model.take(i as int + 1), ","@));
        }
        i = i + 1;
    }
    proof {
        assert(model.take(rs@.len() as int) =~= model);
    }
    out.append("}");
    proof {
        assert(out@ =~= regions_json(rs@));
    }
    out
}

impl OptionalParameters {
    /// The form-field key and value of this parameter.
    pub fn get_pair(&self) -> (r: (String, String))
        ensures
            (r.0@, r.1@) == pair_spec(*self),
    {
        match self {
            OptionalParameters::PublicId(s) => (String::from_str("public_id"), s.clone()),
            OptionalParameters::PublicIdPrefix(s) => (
                String::from_str("public_id_prefix"),
                s.clone(),
            ),
            OptionalParameters::DisplayName(s) => (String::from_str("display_name"), s.clone()),
            OptionalParameters::AssetFolder(s) => (String::from_str("asset_folder"), s.clone()),
            OptionalParameters::UseAssetFolderAsPublicIdPrefix(b) => (
                String::from_str("use_asset_folder_as_public_id_prefix"),
                crate::text::bool_token(*b),
            ),
            OptionalParameters::Folder(s) => (String::from_str("folder"), s.clone()),
            OptionalParameters::UseFileName(b) => (
                String::from_str("use_filename"),
                crate::text::bool_token(*b),
            ),
            OptionalParameters::UseFilenameAsDisplayName(b) => (
                String::from_str("use_filename_as_display_name"),
                crate::text::bool_token(*b),
            ),
            OptionalParameters::UniqueFilename(b) => (
                String::from_str("unique_filename"),
                crate::text::bool_token(*b),
            ),
            OptionalParameters::FilenameOverride(s) => (
                String::from_str("filename_override"),
                s.clone(),
            ),
            OptionalParameters::ResourceType(t) => (
                String::from_str("resource_type"),
                t.to_token(),
            ),
            OptionalParameters::Type(t) => (String::from_str("type"), t.to_token()),
            OptionalParameters::AccessControl(s) => (
                String::from_str("access_control"),
                s.clone(),
            ),
            OptionalParameters::AccessMode(m) => (String::from_str("access_mode"), m.to_token()),
            OptionalParameters::DiscardOriginalFilename(b) => (
                String::from_str("discard_original_filename"),
                crate::text::bool_token(*b),
            ),
            OptionalParameters::Overwrite(b) => (
                String::from_str("overwrite"),
                crate::text::bool_token(*b),
            ),
            OptionalParameters::Tags(tags) => (
                String::from_str("tags"),
                join_strings(tags, ","),
            ),
            OptionalParameters::Context(ctx) => (String::from_str("context"), join_kv(ctx, "|")),
            OptionalParameters::Metadata(md) => (String::from_str("metadata"), join_kv(md, "|")),
            OptionalParameters::ClearInvalid(b) => (
                String::from_str("clear_invalid"),
                crate::text::bool_token(*b),
            ),
            OptionalParameters::Colors(b) => (
                String::from_str("colors"),
                crate::text::bool_token(*b),
            ),
            OptionalParameters::Faces(b) => (
                String::from_str("faces"),
                crate::text::bool_token(*b),
            ),
            OptionalParameters::QualityAnalysis(b) => (
                String::from_str("quality_analysis"),
                crate::text::bool_token(*b),
            ),
            OptionalParameters::AccessibilityAnalysis(b) => (
                String::from_str("accessibility_analysis"),
                crate::text::bool_token(*b),
            ),
            OptionalParameters::CinemagraphAnalysis(b) => (
                String::from_str("cinemagraph_analysis"),
                crate::text::bool_token(*b),
            ),
            OptionalParameters::MediaMetadata(b) => (
                String::from_str("media_metadata"),
                crate::text::bool_token(*b),
            ),
            OptionalParameters::Phash(b) => (
                String::from_str("phash"),
                crate::text::bool_token(*b),
            ),
            OptionalParameters::ResponsiveBreakpoints(v) => (
                String::from_str("responsive_breakpoints"),
                breakpoints_list_token(v),
            ),
            OptionalParameters::AutoTagging(s) => (String::from_str("auto_tagging"), s.clone()),
            OptionalParameters::Categorization(c) => (
                String::from_str("categorization"),
                c.to_token(),
            ),
            OptionalParameters::Detection(s) => (String::from_str("detection"), s.clone()),
            OptionalParameters::AutoChaptering(b) => (
                String::from_str("auto_chaptering"),
                crate::text::bool_token(*b),
            ),
            OptionalParameters::AutoTranscription(b) => (
                String::from_str("auto_transcription"),
                crate::text::bool_token(*b),
            ),
            OptionalParameters::Ocr => (String::from_str("ocr"), String::from_str("adv_ocr")),
            OptionalParameters::VisualSearch(b) => (
                String::from_str("visual_search"),
                crate::text::bool_token(*b),
            ),
            OptionalParameters::Eager(v) => (
                String::from_str("eager"),
                join_transformations(v, "|"),
            ),
            OptionalParameters::EagerAsync(b) => (
                String::from_str("eager_async"),
                crate::text::bool_token(*b),
            ),
            OptionalParameters::EagerNotificationUrl(s) => (
                String::from_str("eager_notification_url"),
                s.clone(),
            ),
            OptionalParameters::Transformation(v) => (
                String::from_str("transformation"),
                join_transformations(v, "/"),
            ),
            OptionalParameters::Format(s) => (String::from_str("format"), s.clone()),
            OptionalParameters::CustomCoordinates(c) => (
                String::from_str("custom_coordinates"),
                coords4_token(c),
            ),
            OptionalParameters::Regions(rs) => (String::from_str("regions"), regions_token(rs)),
            OptionalParameters::FaceCoordinates(v) => (
                String::from_str("face_coordinates"),
                join_face_coordinates(v),
            ),
            OptionalParameters::AllowedFormats(v) => (
                String::from_str("allowed_formats"),
                join_strings(v, ","),
            ),
            OptionalParameters::Async(b) => (
                String::from_str("async"),
                crate::text::bool_token(*b),
            ),
            OptionalParameters::Backup(b) => (
                String::from_str("backup"),
                crate::text::bool_token(*b),
            ),
            OptionalParameters::Callback(s) => (String::from_str("callback"), s.clone()),
            OptionalParameters::Eval(s) => (String::from_str("eval"), s.clone()),
            OptionalParameters::OnSuccess(s) => (String::from_str("on_success"), s.clone()),
            OptionalParameters::Headers(v) => (String::from_str("headers"), join_headers(v)),
            OptionalParameters::Invalidate(b) => (
                String::from_str("invalidate"),
                crate::text::bool_token(*b),
            ),
            OptionalParameters::Moderation(v) => (
                String::from_str("moderation"),
                join_moderations(v),
            ),
            OptionalParameters::NotificationUrl(s) => (
                String::from_str("notification_url"),
                s.clone(),
            ),
            OptionalParameters::Proxy(s) => (String::from_str("proxy"), s.clone()),
            OptionalParameters::ReturnDeleteToken(b) => (
                String::from_str("return_delete_token"),
                crate::text::bool_token(*b),
            ),
            OptionalParameters::BackgroundRemoval(b) => (
                String::from_str("background_removal"),
                b.to_token(),
            ),
            OptionalParameters::RawConvert(r) => (String::from_str("raw_convert"), r.to_token()),
        }
    }
}

} // verus!
