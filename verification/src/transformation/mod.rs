//! The transformation URL model: typed image transformations, their
//! canonical path-segment rendering, the delivery-URL builder, and the
//! best-effort parser that decomposes an existing delivery URL.

pub mod aspect_ratio;
pub mod background;
pub mod crop_mode;
pub mod gravity;
pub mod laws;
pub mod named_color;
pub mod pad_mode;
pub mod parse;
pub mod resize_mode;

use vstd::prelude::*;

use crate::text::{join_by, last_index_of, lemma_join_by_step, lemma_last_index_of};
use self::crop_mode::{crop_mode_segment, CropMode};
use self::pad_mode::{pad_mode_segment, PadMode};
use self::resize_mode::{resize_mode_segment, ResizeMode};

verus! {

/// One image transformation, rendered as one path segment of the delivery
/// URL.
#[non_exhaustive]
#[derive(Debug, Clone)]
pub enum Transformations {
    /// Adjusts the size of the delivered image without cropping out any
    /// elements of the original image.
    Resize(ResizeMode),
    Crop(CropMode),
    Pad(PadMode),
}

/// The canonical path segment of a transformation.
pub open spec fn transformation_segment(t: Transformations) -> Seq<char> {
    match t {
        Transformations::Resize(m) => resize_mode_segment(m),
        Transformations::Crop(m) => crop_mode_segment(m),
        Transformations::Pad(m) => pad_mode_segment(m),
    }
}

impl Transformations {
    /// The canonical path segment of this transformation.
    pub fn to_segment(&self) -> (r: String)
        ensures
            r@ == transformation_segment(*self),
    {
        match self {
            Transformations::Resize(m) => m.to_segment(),
            Transformations::Crop(m) => m.to_segment(),
            Transformations::Pad(m) => m.to_segment(),
        }
    }
}

/// The mathematical content of an [`Image`]: its fields as sequences.
pub struct ImageModel {
    pub cloud_name: Seq<char>,
    pub public_id: Seq<char>,
    pub format: Option<Seq<char>>,
    pub transformations: Seq<Transformations>,
}

/// One addressable asset, together with the ordered transformations to apply
/// on delivery. The asset identifier may contain `/` as a virtual folder
/// separator and literal `.` characters that are not format separators.
#[derive(Debug, Clone)]
pub struct Image {
    /// The account namespace that scopes all asset URLs.
    pub cloud_name: String,
    /// The logical path of the asset, distinct from any file extension.
    pub public_id: String,
    /// The file-extension override applied when the URL is rendered.
    pub format: Option<String>,
    /// The transformations to apply, in render order.
    pub transformations: Vec<Transformations>,
}

impl View for Image {
    type V = ImageModel;

    open spec fn view(&self) -> ImageModel {
        ImageModel {
            cloud_name: self.cloud_name@,
            public_id: self.public_id@,
            format: match self.format {
                Some(f) => Some(f@),
                None => None,
            },
            transformations: self.transformations@,
        }
    }
}

impl ImageModel {
    /// Well-formedness: the namespace and the asset identifier are not empty.
    pub open spec fn wf(self) -> bool {
        self.cloud_name.len() > 0 && self.public_id.len() > 0
    }
}

/// The transformation part of the URL path: every segment in order, each
/// followed by a slash; empty when there are no transformations.
pub open spec fn transformations_prefix(ts: Seq<Transformations>) -> Seq<char> {
    if ts.len() == 0 {
        Seq::empty()
    } else {
        join_by(ts.map(|i, t: Transformations| transformation_segment(t)), "/"@) + "/"@
    }
}

/// The part of a file name before its last dot, or the whole name when it
/// has none.
pub open spec fn file_stem(name: Seq<char>) -> Seq<char> {
    let dot = last_index_of(name, '.');
    if dot >= 0 {
        name.take(dot)
    } else {
        name
    }
}

/// The asset identifier as rendered at the end of the URL: unchanged without
/// a format override; with one, the extension of the final `/`-delimited
/// segment is stripped and the override appended after a dot.
pub open spec fn formatted_public_id(public_id: Seq<char>, format: Option<Seq<char>>) -> Seq<
    char,
> {
    match format {
        None => public_id,
        Some(f) => {
            let cut = last_index_of(public_id, '/');
            public_id.take(cut + 1) + file_stem(public_id.skip(cut + 1)) + "."@ + f
        },
    }
}

/// The full delivery URL of an image: the fixed scheme and host, the
/// namespace, the fixed asset-kind and delivery-mode segments, the
/// transformation segments, and the formatted asset identifier.
pub open spec fn image_url(img: ImageModel) -> Seq<char> {
    crate::delivery_prefix() + img.cloud_name + "/image/upload/"@ + transformations_prefix(
        img.transformations,
    ) + formatted_public_id(img.public_id, img.format)
}

/// Joins the segments of the given transformations with the separator.
pub fn join_transformations(ts: &Vec<Transformations>, sep: &str) -> (r: String)
    ensures
        r@ == join_by(ts@.map(|i, t: Transformations| transformation_segment(t)), sep@),
{
    let ghost model = ts@.map(|i, t: Transformations| transformation_segment(t));
    let mut out = String::new();
    let mut i: usize = 0;
    while i < ts.len()
        invariant
            0 <= i <= ts.len(),
            model == ts@.map(|i, t: Transformations| transformation_segment(t)),
            out@ == join_by(model.take(i as int), sep@),
        decreases ts.len() - i,
    {
        proof {
            lemma_join_by_step(model, sep@, i as int);
        }
        if i > 0 {
            out.append(sep);
        }
        out.append(ts[i].to_segment().as_str());
        i = i + 1;
    }
    proof {
        assert(model.take(ts@.len() as int) =~= model);
    }
    out
}

impl Image {
    /// A new image with no format override and no transformations.
    pub fn new(cloud_name: String, public_id: String) -> (r: Self)
        requires
            cloud_name@.len() > 0,
            public_id@.len() > 0,
        ensures
            r@.cloud_name == cloud_name@,
            r@.public_id == public_id@,
            r@.format is None,
            r@.transformations.len() == 0,
            r@.wf(),
    {
        Image { cloud_name, public_id, format: None, transformations: Vec::new() }
    }

    /// Overrides the file extension used when the URL is rendered; replaces
    /// any earlier override.
    pub fn set_format(&mut self, format: &str)
        ensures
            final(self)@.format == Some(format@),
            final(self)@.cloud_name == old(self)@.cloud_name,
            final(self)@.public_id == old(self)@.public_id,
            final(self)@.transformations == old(self)@.transformations,
    {
        self.format = Some(String::from_str(format));
    }

    /// The current format override, if any.
    pub fn get_format(&self) -> (r: Option<String>)
        ensures
            match r {
                Some(f) => self@.format == Some(f@),
                None => self@.format is None,
            },
    {
        match &self.format {
            Some(f) => Some(f.clone()),
            None => None,
        }
    }

    /// This image with one more transformation appended; insertion order is
    /// render order.
    pub fn add_transformation(self, transformation: Transformations) -> (r: Self)
        ensures
            r@.cloud_name == self@.cloud_name,
            r@.public_id == self@.public_id,
            r@.format == self@.format,
            r@.transformations == self@.transformations.push(transformation),
    {
        let mut r = self;
        r.transformations.push(transformation);
        r
    }

    /// Builds the full delivery URL of this image. The namespace and asset
    /// identifier are emitted verbatim: callers hand them over already
    /// percent-encoded where the URL needs it, which is also the form the
    /// parser returns them in.
    pub fn build(&self) -> (r: String)
        ensures
            r@ == image_url(self@),
    {
        let mut url = String::from_str("https://res.cloudinary.com/");
        url.append(self.cloud_name.as_str());
        url.append("/image/upload/");
        if self.transformations.len() > 0 {
            url.append(join_transformations(&self.transformations, "/").as_str());
            url.append("/");
        }
        match &self.format {
            None => {
                url.append(self.public_id.as_str());
            },
            Some(f) => {
                let pid = self.public_id.as_str();
                let n = pid.unicode_len();
                proof {
                    lemma_last_index_of(pid@, '/');
                }
                let dir_end: usize = match crate::text::rfind_char(pid, '/') {
                    Some(i) => i + 1,
                    None => 0,
                };
                url.append(pid.substring_char(0, dir_end));
                let name = pid.substring_char(dir_end, n);
                proof {
                    assert(name@ =~= pid@.skip(dir_end as int));
                    lemma_last_index_of(name@, '.');
                }
                match crate::text::rfind_char(name, '.') {
                    Some(d) => {
                        url.append(name.substring_char(0, d));
                    },
                    None => {
                        url.append(name);
                    },
                }
                url.append(".");
                url.append(f.as_str());
            },
        }
        proof {
            assert(url@ =~= image_url(self@));
        }
        url
    }
}

} // verus!
