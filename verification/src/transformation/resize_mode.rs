//! Resize transformations: scaling without cropping out any part of the
//! original image.

use vstd::prelude::*;

use crate::text::dec_str;
use crate::transformation::aspect_ratio::{aspect_ratio_prefix, AspectRatio};

verus! {

/// A resize transformation.
#[derive(Debug, Clone)]
pub enum ResizeMode {
    /// Resizes the image to the specified width and aspect ratio.
    ScaleByWidth {
        width: u32,
        /// Aspect ratio; if not specified the original aspect ratio is
        /// preserved.
        ar: Option<AspectRatio>,
        /// Enables content-aware liquid rescaling (seam carving); presence,
        /// not value, toggles the fixed trailing token.
        liquid: Option<()>,
    },
    /// Resizes the image to the specified height and aspect ratio.
    ScaleByHeight {
        height: u32,
        /// Aspect ratio; if not specified the original aspect ratio is
        /// preserved.
        ar: Option<AspectRatio>,
        /// Enables content-aware liquid rescaling (seam carving); presence,
        /// not value, toggles the fixed trailing token.
        liquid: Option<()>,
    },
    /// Resizes the image to the specified dimensions without retaining the
    /// original aspect ratio.
    Scale {
        width: u32,
        height: u32,
        /// Enables content-aware liquid rescaling (seam carving); presence,
        /// not value, toggles the fixed trailing token.
        liquid: Option<()>,
    },
}

/// The optional liquid-rescale suffix: the fixed trailing token when the
/// flag is present, empty otherwise.
pub open spec fn liquid_suffix(liquid: Option<()>) -> Seq<char> {
    match liquid {
        Some(_) => ",g_liquid"@,
        None => Seq::empty(),
    }
}

/// The canonical path segment of a resize transformation: the optional
/// aspect-ratio prefix, the core scale directive with its dimension(s), and
/// the optional liquid-rescale suffix.
pub open spec fn resize_mode_segment(m: ResizeMode) -> Seq<char> {
    match m {
        ResizeMode::ScaleByWidth { width, ar, liquid } => aspect_ratio_prefix(ar) + "c_scale,w_"@
            + dec_str(width as nat) + liquid_suffix(liquid),
        ResizeMode::ScaleByHeight { height, ar, liquid } => aspect_ratio_prefix(ar) + "c_scale,h_"@
            + dec_str(height as nat) + liquid_suffix(liquid),
        ResizeMode::Scale { width, height, liquid } => "c_scale,w_"@ + dec_str(width as nat)
            + ",h_"@ + dec_str(height as nat) + liquid_suffix(liquid),
    }
}

impl ResizeMode {
    /// The canonical path segment of this transformation.
    pub fn to_segment(&self) -> (r: String)
        ensures
            r@ == resize_mode_segment(*self),
    {
        match self {
            ResizeMode::ScaleByWidth { width, ar, liquid } => {
                let mut s = String::new();
                if let Some(a) = ar {
                    s.append(a.to_token().as_str());
                    s.append(",");
                }
                s.append("c_scale,w_");
                s.append(crate::text::u64_str(*width as u64).as_str());
                if liquid.is_some() {
                    s.append(",g_liquid");
                }
                proof {
                    assert(s@ =~= resize_mode_segment(*self));
                }
                s
            },
            ResizeMode::ScaleByHeight { height, ar, liquid } => {
                let mut s = String::new();
                if let Some(a) = ar {
                    s.append(a.to_token().as_str());
                    s.append(",");
                }
                s.append("c_scale,h_");
                s.append(crate::text::u64_str(*height as u64).as_str());
                if liquid.is_some() {
                    s.append(",g_liquid");
                }
                proof {
                    assert(s@ =~= resize_mode_segment(*self));
                }
                s
            },
            ResizeMode::Scale { width, height, liquid } => {
                let mut s = String::from_str("c_scale,w_");
                s.append(crate::text::u64_str(*width as u64).as_str());
                s.append(",h_");
                s.append(crate::text::u64_str(*height as u64).as_str());
                if liquid.is_some() {
                    s.append(",g_liquid");
                }
                proof {
                    assert(s@ =~= resize_mode_segment(*self));
                }
                s
            },
        }
    }
}

} // verus!
