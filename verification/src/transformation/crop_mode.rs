//! Crop transformations: filling exact dimensions, cropping whatever
//! exceeds the requested size after scaling.

use vstd::prelude::*;

use crate::text::dec_str;
use crate::transformation::aspect_ratio::{aspect_ratio_prefix, AspectRatio};
use crate::transformation::gravity::{gravity_infix, Gravity};

verus! {

/// A crop transformation. Each form first scales as much as needed to fill
/// the specified dimensions; if the requested aspect ratio differs from the
/// original, cropping occurs on the dimension that exceeds the requested
/// size, keeping the part selected by the gravity (center by default).
#[derive(Debug, Clone)]
pub enum CropMode {
    /// An asset with the exact specified width, at the given aspect ratio.
    FillByWidth { width: u32, ar: Option<AspectRatio>, gravity: Option<Gravity> },
    /// Same as FillByWidth, but the height is the fixed dimension.
    FillByHeight { height: u32, ar: Option<AspectRatio>, gravity: Option<Gravity> },
    /// An asset with the exact specified width and height.
    Fill { width: u32, height: u32, gravity: Option<Gravity> },
}

/// The canonical path segment of a crop transformation: the optional
/// aspect-ratio prefix, the core fill directive, the optional gravity, and
/// the dimension(s).
pub open spec fn crop_mode_segment(m: CropMode) -> Seq<char> {
    match m {
        CropMode::FillByWidth { width, ar, gravity } => aspect_ratio_prefix(ar) + "c_fill"@
            + gravity_infix(gravity) + ",w_"@ + dec_str(width as nat),
        CropMode::FillByHeight { height, ar, gravity } => aspect_ratio_prefix(ar) + "c_fill"@
            + gravity_infix(gravity) + ",h_"@ + dec_str(height as nat),
        CropMode::Fill { width, height, gravity } => "c_fill"@ + gravity_infix(gravity) + ",w_"@
            + dec_str(width as nat) + ",h_"@ + dec_str(height as nat),
    }
}

impl CropMode {
    /// The canonical path segment of this transformation.
    pub fn to_segment(&self) -> (r: String)
        ensures
            r@ == crop_mode_segment(*self),
    {
        match self {
            CropMode::FillByWidth { width, ar, gravity } => {
                let mut s = String::new();
                if let Some(a) = ar {
                    s.append(a.to_token().as_str());
                    s.append(",");
                }
                s.append("c_fill");
                if let Some(g) = gravity {
                    s.append(",");
                    s.append(g.to_token().as_str());
                }
                s.append(",w_");
                s.append(crate::text::u64_str(*width as u64).as_str());
                proof {
                    assert(s@ =~= crop_mode_segment(*self));
                }
                s
            },
            CropMode::FillByHeight { height, ar, gravity } => {
                let mut s = String::new();
                if let Some(a) = ar {
                    s.append(a.to_token().as_str());
                    s.append(",");
                }
                s.append("c_fill");
                if let Some(g) = gravity {
                    s.append(",");
                    s.append(g.to_token().as_str());
                }
                s.append(",h_");
                s.append(crate::text::u64_str(*height as u64).as_str());
                proof {
                    assert(s@ =~= crop_mode_segment(*self));
                }
                s
            },
            CropMode::Fill { width, height, gravity } => {
                let mut s = String::from_str("c_fill");
                if let Some(g) = gravity {
                    s.append(",");
                    s.append(g.to_token().as_str());
                }
                s.append(",w_");
                s.append(crate::text::u64_str(*width as u64).as_str());
                s.append(",h_");
                s.append(crate::text::u64_str(*height as u64).as_str());
                proof {
                    assert(s@ =~= crop_mode_segment(*self));
                }
                s
            },
        }
    }
}

} // verus!
