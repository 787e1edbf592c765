//! Pad transformations: resizing to fill the requested dimensions while
//! keeping all of the original asset visible, padding the rest.

use vstd::prelude::*;

use crate::text::dec_str;
use crate::transformation::aspect_ratio::{aspect_ratio_prefix, AspectRatio};
use crate::transformation::background::{background_prefix, Background};
use crate::transformation::gravity::{gravity_infix, Gravity};

verus! {

/// A pad transformation. Resizes the asset to fill the specified width and
/// height while retaining the original aspect ratio (by default) and with
/// all of the original asset visible; padding is added to reach the required
/// size. The gravity selects where the original asset is placed, and the
/// background colors the padding.
#[derive(Debug, Clone)]
pub enum PadMode {
    PadByWidth {
        width: u32,
        ar: Option<AspectRatio>,
        background: Option<Background>,
        gravity: Option<Gravity>,
    },
    PadByHeight {
        height: u32,
        ar: Option<AspectRatio>,
        background: Option<Background>,
        gravity: Option<Gravity>,
    },
    Pad { width: u32, height: u32, background: Option<Background>, gravity: Option<Gravity> },
}

/// The canonical path segment of a pad transformation. Qualifiers hold a
/// fixed order: the background prefix, then the aspect-ratio prefix, then
/// the core pad directive, then the gravity, then the dimension(s).
pub open spec fn pad_mode_segment(m: PadMode) -> Seq<char> {
    match m {
        PadMode::PadByWidth { width, ar, background, gravity } => background_prefix(background)
            + aspect_ratio_prefix(ar) + "c_pad"@ + gravity_infix(gravity) + ",w_"@ + dec_str(
            width as nat,
        ),
        PadMode::PadByHeight { height, ar, background, gravity } => background_prefix(background)
            + aspect_ratio_prefix(ar) + "c_pad"@ + gravity_infix(gravity) + ",h_"@ + dec_str(
            height as nat,
        ),
        PadMode::Pad { width, height, background, gravity } => background_prefix(background)
            + "c_pad"@ + gravity_infix(gravity) + ",w_"@ + dec_str(width as nat) + ",h_"@
            + dec_str(height as nat),
    }
}

impl PadMode {
    /// The canonical path segment of this transformation.
    #[verifier::rlimit(50)]
    pub fn to_segment(&self) -> (r: String)
        ensures
            r@ == pad_mode_segment(*self),
    {
        match self {
            PadMode::PadByWidth { width, ar, background, gravity } => {
                let mut s = String::new();
                if let Some(b) = background {
                    s.append(b.to_token().as_str());
                    s.append(",");
                }
                if let Some(a) = ar {
                    s.append(a.to_token().as_str());
                    s.append(",");
                }
                s.append("c_pad");
                if let Some(g) = gravity {
                    s.append(",");
                    s.append(g.to_token().as_str());
                }
                s.append(",w_");
                s.append(crate::text::u64_str(*width as u64).as_str());
                proof {
                    assert(s@ =~= pad_mode_segment(*self));
                }
                s
            },
            PadMode::PadByHeight { height, ar, background, gravity } => {
                let mut s = String::new();
                if let Some(b) = background {
                    s.append(b.to_token().as_str());
                    s.append(",");
                }
                if let Some(a) = ar {
                    s.append(a.to_token().as_str());
                    s.append(",");
                }
                s.append("c_pad");
                if let Some(g) = gravity {
                    s.append(",");
                    s.append(g.to_token().as_str());
                }
                s.append(",h_");
                s.append(crate::text::u64_str(*height as u64).as_str());
                proof {
                    assert(s@ =~= pad_mode_segment(*self));
                }
                s
            },
            PadMode::Pad { width, height, background, gravity } => {
                let mut s = String::new();
                if let Some(b) = background {
                    s.append(b.to_token().as_str());
                    s.append(",");
                }
                s.append("c_pad");
                if let Some(g) = gravity {
                    s.append(",");
                    s.append(g.to_token().as_str());
                }
                s.append(",w_");
                s.append(crate::text::u64_str(*width as u64).as_str());
                s.append(",h_");
                s.append(crate::text::u64_str(*height as u64).as_str());
                proof {
                    assert(s@ =~= pad_mode_segment(*self));
                }
                s
            },
        }
    }
}

} // verus!
