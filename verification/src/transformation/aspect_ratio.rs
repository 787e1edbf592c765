//! The aspect-ratio qualifier of a transformation.

use vstd::prelude::*;

use crate::text::dec_str;

verus! {

/// An aspect-ratio qualifier.
#[derive(Debug, Clone)]
pub enum AspectRatio {
    /// Ignore the aspect ratio of the input and stretch to exactly the given
    /// width or height values.
    Ignore,
    /// The usual way to represent aspect ratio is by using a colon, e.g. 4:3.
    Sides(u32, u32),
    /// A decimal value representing the width divided by the height, given as
    /// its decimal literal (e.g. "0.5").
    Result(String),
}

/// The canonical token of an aspect-ratio qualifier.
pub open spec fn aspect_ratio_token(a: AspectRatio) -> Seq<char> {
    match a {
        AspectRatio::Ignore => "fl_ignore_aspect_ratio"@,
        AspectRatio::Sides(w, h) => "ar_"@ + dec_str(w as nat) + ":"@ + dec_str(h as nat),
        AspectRatio::Result(r) => "ar_"@ + r@,
    }
}

/// The optional aspect-ratio prefix of a segment: the token followed by a
/// comma when present, empty otherwise.
pub open spec fn aspect_ratio_prefix(ar: Option<AspectRatio>) -> Seq<char> {
    match ar {
        Some(a) => aspect_ratio_token(a) + ","@,
        None => Seq::empty(),
    }
}

impl AspectRatio {
    /// The canonical token of this qualifier.
    pub fn to_token(&self) -> (r: String)
        ensures
            r@ == aspect_ratio_token(*self),
    {
        match self {
            AspectRatio::Ignore => String::from_str("fl_ignore_aspect_ratio"),
            AspectRatio::Sides(w, h) => {
                let mut s = String::from_str("ar_");
                s.append(crate::text::u64_str(*w as u64).as_str());
                s.append(":");
                s.append(crate::text::u64_str(*h as u64).as_str());
                proof {
                    assert(s@ =~= aspect_ratio_token(*self));
                }
                s
            },
            AspectRatio::Result(r) => {
                let mut s = String::from_str("ar_");
                s.append(r.as_str());
                proof {
                    assert(s@ =~= aspect_ratio_token(*self));
                }
                s
            },
        }
    }
}

} // verus!
