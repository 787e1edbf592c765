//! A request for automatically found responsive breakpoints, and its JSON
//! rendering as the upload API expects it.

use vstd::prelude::*;

use crate::text::{bool_str, dec_str, join_by, json_string, lemma_join_by_step};

verus! {

/// One breakpoint request. Absent fields are left out of the rendered JSON.
#[derive(Debug, Clone)]
pub struct ResponsiveBreakpoints {
    /// Whether to create and keep the derived images of the selected
    /// breakpoints during the call; otherwise they are thrown away.
    pub create_derived: bool,
    /// The file extension of the derived assets.
    pub format: Option<String>,
    /// The base transformation to apply before finding the breakpoints, as a
    /// chained transformation string.
    pub transformation: Option<String>,
    /// The maximum width needed for this image.
    pub max_width: Option<u32>,
    /// The minimum width needed for this image.
    pub min_width: Option<u32>,
    /// The minimum number of bytes between two consecutive breakpoints.
    pub bytes_step: Option<u32>,
    /// The maximum number of breakpoints to find, between 3 and 200.
    pub max_images: Option<u32>,
}

/// The JSON object of a breakpoint request: the fields in declaration order,
/// absent ones skipped.
pub open spec fn breakpoints_json(b: ResponsiveBreakpoints) -> Seq<char> {
    "{\"create_derived\":"@ + bool_str(b.create_derived) + (match b.format {
        Some(f) => ",\"format\":"@ + json_string(f@),
        None => Seq::empty(),
    }) + (match b.transformation {
        Some(t) => ",\"transformation\":"@ + json_string(t@),
        None => Seq::empty(),
    }) + (match b.max_width {
        Some(w) => ",\"max_width\":"@ + dec_str(w as nat),
        None => Seq::empty(),
    }) + (match b.min_width {
        Some(w) => ",\"min_width\":"@ + dec_str(w as nat),
        None => Seq::empty(),
    }) + (match b.bytes_step {
        Some(w) => ",\"bytes_step\":"@ + dec_str(w as nat),
        None => Seq::empty(),
    }) + (match b.max_images {
        Some(w) => ",\"max_images\":"@ + dec_str(w as nat),
        None => Seq::empty(),
    }) + "}"@
}

/// The list form the upload API expects: each request's JSON between single
/// quotes, comma-joined, in brackets.
pub open spec fn breakpoints_list(v: Seq<ResponsiveBreakpoints>) -> Seq<char> {
    "['"@ + join_by(v.map(|i, b: ResponsiveBreakpoints| breakpoints_json(b)), "', '"@) + "']"@
}

/// Renders a list of breakpoint requests as the upload API expects it.
pub fn breakpoints_list_token(v: &Vec<ResponsiveBreakpoints>) -> (r: String)
    ensures
        r@ == breakpoints_list(v@),
{
    let ghost model = v@.map(|i, b: ResponsiveBreakpoints| breakpoints_json(b));
    let mut out = String::from_str("['");
    let mut i: usize = 0;
    while i < v.len()
        invariant
            0 <= i <= v.len(),
            model == v@.map(|i, b: ResponsiveBreakpoints| breakpoints_json(b)),
            out@ == "['"@ + join_by(model.take(i as int), "', '"@),
        decreases v.len() - i,
    {
        proof {
            lemma_join_by_step(model, "', '"@, i as int);
        }
        if i > 0 {
            out.append("', '");
        }
        out.append(v[i].to_json().as_str());
        proof {
            assert(out@ =~= "['"@ + join_by(model.take(i as int + 1), "', '"@));
        }
        i = i + 1;
    }
    proof {
        assert(model.take(v@.len() as int) =~= model);
    }
    out.append("']");
    proof {
        assert(out@ =~= breakpoints_list(v@));
    }
    out
}

impl ResponsiveBreakpoints {
    /// A request with only the mandatory field set.
    pub fn new(create_derived: bool) -> (r: Self)
        ensures
            r.create_derived == create_derived,
            r.format is None,
            r.transformation is None,
            r.max_width is None,
            r.min_width is None,
            r.bytes_step is None,
            r.max_images is None,
    {
        Self {
            create_derived,
            format: None,
            transformation: None,
            max_width: None,
            min_width: None,
            bytes_step: None,
            max_images: None,
        }
    }

    /// The JSON object of this request.
    #[verifier::rlimit(100)]
    pub fn to_json(&self) -> (r: String)
        ensures
            r@ == breakpoints_json(*self),
    {
        let mut out = String::from_str("{\"create_derived\":");
        out.append(crate::text::bool_token(self.create_derived).as_str());
        let ghost with_derived = "{\"create_derived\":"@ + bool_str(self.create_derived);
        if let Some(f) = &self.format {
            out.append(",\"format\":");
            out.append(crate::text::json_string_token(f.as_str()).as_str());
        }
        let ghost with_format = with_derived + (match &self.format {
            Some(f) => ",\"format\":"@ + json_string(f@),
            None => Seq::empty(),
        });
        proof {
            assert(out@ =~= with_format);
        }
        if let Some(t) = &self.transformation {
            out.append(",\"transformation\":");
            out.append(crate::text::json_string_token(t.as_str()).as_str());
        }
        let ghost with_transformation = with_format + (match &self.transformation {
            Some(t) => ",\"transformation\":"@ + json_string(t@),
            None => Seq::empty(),
        });
        proof {
            assert(out@ =~= with_transformation);
        }
        if let Some(w) = &self.max_width {
            out.append(",\"max_width\":");
            out.append(crate::text::u64_str(*w as u64).as_str());
        }
        let ghost with_max_width = with_transformation + (match self.max_width {
            Some(w) => ",\"max_width\":"@ + dec_str(w as nat),
            None => Seq::empty(),
        });
        proof {
            assert(out@ =~= with_max_width);
        }
        if let Some(w) = &self.min_width {
            out.append(",\"min_width\":");
            out.append(crate::text::u64_str(*w as u64).as_str());
        }
        let ghost with_min_width = with_max_width + (match self.min_width {
            Some(w) => ",\"min_width\":"@ + dec_str(w as nat),
            None => Seq::empty(),
        });
        proof {
            assert(out@ =~= with_min_width);
        }
        if let Some(w) = &self.bytes_step {
            out.append(",\"bytes_step\":");
            out.append(crate::text::u64_str(*w as u64).as_str());
        }
        let ghost with_bytes_step = with_min_width + (match self.bytes_step {
            Some(w) => ",\"bytes_step\":"@ + dec_str(w as nat),
            None => Seq::empty(),
        });
        proof {
            assert(out@ =~= with_bytes_step);
        }
        if let Some(w) = &self.max_images {
            out.append(",\"max_images\":");
            out.append(crate::text::u64_str(*w as u64).as_str());
        }
        let ghost with_max_images = with_bytes_step + (match self.max_images {
            Some(w) => ",\"max_images\":"@ + dec_str(w as nat),
            None => Seq::empty(),
        });
        proof {
            assert(out@ =~= with_max_images);
        }
        out.append("}");
        proof {
            assert(out@ =~= breakpoints_json(*self));
        }
        out
    }
}

} // verus!
