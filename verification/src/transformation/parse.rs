//! The reverse direction: decomposing an existing delivery URL into its
//! namespace, asset identifier and format.
//!
//! This parser is heuristic, best-effort and lossy: the service publishes no
//! grammar for its own URLs, so transformation segments are recognized by
//! shape alone, and an asset identifier that happens to look like a
//! transformation directive is silently misread. Callers must treat any
//! failure as "cannot be decomposed" and must not rely on round-tripping
//! URLs that this crate's builder did not produce.

use vstd::prelude::*;

use crate::text::{
    first_index_of, last_index_of, lemma_first_index_of, lemma_last_index_of, split_by, split_char,
    str_eq, find_char, rfind_char,
};
use super::{Image, ImageModel};

verus! {

/// Why a URL could not be decomposed.
#[derive(Debug, Clone, PartialEq, Eq, Structural)]
pub enum ParseError {
    /// The input string is empty.
    EmptyInput,
    /// The URL does not carry the delivery host of this service.
    NotThisService,
    /// The asset-kind segment is not the image literal.
    UnsupportedAssetKind,
    /// The delivery-mode segment is not in the allow-list.
    InvalidDeliveryMode,
    /// The namespace segment is missing or empty.
    MissingNamespace,
    /// No asset-identifier segment was found.
    MissingAssetId,
}

/// A decimal digit character.
pub open spec fn is_digit_char(c: char) -> bool {
    48 <= c as u32 <= 57
}

/// The version-marker shape: a 'v' followed by exactly ten decimal digits,
/// denoting an asset revision, ignored for identity purposes.
pub open spec fn is_version_seq(s: Seq<char>) -> bool {
    s.len() == 11 && s[0] == 'v' && forall|k: int| 1 <= k < 11 ==> is_digit_char(#[trigger] s[k])
}

/// The transformation heuristic: the segment has an underscore and the text
/// before the first underscore is shorter than four characters. The
/// service's directives are virtually all of the form `<short code>_<value>`,
/// so this is a workable, not perfect, discriminator.
pub open spec fn is_transformation_seq(s: Seq<char>) -> bool {
    exists|k: int| 0 <= k < s.len() && k < 4 && #[trigger] s[k] == '_'
}

/// Checks whether the string is a version marker: 'v' followed by exactly
/// ten decimal digits.
pub fn is_version(s: &str) -> (r: bool)
    ensures
        r == is_version_seq(s@),
{
    let n = s.unicode_len();
    if n != 11 {
        return false;
    }
    if s.get_char(0) != 'v' {
        return false;
    }
    let mut k: usize = 1;
    while k < 11
        invariant
            1 <= k <= 11,
            s@.len() == 11,
            forall|j: int| 1 <= j < k ==> is_digit_char(#[trigger] s@[j]),
        decreases 11 - k,
    {
        let c = s.get_char(k);
        let u = c as u32;
        if u < 48 || u > 57 {
            return false;
        }
        k = k + 1;
    }
    true
}

/// Checks whether the string looks like a transformation directive: it has
/// an underscore and the text before the first underscore is shorter than
/// four characters.
pub fn is_transformation(s: &str) -> (r: bool)
    ensures
        r == is_transformation_seq(s@),
{
    let n = s.unicode_len();
    let lim: usize = if n < 4 {
        n
    } else {
        4
    };
    let mut k: usize = 0;
    while k < lim
        invariant
            0 <= k <= lim <= s@.len(),
            lim == if s@.len() < 4 {
                s@.len() as int
            } else {
                4
            },
            forall|j: int| 0 <= j < k ==> s@[j] != '_',
        decreases lim - k,
    {
        if s.get_char(k) == '_' {
            return true;
        }
        k = k + 1;
    }
    false
}

/// One asset-identifier part: the text before the last dot, and, when a dot
/// is present, the text after it.
pub open spec fn segment_part(s: Seq<char>) -> (Seq<char>, Option<Seq<char>>) {
    let dot = last_index_of(s, '.');
    if dot >= 0 {
        (s.take(dot), Some(s.skip(dot + 1)))
    } else {
        (s, None)
    }
}

/// Classifies the path segments after the delivery mode, in order: before
/// the latch is set, a version marker is consumed and sets it, and a
/// transformation-shaped segment is discarded; everything else sets the
/// latch and contributes one asset-identifier part.
pub open spec fn collect_parts(segs: Seq<Seq<char>>, latch: bool) -> Seq<
    (Seq<char>, Option<Seq<char>>),
>
    decreases segs.len(),
{
    if segs.len() == 0 {
        seq![]
    } else {
        let s = segs[0];
        let rest = segs.drop_first();
        if !latch && is_version_seq(s) {
            collect_parts(rest, true)
        } else if !latch && is_transformation_seq(s) {
            collect_parts(rest, false)
        } else {
            seq![segment_part(s)] + collect_parts(rest, true)
        }
    }
}

/// One part as it reads inside the asset identifier: its dot restored when
/// it had one.
pub open spec fn part_text(p: (Seq<char>, Option<Seq<char>>)) -> Seq<char> {
    match p.1 {
        Some(t) => p.0 + "."@ + t,
        None => p.0,
    }
}

/// All the given parts, each followed by a slash.
pub open spec fn parts_dir_text(parts: Seq<(Seq<char>, Option<Seq<char>>)>) -> Seq<char>
    decreases parts.len(),
{
    if parts.len() == 0 {
        Seq::empty()
    } else {
        parts_dir_text(parts.drop_last()) + part_text(parts.last()) + "/"@
    }
}

/// The asset identifier assembled from the collected parts: every part but
/// the last with its dot and a trailing slash, then the pre-extension text
/// of the last part.
pub open spec fn parts_public_id(parts: Seq<(Seq<char>, Option<Seq<char>>)>) -> Seq<char>
    recommends
        parts.len() > 0,
{
    parts_dir_text(parts.drop_last()) + parts.last().0
}

/// The delivery-mode allow-list.
pub open spec fn delivery_mode_ok(s: Seq<char>) -> bool {
    ||| s == "upload"@
    ||| s == "fetch"@
    ||| s == "private"@
    ||| s == "authenticated"@
    ||| s == "sprite"@
    ||| s == "facebook"@
    ||| s == "twitter"@
    ||| s == "youtube"@
    ||| s == "vimeo"@
}

/// What parsing the path segments yields: the namespace from the first
/// segment, the fixed asset-kind literal, an allow-listed delivery mode,
/// then the asset identifier and format assembled from the classified
/// remainder.
pub open spec fn parse_segments_spec(segs: Seq<Seq<char>>) -> Result<ImageModel, ParseError> {
    if segs.len() == 0 || segs[0].len() == 0 {
        Err(ParseError::MissingNamespace)
    } else if segs.len() < 2 {
        Err(ParseError::MissingAssetId)
    } else if segs[1] != "image"@ {
        Err(ParseError::UnsupportedAssetKind)
    } else if segs.len() == 2 {
        Err(ParseError::MissingAssetId)
    } else if !delivery_mode_ok(segs[2]) {
        Err(ParseError::InvalidDeliveryMode)
    } else {
        let parts = collect_parts(segs.skip(3), false);
        if parts.len() == 0 {
            Err(ParseError::MissingAssetId)
        } else {
            let pid = parts_public_id(parts);
            if pid.len() == 0 {
                Err(ParseError::MissingAssetId)
            } else {
                Ok(
                    ImageModel {
                        cloud_name: segs[0],
                        public_id: pid,
                        format: parts.last().1,
                        transformations: Seq::empty(),
                    },
                )
            }
        }
    }
}

/// A character that ends the host part of a URL.
pub open spec fn is_path_delim(c: char) -> bool {
    c == '/' || c == '?' || c == '#'
}

/// A character that ends the path part of a URL.
pub open spec fn is_query_delim(c: char) -> bool {
    c == '?' || c == '#'
}

/// The index of the first character that ends the host, or the length when
/// none does.
pub open spec fn delim_index(s: Seq<char>) -> int
    decreases s.len(),
{
    if s.len() == 0 {
        0
    } else if is_path_delim(s[0]) {
        0
    } else {
        1 + delim_index(s.drop_first())
    }
}

/// What the host-end index means.
pub proof fn lemma_delim_index(s: Seq<char>)
    ensures
        0 <= delim_index(s) <= s.len(),
        forall|k: int| 0 <= k < delim_index(s) ==> !is_path_delim(#[trigger] s[k]),
        delim_index(s) < s.len() ==> is_path_delim(s[delim_index(s)]),
    decreases s.len(),
{
    if s.len() > 0 && !is_path_delim(s[0]) {
        let d = s.drop_first();
        lemma_delim_index(d);
        assert forall|k: int| 0 <= k < delim_index(s) implies !is_path_delim(#[trigger] s[k]) by {
            if k > 0 {
                assert(!is_path_delim(d[k - 1]));
            }
        }
    }
}

/// The index of the first character that ends the path, or the length when
/// none does.
pub open spec fn query_index(s: Seq<char>) -> int
    decreases s.len(),
{
    if s.len() == 0 {
        0
    } else if is_query_delim(s[0]) {
        0
    } else {
        1 + query_index(s.drop_first())
    }
}

/// What the path-end index means.
pub proof fn lemma_query_index(s: Seq<char>)
    ensures
        0 <= query_index(s) <= s.len(),
        forall|k: int| 0 <= k < query_index(s) ==> !is_query_delim(#[trigger] s[k]),
        query_index(s) < s.len() ==> is_query_delim(s[query_index(s)]),
    decreases s.len(),
{
    if s.len() > 0 && !is_query_delim(s[0]) {
        let d = s.drop_first();
        lemma_query_index(d);
        assert forall|k: int| 0 <= k < query_index(s) implies !is_query_delim(#[trigger] s[k]) by {
            if k > 0 {
                assert(!is_query_delim(d[k - 1]));
            }
        }
    }
}

/// A position holding a host-ending character, with none before it, is the
/// host end.
pub proof fn lemma_delim_index_is(s: Seq<char>, i: int)
    requires
        0 <= i < s.len(),
        is_path_delim(s[i]),
        forall|k: int| 0 <= k < i ==> !is_path_delim(#[trigger] s[k]),
    ensures
        delim_index(s) == i,
{
    lemma_delim_index(s);
}

/// A sequence with no path-ending character has its path end at the length.
pub proof fn lemma_query_index_all(s: Seq<char>)
    requires
        forall|k: int| 0 <= k < s.len() ==> !is_query_delim(#[trigger] s[k]),
    ensures
        query_index(s) == s.len(),
{
    lemma_query_index(s);
}

/// With the latch set, every remaining segment contributes one part.
pub proof fn lemma_collect_parts_latched_len(segs: Seq<Seq<char>>)
    ensures
        collect_parts(segs, true).len() == segs.len(),
    decreases segs.len(),
{
    if segs.len() > 0 {
        lemma_collect_parts_latched_len(segs.drop_first());
    }
}

/// When any parts were collected, the final segment contributed the last
/// one: skipping happens only before the first part.
pub proof fn lemma_collect_parts_last(segs: Seq<Seq<char>>, latch: bool)
    ensures
        collect_parts(segs, latch).len() > 0 ==> segs.len() > 0 && collect_parts(segs, latch).last()
            == segment_part(segs.last()),
    decreases segs.len(),
{
    if segs.len() > 0 {
        let s = segs[0];
        let rest = segs.drop_first();
        if rest.len() > 0 {
            assert(rest.last() == segs.last());
        }
        if !latch && is_version_seq(s) {
            lemma_collect_parts_last(rest, true);
        } else if !latch && is_transformation_seq(s) {
            lemma_collect_parts_last(rest, false);
        } else {
            lemma_collect_parts_latched_len(rest);
            lemma_collect_parts_last(rest, true);
            let whole = seq![segment_part(s)] + collect_parts(rest, true);
            if rest.len() == 0 {
                assert(whole.last() == segment_part(segs.last()));
            } else {
                assert(whole.last() == collect_parts(rest, true).last());
            }
        }
    }
}

/// The path segments of the URL: empty when the host is not followed by a
/// slash, else the text between that slash and the end of the path, cut at
/// every further slash.
pub open spec fn url_segments(after: Seq<char>) -> Seq<Seq<char>> {
    let host_end = delim_index(after);
    if host_end == after.len() || after[host_end] != '/' {
        Seq::empty()
    } else {
        let rest = after.skip(host_end + 1);
        split_by(rest.take(query_index(rest)), '/')
    }
}

/// What parsing a whole URL string yields. The URL must carry a scheme
/// followed by "://" and exactly the canonical delivery host; the path
/// segments are then read as in [`parse_segments_spec`].
pub open spec fn parse_url_spec(url: Seq<char>) -> Result<ImageModel, ParseError> {
    if url.len() == 0 {
        Err(ParseError::EmptyInput)
    } else {
        let colon = first_index_of(url, ':');
        if !(0 <= colon && colon + 3 <= url.len() && url[colon + 1] == '/' && url[colon + 2]
            == '/') {
            Err(ParseError::NotThisService)
        } else {
            let after = url.skip(colon + 3);
            let host = after.take(delim_index(after));
            if host != "res.cloudinary.com"@ {
                Err(ParseError::NotThisService)
            } else {
                parse_segments_spec(url_segments(after))
            }
        }
    }
}

/// The views of the collected parts.
pub open spec fn part_views(parts: Seq<(String, Option<String>)>) -> Seq<
    (Seq<char>, Option<Seq<char>>),
> {
    parts.map(
        |i, p: (String, Option<String>)|
            (
                p.0@,
                match p.1 {
                    Some(t) => Some(t@),
                    None => None,
                },
            ),
    )
}

/// The views of the split segments.
pub open spec fn seg_views(segs: Seq<String>) -> Seq<Seq<char>> {
    segs.map(|i, s: String| s@)
}

/// Checks the delivery-mode allow-list.
fn delivery_mode_check(s: &str) -> (r: bool)
    ensures
        r == delivery_mode_ok(s@),
{
    if str_eq(s, "upload") {
        return true;
    }
    if str_eq(s, "fetch") {
        return true;
    }
    if str_eq(s, "private") {
        return true;
    }
    if str_eq(s, "authenticated") {
        return true;
    }
    if str_eq(s, "sprite") {
        return true;
    }
    if str_eq(s, "facebook") {
        return true;
    }
    if str_eq(s, "twitter") {
        return true;
    }
    if str_eq(s, "youtube") {
        return true;
    }
    if str_eq(s, "vimeo") {
        return true;
    }
    false
}

/// Finds the end of the host part.
fn find_path_delim(s: &str) -> (r: usize)
    ensures
        r == delim_index(s@),
{
    proof {
        lemma_delim_index(s@);
    }
    let n = s.unicode_len();
    let mut i: usize = 0;
    while i < n
        invariant
            0 <= i <= n == s@.len(),
            forall|k: int| 0 <= k < i ==> !is_path_delim(#[trigger] s@[k]),
        decreases n - i,
    {
        let c = s.get_char(i);
        if c == '/' || c == '?' || c == '#' {
            proof {
                lemma_delim_index(s@);
            }
            return i;
        }
        i = i + 1;
    }
    i
}

/// Finds the end of the path part.
fn find_query_delim(s: &str) -> (r: usize)
    ensures
        r == query_index(s@),
{
    proof {
        lemma_query_index(s@);
    }
    let n = s.unicode_len();
    let mut i: usize = 0;
    while i < n
        invariant
            0 <= i <= n == s@.len(),
            forall|k: int| 0 <= k < i ==> !is_query_delim(#[trigger] s@[k]),
        decreases n - i,
    {
        let c = s.get_char(i);
        if c == '?' || c == '#' {
            proof {
                lemma_query_index(s@);
            }
            return i;
        }
        i = i + 1;
    }
    i
}

/// Parses the already-split path segments.
fn parse_segments(segs: &Vec<String>) -> (r: Result<Image, ParseError>)
    ensures
        match r {
            Ok(img) => parse_segments_spec(seg_views(segs@)) == Ok::<ImageModel, ParseError>(img@),
            Err(e) => parse_segments_spec(seg_views(segs@)) == Err::<ImageModel, ParseError>(e),
        },
{
    let ghost model = seg_views(segs@);
    if segs.len() == 0 || segs[0].as_str().is_empty() {
        return Err(ParseError::MissingNamespace);
    }
    if segs.len() < 2 {
        return Err(ParseError::MissingAssetId);
    }
    if !str_eq(segs[1].as_str(), "image") {
        return Err(ParseError::UnsupportedAssetKind);
    }
    if segs.len() == 2 {
        return Err(ParseError::MissingAssetId);
    }
    if !delivery_mode_check(segs[2].as_str()) {
        return Err(ParseError::InvalidDeliveryMode);
    }
    let mut parts: Vec<(String, Option<String>)> = Vec::new();
    let mut latch = false;
    let mut i: usize = 3;
    while i < segs.len()
        invariant
            3 <= i <= segs.len(),
            model == seg_views(segs@),
            collect_parts(model.skip(3), false) == part_views(parts@) + collect_parts(
                model.skip(i as int),
                latch,
            ),
        decreases segs.len() - i,
    {
        let s = segs[i].as_str();
        let n = s.unicode_len();
        proof {
            assert(model.skip(i as int)[0] == s@);
            assert(model.skip(i as int).drop_first() =~= model.skip(i as int + 1));
        }
        let ghost old_parts = parts@;
        if !latch && is_version(s) {
            latch = true;
        } else if !latch && is_transformation(s) {
            // a transformation directive before the asset id: discarded
        } else {
            latch = true;
            proof {
                lemma_last_index_of(s@, '.');
            }
            match rfind_char(s, '.') {
                Some(d) => {
                    let head = String::from_str(s.substring_char(0, d));
                    let tail = String::from_str(s.substring_char(d + 1, n));
                    proof {
                        assert(head@ =~= s@.take(d as int));
                        assert(tail@ =~= s@.skip(d as int + 1));
                    }
                    parts.push((head, Some(tail)));
                },
                None => {
                    parts.push((String::from_str(s), None));
                },
            }
            proof {
                assert(part_views(parts@) =~= part_views(old_parts) + seq![segment_part(s@)]);
            }
        }
        i = i + 1;
    }
    proof {
        assert(model.skip(segs@.len() as int) =~= Seq::<Seq<char>>::empty());
        assert(part_views(parts@) + collect_parts(model.skip(segs@.len() as int), latch)
            =~= part_views(parts@));
    }
    if parts.len() == 0 {
        return Err(ParseError::MissingAssetId);
    }
    let ghost spec_parts = collect_parts(model.skip(3), false);
    let last = parts.len() - 1;
    let mut pid = String::new();
    let mut j: usize = 0;
    while j < last
        invariant
            0 <= j <= last == parts@.len() - 1,
            spec_parts == part_views(parts@),
            pid@ == parts_dir_text(part_views(parts@).take(j as int)),
        decreases last - j,
    {
        proof {
            assert(part_views(parts@).take(j as int + 1).drop_last() =~= part_views(parts@).take(
                j as int,
            ));
        }
        match &parts[j].1 {
            Some(t) => {
                pid.append(parts[j].0.as_str());
                pid.append(".");
                pid.append(t.as_str());
            },
            None => {
                pid.append(parts[j].0.as_str());
            },
        }
        pid.append("/");
        j = j + 1;
    }
    pid.append(parts[last].0.as_str());
    proof {
        assert(part_views(parts@).take(last as int) =~= part_views(parts@).drop_last());
        assert(pid@ == parts_public_id(part_views(parts@)));
    }
    if pid.as_str().is_empty() {
        return Err(ParseError::MissingAssetId);
    }
    let format = match &parts[last].1 {
        Some(f) => Some(f.clone()),
        None => None,
    };
    let img = Image {
        cloud_name: segs[0].clone(),
        public_id: pid,
        format,
        transformations: Vec::new(),
    };
    Ok(img)
}

impl Image {
    /// Decomposes an existing delivery URL into an image with no
    /// transformations: the namespace, the asset identifier, and the file
    /// extension of its final segment as the format.
    ///
    /// Unofficial and heuristic: the service does not guarantee this URL
    /// layout, and an asset identifier that looks like a transformation
    /// directive is misread without an error.
    pub fn try_from_url(url: &str) -> (r: Result<Image, ParseError>)
        ensures
            match r {
                Ok(img) => parse_url_spec(url@) == Ok::<ImageModel, ParseError>(img@)
                    && img@.transformations.len() == 0 && img@.wf(),
                Err(e) => parse_url_spec(url@) == Err::<ImageModel, ParseError>(e),
            },
    {
        let n = url.unicode_len();
        if n == 0 {
            return Err(ParseError::EmptyInput);
        }
        proof {
            lemma_first_index_of(url@, ':');
        }
        let colon = match find_char(url, ':') {
            Some(c) => c,
            None => {
                return Err(ParseError::NotThisService);
            },
        };
        if n - colon < 3 {
            return Err(ParseError::NotThisService);
        }
        if url.get_char(colon + 1) != '/' || url.get_char(colon + 2) != '/' {
            return Err(ParseError::NotThisService);
        }
        let after = url.substring_char(colon + 3, n);
        proof {
            assert(after@ =~= url@.skip(colon as int + 3));
            lemma_delim_index(after@);
        }
        let after_len = after.unicode_len();
        let host_end = find_path_delim(after);
        let host = after.substring_char(0, host_end);
        proof {
            assert(host@ =~= after@.take(delim_index(after@)));
        }
        if !str_eq(host, "res.cloudinary.com") {
            return Err(ParseError::NotThisService);
        }
        let mut segs: Vec<String> = Vec::new();
        let mut has_path = false;
        if host_end < after_len {
            if after.get_char(host_end) == '/' {
                has_path = true;
                let rest = after.substring_char(host_end + 1, after_len);
                proof {
                    assert(rest@ =~= after@.skip(delim_index(after@) + 1));
                    lemma_query_index(rest@);
                }
                let qi = find_query_delim(rest);
                let path = rest.substring_char(0, qi);
                proof {
                    assert(path@ =~= rest@.take(query_index(rest@)));
                }
                segs = split_char(path, '/');
            }
        }
        proof {
            if !has_path {
                assert(seg_views(segs@) =~= url_segments(after@));
            } else {
                assert(seg_views(segs@) == url_segments(after@));
            }
        }
        let r = parse_segments(&segs);
        proof {
            assert(parse_url_spec(url@) == parse_segments_spec(seg_views(segs@)));
        }
        r
    }
}

} // verus!
