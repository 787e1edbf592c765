//! Laws relating the renderer, the builder and the parser.

use vstd::prelude::*;

use crate::text::{
    dec_str, first_index_of, last_index_of, lemma_first_index_of_is, lemma_last_index_of_is,
    lemma_last_index_of_none, lemma_split_by_concat, lemma_split_by_sep_free, split_by,
};
use super::aspect_ratio::{aspect_ratio_token, AspectRatio};
use super::background::{background_token, Background};
use super::gravity::{gravity_token, Gravity};
use super::pad_mode::{pad_mode_segment, PadMode};
use super::parse::{
    collect_parts, delim_index, is_path_delim, is_query_delim, is_transformation_seq,
    is_version_seq, lemma_collect_parts_last, lemma_delim_index_is, lemma_query_index_all,
    parse_segments_spec, parse_url_spec,
    parts_public_id, query_index, segment_part, url_segments, ParseError,
};
use super::{
    formatted_public_id, image_url, transformation_segment, transformations_prefix, ImageModel,
    Transformations,
};

verus! {

/// Rendering is deterministic: the segment of a transformation is a function
/// of the value alone, so equal values render to identical strings.
pub proof fn lemma_render_deterministic(a: Transformations, b: Transformations)
    requires
        a == b,
    ensures
        transformation_segment(a) == transformation_segment(b),
{
}

/// With all four optional qualifiers present, a by-width pad segment holds
/// the fixed literal order: background, aspect ratio, the pad directive,
/// gravity, width.
pub proof fn lemma_pad_qualifier_order(width: u32, ar: AspectRatio, bg: Background, g: Gravity)
    ensures
        pad_mode_segment(
            PadMode::PadByWidth {
                width,
                ar: Some(ar),
                background: Some(bg),
                gravity: Some(g),
            },
        ) == background_token(bg) + ","@ + aspect_ratio_token(ar) + ","@ + "c_pad"@ + ","@
            + gravity_token(g) + ",w_"@ + dec_str(width as nat),
{
    reveal_strlit(",");
    reveal_strlit(",w_");
    reveal_strlit("c_pad");
    assert(pad_mode_segment(
        PadMode::PadByWidth { width, ar: Some(ar), background: Some(bg), gravity: Some(g) },
    ) =~= background_token(bg) + ","@ + aspect_ratio_token(ar) + ","@ + "c_pad"@ + ","@
        + gravity_token(g) + ",w_"@ + dec_str(width as nat));
}

/// A character that can appear in a namespace, asset identifier or format
/// without disturbing the URL grammar or the parser's heuristics: not a
/// path or query delimiter, not a dot, not an underscore, not a colon.
pub open spec fn plain_char(c: char) -> bool {
    c != '/' && c != '.' && c != '_' && c != ':' && c != '?' && c != '#'
}

/// A component made only of plain characters.
pub open spec fn plain_component(s: Seq<char>) -> bool {
    forall|k: int| 0 <= k < s.len() ==> plain_char(#[trigger] s[k])
}

/// A successfully parsed URL whose final path segment has no dot yields no
/// format.
pub proof fn lemma_no_extension_no_format(url: Seq<char>, img: ImageModel)
    requires
        parse_url_spec(url) == Ok::<ImageModel, ParseError>(img),
        ({
            let segs = url_segments(url.skip(first_index_of(url, ':') + 3));
            segs.len() > 0 && last_index_of(segs.last(), '.') < 0
        }),
    ensures
        img.format is None,
{
    let segs = url_segments(url.skip(first_index_of(url, ':') + 3));
    let parts = collect_parts(segs.skip(3), false);
    lemma_collect_parts_last(segs.skip(3), false);
    assert(parts.len() > 0);
    assert(segs.skip(3).len() > 0);
    assert(segs.skip(3).last() == segs.last());
    assert(img.format == segment_part(segs.last()).1);
}

/// Round trip: parsing a URL built from a well-formed identity with no
/// transformations recovers exactly that identity. The namespace, asset
/// identifier and format must be made of plain characters (no slash, dot,
/// underscore or URL delimiter), and, when no format is set, the identifier
/// must not be shaped like a version marker; outside those bounds the
/// parser's heuristics are allowed to misread.
pub proof fn lemma_round_trip(img: ImageModel)
    requires
        img.wf(),
        img.transformations.len() == 0,
        plain_component(img.cloud_name),
        plain_component(img.public_id),
        match img.format {
            Some(f) => plain_component(f),
            None => !is_version_seq(img.public_id),
        },
    ensures
        parse_url_spec(image_url(img)) == Ok::<ImageModel, ParseError>(img),
{
    reveal_strlit("https://res.cloudinary.com/");
    reveal_strlit("res.cloudinary.com");
    reveal_strlit("/image/upload/");
    reveal_strlit("image");
    reveal_strlit("upload");
    reveal_strlit(".");
    let ns = img.cloud_name;
    let pid = img.public_id;
    let lit = "https://res.cloudinary.com/"@;
    let host = "res.cloudinary.com"@;
    let mid = "/image/upload/"@;
    let fpid = formatted_public_id(pid, img.format);

    // the formatted identifier is the identifier, with the format appended
    // after a dot when one is set
    match img.format {
        None => {
            assert(fpid == pid);
        },
        Some(f) => {
            lemma_last_index_of_none(pid, '/');
            lemma_last_index_of_none(pid, '.');
            assert(pid.take(-1 as int + 1) =~= Seq::<char>::empty());
            assert(pid.skip(-1 as int + 1) =~= pid);
            assert(fpid =~= pid + "."@ + f);
        },
    }
    // every character of the formatted identifier is plain or a dot
    assert forall|k: int| 0 <= k < fpid.len() implies plain_char(#[trigger] fpid[k]) || fpid[k]
        == '.' by {
        match img.format {
            None => {},
            Some(f) => {
                assert(fpid =~= pid + "."@ + f);
                if k < pid.len() {
                    assert(fpid[k] == pid[k]);
                } else if k == pid.len() {
                    assert(fpid[k] == '.');
                } else {
                    assert(fpid[k] == f[k - pid.len() - 1]);
                }
            },
        }
    }

    assert(transformations_prefix(img.transformations) =~= Seq::<char>::empty());
    let url = image_url(img);
    assert(url =~= lit + ns + mid + fpid);

    // scheme: the first colon is at index five, followed by two slashes
    assert(url[5] == ':');
    assert forall|k: int| 0 <= k < 5 implies url[k] != ':' by {
        assert(url[k] == lit[k]);
    }
    lemma_first_index_of_is(url, ':', 5);
    assert(url[6] == '/' && url[7] == '/');

    // host: everything up to the slash at index eighteen of the remainder
    let after = url.skip(8);
    assert(after =~= host + seq!['/'] + (ns + mid + fpid));
    let rest0 = ns + mid + fpid;
    assert forall|k: int| 0 <= k < 18 implies !is_path_delim(#[trigger] after[k]) by {
        assert(after[k] == host[k]);
    }
    assert(after[18] == '/');
    lemma_delim_index_is(after, 18);
    assert(after.take(18) =~= host);

    // the path runs to the end: nothing in it ends a query
    assert(after.skip(delim_index(after) + 1) =~= rest0);
    assert forall|k: int| 0 <= k < rest0.len() implies !is_query_delim(#[trigger] rest0[k]) by {
        if k < ns.len() {
            assert(rest0[k] == ns[k]);
        } else if k < ns.len() + 14 {
            assert(rest0[k] == mid[k - ns.len()]);
        } else {
            assert(rest0[k] == fpid[k - ns.len() - 14]);
        }
    }
    lemma_query_index_all(rest0);
    assert(rest0.take(query_index(rest0)) =~= rest0);

    // the path splits into exactly namespace, the two fixed literals, and
    // the formatted identifier
    let r1 = "image"@ + seq!['/'] + ("upload"@ + seq!['/'] + fpid);
    assert(rest0 =~= ns + seq!['/'] + r1);
    assert forall|k: int| 0 <= k < ns.len() implies ns[k] != '/' by {}
    lemma_split_by_concat(ns, r1, '/');
    lemma_split_by_concat("image"@, "upload"@ + seq!['/'] + fpid, '/');
    lemma_split_by_concat("upload"@, fpid, '/');
    assert forall|k: int| 0 <= k < fpid.len() implies fpid[k] != '/' by {}
    lemma_split_by_sep_free(fpid, '/');
    let segs = split_by(rest0, '/');
    assert(segs =~= seq![ns, "image"@, "upload"@, fpid]);
    assert(url_segments(after) == segs);

    // the single remaining segment is neither a version marker nor shaped
    // like a transformation, so it becomes the one asset-identifier part
    assert(!is_transformation_seq(fpid));
    match img.format {
        None => {
            assert(!is_version_seq(fpid));
        },
        Some(f) => {
            assert(fpid =~= pid + "."@ + f);
            if is_version_seq(fpid) {
                assert(fpid.len() == 11);
                assert(1 <= pid.len() <= 10);
                assert(fpid[pid.len() as int] == '.');
            }
            assert(!is_version_seq(fpid));
        },
    }
    assert(segs.skip(3) =~= seq![fpid]);
    let parts = collect_parts(segs.skip(3), false);
    assert(seq![fpid].drop_first() =~= Seq::<Seq<char>>::empty());
    assert(collect_parts(Seq::<Seq<char>>::empty(), true) == Seq::<
        (Seq<char>, Option<Seq<char>>),
    >::empty());
    assert(collect_parts(seq![fpid], false) == seq![segment_part(fpid)] + collect_parts(
        seq![fpid].drop_first(),
        true,
    ));
    assert(parts =~= seq![segment_part(fpid)]);

    // the part splits back into the identifier and the format
    match img.format {
        None => {
            lemma_last_index_of_none(fpid, '.');
            assert(segment_part(fpid) == (pid, None::<Seq<char>>));
        },
        Some(f) => {
            assert(fpid =~= pid + "."@ + f);
            assert(fpid[pid.len() as int] == '.');
            assert forall|k: int| pid.len() < k < fpid.len() implies fpid[k] != '.' by {
                assert(fpid[k] == f[k - pid.len() - 1]);
            }
            lemma_last_index_of_is(fpid, '.', pid.len() as int);
            assert(fpid.take(pid.len() as int) =~= pid);
            assert(fpid.skip(pid.len() as int + 1) =~= f);
        },
    }
    assert(parts_public_id(parts) =~= pid);

    // the reassembled identity equals the one the URL was built from
    let out = parse_segments_spec(segs);
    assert(img.transformations =~= Seq::<Transformations>::empty());
    assert(out == Ok::<ImageModel, ParseError>(img));
    assert(parse_url_spec(url) == out);
}

} // verus!
