//! Listing the assets that carry a tag: the list's shape, and the endpoint
//! the listing is fetched from. The fetch itself is the embedding
//! application's job.

use vstd::prelude::*;

verus! {

/// One asset carrying the tag.
#[derive(Debug, Clone)]
pub struct Tag {
    pub public_id: String,
    pub version: usize,
    pub format: String,
    pub width: u32,
    pub height: u32,
    pub resource_type: String,
    pub created_at: String,
}

/// All assets carrying the tag.
#[derive(Debug, Clone)]
pub struct TagList {
    pub resources: Vec<Tag>,
    pub updated_at: String,
}

/// The endpoint that lists all assets with the given tag.
pub open spec fn tag_list_endpoint(cloud_name: Seq<char>, tag_name: Seq<char>) -> Seq<char> {
    "https://res.cloudinary.com/"@ + cloud_name + "/image/list/"@ + tag_name + ".json"@
}

/// The URL from which the list of all assets with the given tag is loaded.
pub fn tag_list_url(cloud_name: &str, tag_name: &str) -> (r: String)
    ensures
        r@ == tag_list_endpoint(cloud_name@, tag_name@),
{
    let mut url = String::from_str("https://res.cloudinary.com/");
    url.append(cloud_name);
    url.append("/image/list/");
    url.append(tag_name);
    url.append(".json");
    url
}

} // verus!
