//! The resource type of an upload.

use vstd::prelude::*;

verus! {

/// The type of file being uploaded, or automatic detection.
#[derive(Debug, Clone, PartialEq, Eq, Structural)]
pub enum ResourceTypes {
    Image,
    Raw,
    Video,
    Auto,
}

/// The canonical token of a resource type.
pub open spec fn resource_types_token(t: ResourceTypes) -> Seq<char> {
    match t {
        ResourceTypes::Image => "image"@,
        ResourceTypes::Raw => "raw"@,
        ResourceTypes::Video => "video"@,
        ResourceTypes::Auto => "auto"@,
    }
}

impl ResourceTypes {
    /// The canonical token of this resource type.
    pub fn to_token(&self) -> (r: String)
        ensures
            r@ == resource_types_token(*self),
    {
        match self {
            ResourceTypes::Image => String::from_str("image"),
            ResourceTypes::Raw => String::from_str("raw"),
            ResourceTypes::Video => String::from_str("video"),
            ResourceTypes::Auto => String::from_str("auto"),
        }
    }
}

} // verus!
