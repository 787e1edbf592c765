//! The delivery type of an uploaded asset.

use vstd::prelude::*;

verus! {

/// How the uploaded asset is delivered: publicly, privately, or behind
/// authentication.
#[derive(Debug, Clone, PartialEq, Eq, Structural)]
pub enum DeliveryType {
    Upload,
    Private,
    Authenticated,
}

/// The canonical token of a delivery type.
pub open spec fn delivery_type_token(t: DeliveryType) -> Seq<char> {
    match t {
        DeliveryType::Upload => "upload"@,
        DeliveryType::Private => "private"@,
        DeliveryType::Authenticated => "authenticated"@,
    }
}

impl DeliveryType {
    /// The canonical token of this delivery type.
    pub fn to_token(&self) -> (r: String)
        ensures
            r@ == delivery_type_token(*self),
    {
        match self {
            DeliveryType::Upload => String::from_str("upload"),
            DeliveryType::Private => String::from_str("private"),
            DeliveryType::Authenticated => String::from_str("authenticated"),
        }
    }
}

} // verus!
