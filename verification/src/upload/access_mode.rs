//! The access mode of an uploaded asset.

use vstd::prelude::*;

verus! {

/// Whether the asset behaves as public or as authenticated while still using
/// the default upload delivery type.
#[derive(Debug, Clone, PartialEq, Eq, Structural)]
pub enum AccessModes {
    Public,
    Authenticated,
}

/// The canonical token of an access mode.
pub open spec fn access_modes_token(m: AccessModes) -> Seq<char> {
    match m {
        AccessModes::Public => "public"@,
        AccessModes::Authenticated => "authenticated"@,
    }
}

impl AccessModes {
    /// The canonical token of this access mode.
    pub fn to_token(&self) -> (r: String)
        ensures
            r@ == access_modes_token(*self),
    {
        match self {
            AccessModes::Public => String::from_str("public"),
            AccessModes::Authenticated => String::from_str("authenticated"),
        }
    }
}

} // verus!
