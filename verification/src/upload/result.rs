//! The plain shapes of the upload API's responses that the library reasons
//! about. Reading them off the wire is the embedding application's job.

use vstd::prelude::*;

verus! {

/// The message inside a failed call's response.
#[derive(Debug, Clone)]
pub struct Message {
    pub message: String,
}

/// A failed call's response.
#[derive(Debug, Clone)]
pub struct Error {
    pub error: Message,
}

/// Selected metadata of an uploaded image.
#[derive(Debug, Clone)]
pub struct ImageMetadata {
    pub jfif_version: Option<String>,
    pub resolution_unit: Option<String>,
    pub x_resolution: Option<String>,
    pub y_resolution: Option<String>,
    pub colorspace: Option<String>,
    pub dpi: Option<String>,
}

/// The response of a destroy call.
#[derive(Debug, Clone)]
pub struct DestroyResult {
    pub result: String,
}

} // verus!
