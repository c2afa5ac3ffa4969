//! What the agent takes from the metadata endpoint's answer: the path
//! fragment of the image and the date stamp that names its cache file.

use vstd::prelude::*;
use vstd::string::*;
use crate::error::TaskError;
use crate::json::{json_document, parse_document, Json};

verus! {

/// The two fields of an image descriptor that the agent uses.
#[derive(Debug)]
pub struct WallpaperMetadata {
    pub urlbase: String,
    pub fullstartdate: String,
}

/// The contents of a `WallpaperMetadata`.
pub struct MetadataView {
    pub urlbase: Seq<char>,
    pub fullstartdate: Seq<char>,
}

impl View for WallpaperMetadata {
    type V = MetadataView;

    open spec fn view(&self) -> MetadataView {
        MetadataView { urlbase: self.urlbase@, fullstartdate: self.fullstartdate@ }
    }
}

/// The descriptor of the first image: element 0 of the member `images` of
/// the document.
pub open spec fn first_image(document: Json) -> Option<Json> {
    match document.member("images"@) {
        Some(images) => images.element(0),
        None => None,
    }
}

/// The text under `key` in `image`, where `image` is an object that has the
/// key with a string under it.
pub open spec fn text_field(image: Json, key: Seq<char>) -> Option<Seq<char>> {
    match image.member(key) {
        Some(value) => value.text(),
        None => None,
    }
}

/// The fields read from an image descriptor. A field that is missing or no
/// string is read leniently: the path fragment as empty, the date stamp as
/// `unknown_date`.
pub open spec fn image_metadata(image: Json) -> MetadataView {
    MetadataView {
        urlbase: match text_field(image, "urlbase"@) {
            Some(text) => text,
            None => Seq::empty(),
        },
        fullstartdate: match text_field(image, "fullstartdate"@) {
            Some(text) => text,
            None => "unknown_date"@,
        },
    }
}

/// The metadata of a document: that of its first image, if it has one.
pub open spec fn document_metadata(document: Json) -> Option<MetadataView> {
    match first_image(document) {
        Some(image) => Some(image_metadata(image)),
        None => None,
    }
}

/// The metadata of a response body: the body has to be JSON and has to
/// describe a first image; anything else is a parse error.
pub open spec fn body_metadata(body: Seq<u8>) -> Result<MetadataView, TaskError> {
    match json_document(body) {
        Some(document) => match document_metadata(document) {
            Some(metadata) => Ok(metadata),
            None => Err(TaskError::MetadataParse),
        },
        None => Err(TaskError::MetadataParse),
    }
}

fn read_text_field<'a>(image: &'a Json, key: &str) -> (found: Option<&'a str>)
    ensures
        found matches Some(text) ==> text_field(*image, key@) == Some(text@),
        found is None ==> text_field(*image, key@) is None,
{
    match image.get_member(key) {
        Some(value) => value.as_text(),
        None => None,
    }
}

/// Reads the metadata of a parsed document.
pub fn metadata_from_document(document: &Json) -> (found: Option<WallpaperMetadata>)
    ensures
        found matches Some(metadata) ==> document_metadata(*document) == Some(metadata@),
        found is None ==> document_metadata(*document) is None,
{
    let images = match document.get_member("images") {
        Some(images) => images,
        None => { return None; },
    };
    let image = match images.get_element(0) {
        Some(image) => image,
        None => { return None; },
    };
    let urlbase = match read_text_field(image, "urlbase") {
        Some(text) => String::from_str(text),
        None => String::new(),
    };
    let fullstartdate = match read_text_field(image, "fullstartdate") {
        Some(text) => String::from_str(text),
        None => String::from_str("unknown_date"),
    };
    Some(WallpaperMetadata { urlbase, fullstartdate })
}

/// Reads the metadata of a response body.
pub fn parse_metadata(body: &[u8]) -> (outcome: Result<WallpaperMetadata, TaskError>)
    ensures
        outcome matches Ok(metadata) ==> body_metadata(body@) == Ok::<MetadataView, TaskError>(
            metadata@,
        ),
        outcome matches Err(error) ==> body_metadata(body@) == Err::<MetadataView, TaskError>(
            error,
        ),
{
    match parse_document(body) {
        Some(document) => match metadata_from_document(&document) {
            Some(metadata) => Ok(metadata),
            None => Err(TaskError::MetadataParse),
        },
        None => Err(TaskError::MetadataParse),
    }
}

} // verus!
