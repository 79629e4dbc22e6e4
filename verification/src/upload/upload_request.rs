//! A request builder that takes its image in a second step.

use vstd::prelude::*;
use crate::capture::ImageData;
use crate::config::{UploadConfig, UploadSettings};
use crate::headers::distinct_names;
use crate::upload::request::{
    build_body, build_request, image_body, request_with, BodyContent, BuiltRequest, RequestBody,
    RequestContent,
};

verus! {

/// Builds the upload request of a configuration, with an image or without
/// one.
pub struct UploadRequestBuilder<'a> {
    config: &'a UploadConfig,
    image: Option<ImageData>,
}

impl<'a> UploadRequestBuilder<'a> {
    /// The settings the request is built from.
    pub closed spec fn settings(&self) -> UploadSettings {
        self.config@
    }

    /// The image the request carries, if it was given one.
    pub closed spec fn image(&self) -> Option<ImageData> {
        self.image
    }

    /// The body of the request that is built.
    pub open spec fn body(&self) -> BodyContent {
        match self.image() {
            Some(image) => image_body(self.settings(), image.bytes@, image.mime_type@),
            None => BodyContent::Empty,
        }
    }

    pub fn new(config: &'a UploadConfig) -> (builder: Self)
        ensures
            builder.settings() == config@,
            builder.image() is None,
    {
        Self { config, image: None }
    }

    pub fn with_image(self, image: ImageData) -> (builder: Self)
        ensures
            builder.settings() == self.settings(),
            builder.image() == Some(image),
    {
        Self { config: self.config, image: Some(image) }
    }

    /// The request: method, address and headers as configured; the image as
    /// its body where one was given, and no body where none was.
    pub fn build(self) -> (request: BuiltRequest)
        ensures
            request@ == request_with(self.settings(), self.body()),
            distinct_names(request@.headers),
    {
        let body = match self.image {
            Some(image) => {
                let ImageData { bytes, mime_type } = image;
                build_body(self.config, bytes, mime_type.as_str())
            },
            None => RequestBody::Empty,
        };
        build_request(self.config, body)
    }
}

} // verus!
