//! The request that uploads an image.

use vstd::prelude::*;
use vstd::string::*;
use crate::config::{RequestMethod, UploadConfig, UploadSettings, UploadStrategy};
use crate::headers::{distinct_names, pairs_view, HeaderSeq};
use crate::image::Image;

verus! {

/// The one part of a multipart form.
#[derive(Debug, PartialEq, Eq)]
pub struct FormPart {
    /// The name of the form field.
    pub name: String,
    pub file_name: String,
    /// The content type of the part.
    pub mime_type: String,
    pub content: Vec<u8>,
}

/// The body of a request.
#[derive(Debug, PartialEq, Eq)]
pub enum RequestBody {
    /// No body.
    Empty,
    /// The bytes as they are.
    Raw(Vec<u8>),
    /// A multipart form with one part.
    Multipart(FormPart),
}

/// A request as the transport is to send it.
#[derive(Debug, PartialEq, Eq)]
pub struct BuiltRequest {
    pub method: RequestMethod,
    pub url: String,
    /// The headers, each name once, in the order of the configuration.
    pub headers: Vec<(String, String)>,
    pub body: RequestBody,
}

/// The mathematical value of a [`FormPart`].
pub struct PartContent {
    pub name: Seq<char>,
    pub file_name: Seq<char>,
    pub mime_type: Seq<char>,
    pub content: Seq<u8>,
}

/// The mathematical value of a [`RequestBody`].
pub enum BodyContent {
    Empty,
    Raw(Seq<u8>),
    Multipart(PartContent),
}

/// The mathematical value of a [`BuiltRequest`].
pub struct RequestContent {
    pub method: RequestMethod,
    pub url: Seq<char>,
    pub headers: HeaderSeq,
    pub body: BodyContent,
}

impl View for FormPart {
    type V = PartContent;

    open spec fn view(&self) -> PartContent {
        PartContent {
            name: self.name@,
            file_name: self.file_name@,
            mime_type: self.mime_type@,
            content: self.content@,
        }
    }
}

impl View for RequestBody {
    type V = BodyContent;

    open spec fn view(&self) -> BodyContent {
        match self {
            RequestBody::Empty => BodyContent::Empty,
            RequestBody::Raw(bytes) => BodyContent::Raw(bytes@),
            RequestBody::Multipart(part) => BodyContent::Multipart(part@),
        }
    }
}

impl View for BuiltRequest {
    type V = RequestContent;

    open spec fn view(&self) -> RequestContent {
        RequestContent {
            method: self.method,
            url: self.url@,
            headers: pairs_view(self.headers@),
            body: self.body@,
        }
    }
}

/// The file name every uploaded part declares.
pub open spec fn part_file_name() -> Seq<char> {
    "temp"@
}

/// The body that carries an image of the given content and media type: with
/// the body strategy the bytes themselves, with the multipart strategy a form
/// of one part, named by the configured field name or by the empty text
/// where none is configured.
pub open spec fn image_body(settings: UploadSettings, bytes: Seq<u8>, mime_type: Seq<char>)
    -> BodyContent {
    match settings.upload_strategy {
        UploadStrategy::Body => BodyContent::Raw(bytes),
        UploadStrategy::Multipart => BodyContent::Multipart(
            PartContent {
                name: match settings.file_form_name {
                    Some(name) => name,
                    None => Seq::empty(),
                },
                file_name: part_file_name(),
                mime_type,
                content: bytes,
            },
        ),
    }
}

/// The request that `settings` asks for, with `body` as its body: method,
/// address and headers are those of the settings.
pub open spec fn request_with(settings: UploadSettings, body: BodyContent) -> RequestContent {
    RequestContent {
        method: settings.request_method,
        url: settings.url,
        headers: settings.headers,
        body,
    }
}

/// The request that uploads an image of the given content and media type.
pub open spec fn upload_request(settings: UploadSettings, bytes: Seq<u8>, mime_type: Seq<char>)
    -> RequestContent {
    request_with(settings, image_body(settings, bytes, mime_type))
}

/// A multipart upload for which no field name is configured is sent all the
/// same: its one part is named by the empty text.
pub proof fn lemma_multipart_without_field_name(
    settings: UploadSettings,
    bytes: Seq<u8>,
    mime_type: Seq<char>,
)
    requires
        settings.upload_strategy == UploadStrategy::Multipart,
        settings.file_form_name is None,
    ensures
        upload_request(settings, bytes, mime_type).body == BodyContent::Multipart(
            PartContent {
                name: Seq::empty(),
                file_name: part_file_name(),
                mime_type,
                content: bytes,
            },
        ),
{
}

/// A multipart upload has exactly one part: it carries the image bytes
/// under the configured field name and declares the media type of the image.
pub proof fn lemma_multipart_sends_one_part(
    settings: UploadSettings,
    bytes: Seq<u8>,
    mime_type: Seq<char>,
)
    requires
        settings.upload_strategy == UploadStrategy::Multipart,
        settings.file_form_name is Some,
    ensures
        upload_request(settings, bytes, mime_type).body == BodyContent::Multipart(
            PartContent {
                name: settings.file_form_name->0,
                file_name: part_file_name(),
                mime_type,
                content: bytes,
            },
        ),
{
}

/// With the body strategy the image bytes are the body as they are, and no
/// multipart part is sent.
pub proof fn lemma_body_strategy_sends_raw_bytes(
    settings: UploadSettings,
    bytes: Seq<u8>,
    mime_type: Seq<char>,
)
    requires
        settings.upload_strategy == UploadStrategy::Body,
    ensures
        upload_request(settings, bytes, mime_type).body == BodyContent::Raw(bytes),
        !(upload_request(settings, bytes, mime_type).body is Multipart),
{
}

/// Method, address and headers of an upload are those of the settings,
/// whatever the image and the strategy.
pub proof fn lemma_request_follows_settings(
    settings: UploadSettings,
    bytes: Seq<u8>,
    mime_type: Seq<char>,
)
    ensures
        upload_request(settings, bytes, mime_type).method == settings.request_method,
        upload_request(settings, bytes, mime_type).url == settings.url,
        upload_request(settings, bytes, mime_type).headers == settings.headers,
{
}

/// The body that carries `bytes` of media type `mime_type` the way `config`
/// asks for.
pub fn build_body(config: &UploadConfig, bytes: Vec<u8>, mime_type: &str) -> (body: RequestBody)
    ensures
        body@ == image_body(config@, bytes@, mime_type@),
{
    match config.upload_strategy {
        UploadStrategy::Body => RequestBody::Raw(bytes),
        UploadStrategy::Multipart => {
            let name = match &config.file_form_name {
                Some(name) => name.clone(),
                None => String::new(),
            };
            RequestBody::Multipart(
                FormPart {
                    name,
                    // No file name comes with a capture.
                    file_name: String::from_str("temp"),
                    mime_type: String::from_str(mime_type),
                    content: bytes,
                },
            )
        },
    }
}

/// The request that `config` asks for, with `body` as its body.
pub fn build_request(config: &UploadConfig, body: RequestBody) -> (request: BuiltRequest)
    ensures
        request@ == request_with(config@, body@),
        distinct_names(request@.headers),
{
    BuiltRequest {
        method: config.request_method,
        url: config.url.clone(),
        headers: config.headers.to_pairs(),
        body,
    }
}

/// Used to build a request for uploading an image to the upload server
/// defined in the configuration.
pub struct ImageUploadRequest<'a> {
    config: &'a UploadConfig,
    image: Image,
}

impl<'a> ImageUploadRequest<'a> {
    pub fn new(config: &'a UploadConfig, image: Image) -> (upload: Self)
        ensures
            upload.settings() == config@,
            upload.image() == image,
    {
        Self { config, image }
    }

    /// The settings the request is built from.
    pub closed spec fn settings(&self) -> UploadSettings {
        self.config@
    }

    /// The image the request carries.
    pub closed spec fn image(&self) -> Image {
        self.image
    }
}

impl<'a> From<ImageUploadRequest<'a>> for BuiltRequest {
    /// The request that `upload` describes: method, address and headers as
    /// configured, and the image as its body.
    fn from(upload: ImageUploadRequest<'a>) -> (request: BuiltRequest)
        ensures
            request@ == upload_request(
                upload.settings(),
                upload.image()@.bytes,
                upload.image()@.mime_type,
            ),
            distinct_names(request@.headers),
    {
        let bytes = upload.image.bytes().clone();
        let body = build_body(upload.config, bytes, upload.image.mime_type().as_str());
        build_request(upload.config, body)
    }
}

/// What `from` returns is stated over the content of the request, in its own
/// `ensures`: of two requests with one content neither is promised here.
impl<'a> vstd::std_specs::convert::FromSpecImpl<ImageUploadRequest<'a>> for BuiltRequest {
    open spec fn obeys_from_spec() -> bool {
        false
    }

    /// Some request with the content that `from` gives.
    open spec fn from_spec(upload: ImageUploadRequest<'a>) -> BuiltRequest {
        choose|request: BuiltRequest|
            #[trigger] request.view() == upload_request(
                upload.settings(),
                upload.image()@.bytes,
                upload.image()@.mime_type,
            )
    }
}

} // verus!
