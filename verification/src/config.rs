//! The configuration of the upload server.

use vstd::prelude::*;
use crate::headers::{HeaderMap, HeaderSeq};

verus! {

/// The different strategies which can be used to upload the image data.
#[derive(Debug, Clone, Copy, PartialEq, Eq, Structural)]
pub enum UploadStrategy {
    /// The image bytes are the body of the request.
    Body,
    /// The image is the one part of a multipart form.
    Multipart,
}

/// The HTTP method of the upload request.
#[derive(Debug, Clone, Copy, PartialEq, Eq, Structural)]
pub enum RequestMethod {
    Get,
    Post,
    Put,
}

/// Enumerations whose values can all be listed.
pub trait AllEnumValues: Sized {
    /// Every value, in the order of declaration.
    spec fn values() -> Seq<Self>;

    fn all() -> (all: Vec<Self>)
        ensures
            all@ == Self::values(),
    ;
}

impl AllEnumValues for RequestMethod {
    open spec fn values() -> Seq<RequestMethod> {
        seq![RequestMethod::Get, RequestMethod::Post, RequestMethod::Put]
    }

    fn all() -> (all: Vec<RequestMethod>) {
        let mut all: Vec<RequestMethod> = Vec::new();
        all.push(RequestMethod::Get);
        all.push(RequestMethod::Post);
        all.push(RequestMethod::Put);
        assert(all@ =~= Self::values());
        all
    }
}

impl AllEnumValues for UploadStrategy {
    open spec fn values() -> Seq<UploadStrategy> {
        seq![UploadStrategy::Body, UploadStrategy::Multipart]
    }

    fn all() -> (all: Vec<UploadStrategy>) {
        let mut all: Vec<UploadStrategy> = Vec::new();
        all.push(UploadStrategy::Body);
        all.push(UploadStrategy::Multipart);
        assert(all@ =~= Self::values());
        all
    }
}

impl Default for UploadStrategy {
    fn default() -> (strategy: UploadStrategy)
        ensures
            strategy == UploadStrategy::Multipart,
    {
        UploadStrategy::Multipart
    }
}

impl Default for RequestMethod {
    fn default() -> (method: RequestMethod)
        ensures
            method == RequestMethod::Put,
    {
        RequestMethod::Put
    }
}

impl RequestMethod {
    /// The method as it is written in a request.
    pub open spec fn spec_wire_name(self) -> Seq<char> {
        match self {
            RequestMethod::Get => "GET"@,
            RequestMethod::Post => "POST"@,
            RequestMethod::Put => "PUT"@,
        }
    }

    /// The method as it is written in a request: `GET`, `POST` or `PUT`.
    pub fn wire_name(&self) -> (name: &'static str)
        ensures
            name@ == self.spec_wire_name(),
    {
        match self {
            RequestMethod::Get => "GET",
            RequestMethod::Post => "POST",
            RequestMethod::Put => "PUT",
        }
    }

    /// The name of the value.
    pub open spec fn spec_name(self) -> Seq<char> {
        match self {
            RequestMethod::Get => "Get"@,
            RequestMethod::Post => "Post"@,
            RequestMethod::Put => "Put"@,
        }
    }

    /// The name of the value, as a settings page lists it.
    pub fn name(&self) -> (name: &'static str)
        ensures
            name@ == self.spec_name(),
    {
        match self {
            RequestMethod::Get => "Get",
            RequestMethod::Post => "Post",
            RequestMethod::Put => "Put",
        }
    }

    /// The place of the value among all values, counted from 0.
    pub open spec fn spec_ordinal(self) -> int {
        match self {
            RequestMethod::Get => 0,
            RequestMethod::Post => 1,
            RequestMethod::Put => 2,
        }
    }

    /// The place of the value among all values, counted from 0.
    pub fn ordinal(&self) -> (ordinal: i8)
        ensures
            ordinal == self.spec_ordinal(),
    {
        match self {
            RequestMethod::Get => 0,
            RequestMethod::Post => 1,
            RequestMethod::Put => 2,
        }
    }

    /// The value at place `ordinal`, if there is one.
    pub open spec fn spec_from_ordinal(ordinal: int) -> Option<RequestMethod> {
        if 0 <= ordinal < Self::values().len() {
            Some(Self::values()[ordinal])
        } else {
            None
        }
    }

    /// The value at place `ordinal`, if there is one.
    pub fn from_ordinal(ordinal: i8) -> (method: Option<RequestMethod>)
        ensures
            method == Self::spec_from_ordinal(ordinal as int),
    {
        match ordinal {
            0 => Some(RequestMethod::Get),
            1 => Some(RequestMethod::Post),
            2 => Some(RequestMethod::Put),
            _ => None,
        }
    }
}

impl UploadStrategy {
    /// The name of the value.
    pub open spec fn spec_name(self) -> Seq<char> {
        match self {
            UploadStrategy::Body => "Body"@,
            UploadStrategy::Multipart => "Multipart"@,
        }
    }

    /// The name of the value, as a settings page lists it.
    pub fn name(&self) -> (name: &'static str)
        ensures
            name@ == self.spec_name(),
    {
        match self {
            UploadStrategy::Body => "Body",
            UploadStrategy::Multipart => "Multipart",
        }
    }

    /// The place of the value among all values, counted from 0.
    pub open spec fn spec_ordinal(self) -> int {
        match self {
            UploadStrategy::Body => 0,
            UploadStrategy::Multipart => 1,
        }
    }

    /// The place of the value among all values, counted from 0.
    pub fn ordinal(&self) -> (ordinal: i8)
        ensures
            ordinal == self.spec_ordinal(),
    {
        match self {
            UploadStrategy::Body => 0,
            UploadStrategy::Multipart => 1,
        }
    }

    /// The value at place `ordinal`, if there is one.
    pub open spec fn spec_from_ordinal(ordinal: int) -> Option<UploadStrategy> {
        if 0 <= ordinal < Self::values().len() {
            Some(Self::values()[ordinal])
        } else {
            None
        }
    }

    /// The value at place `ordinal`, if there is one.
    pub fn from_ordinal(ordinal: i8) -> (strategy: Option<UploadStrategy>)
        ensures
            strategy == Self::spec_from_ordinal(ordinal as int),
    {
        match ordinal {
            0 => Some(UploadStrategy::Body),
            1 => Some(UploadStrategy::Multipart),
            _ => None,
        }
    }
}

/// The ordinal of a request method is its place among all of them, and the
/// method at that place is the method again.
pub proof fn lemma_request_method_ordinal(method: RequestMethod)
    ensures
        0 <= method.spec_ordinal() < RequestMethod::values().len(),
        RequestMethod::values()[method.spec_ordinal()] == method,
        RequestMethod::spec_from_ordinal(method.spec_ordinal()) == Some(method),
{
}

/// The ordinal of an upload strategy is its place among all of them, and the
/// strategy at that place is the strategy again.
pub proof fn lemma_upload_strategy_ordinal(strategy: UploadStrategy)
    ensures
        0 <= strategy.spec_ordinal() < UploadStrategy::values().len(),
        UploadStrategy::values()[strategy.spec_ordinal()] == strategy,
        UploadStrategy::spec_from_ordinal(strategy.spec_ordinal()) == Some(strategy),
{
}

/// An ordinal names a value only where it is the ordinal of that value.
pub proof fn lemma_ordinal_names_one_value(ordinal: int)
    ensures
        RequestMethod::spec_from_ordinal(ordinal) matches Some(method) ==> method.spec_ordinal()
            == ordinal,
        UploadStrategy::spec_from_ordinal(ordinal) matches Some(strategy)
            ==> strategy.spec_ordinal() == ordinal,
{
}

/// The configuration for the upload server.
#[derive(Debug, PartialEq, Eq)]
pub struct UploadConfig {
    /// The address the image is sent to.
    pub url: String,
    pub request_method: RequestMethod,
    /// Headers sent besides those of the transport.
    pub headers: HeaderMap,
    pub upload_strategy: UploadStrategy,
    /// The name of the form field that carries the image in a multipart
    /// upload.
    pub file_form_name: Option<String>,
    /// The statement that says where the URL stands in the response.
    pub url_parser: String,
}

/// The mathematical value of an [`UploadConfig`].
pub struct UploadSettings {
    pub url: Seq<char>,
    pub request_method: RequestMethod,
    pub headers: HeaderSeq,
    pub upload_strategy: UploadStrategy,
    pub file_form_name: Option<Seq<char>>,
    pub url_parser: Seq<char>,
}

/// The settings a configuration starts with: `PUT`, multipart, and nothing
/// else set.
pub open spec fn default_settings() -> UploadSettings {
    UploadSettings {
        url: Seq::empty(),
        request_method: RequestMethod::Put,
        headers: Seq::empty(),
        upload_strategy: UploadStrategy::Multipart,
        file_form_name: None,
        url_parser: Seq::empty(),
    }
}

impl View for UploadConfig {
    type V = UploadSettings;

    open spec fn view(&self) -> UploadSettings {
        UploadSettings {
            url: self.url@,
            request_method: self.request_method,
            headers: self.headers@,
            upload_strategy: self.upload_strategy,
            file_form_name: match self.file_form_name {
                Some(name) => Some(name@),
                None => None,
            },
            url_parser: self.url_parser@,
        }
    }
}

impl Default for UploadConfig {
    fn default() -> (config: UploadConfig)
        ensures
            config@ == default_settings(),
    {
        UploadConfig {
            url: String::new(),
            request_method: RequestMethod::Put,
            headers: HeaderMap::new(),
            upload_strategy: UploadStrategy::Multipart,
            file_form_name: None,
            url_parser: String::new(),
        }
    }
}

impl UploadConfig {
    pub fn set_url(&mut self, url: String)
        ensures
            final(self)@ == (UploadSettings { url: url@, ..old(self)@ }),
    {
        self.url = url;
    }

    pub fn set_request_method(&mut self, request_method: RequestMethod)
        ensures
            final(self)@ == (UploadSettings { request_method, ..old(self)@ }),
    {
        self.request_method = request_method;
    }

    pub fn set_headers(&mut self, headers: HeaderMap)
        ensures
            final(self)@ == (UploadSettings { headers: headers@, ..old(self)@ }),
    {
        self.headers = headers;
    }

    pub fn set_upload_strategy(&mut self, upload_strategy: UploadStrategy)
        ensures
            final(self)@ == (UploadSettings { upload_strategy, ..old(self)@ }),
    {
        self.upload_strategy = upload_strategy;
    }

    pub fn set_file_form_name(&mut self, file_form_name: String)
        ensures
            final(self)@ == (UploadSettings {
                file_form_name: Some(file_form_name@),
                ..old(self)@
            }),
    {
        self.file_form_name = Some(file_form_name)
    }

    pub fn set_url_parser(&mut self, url_parser: String)
        ensures
            final(self)@ == (UploadSettings { url_parser: url_parser@, ..old(self)@ }),
    {
        self.url_parser = url_parser;
    }
}

/// The main configuration.
#[derive(Debug, PartialEq, Eq)]
pub struct ShareShotConfig {
    /// Deletes a screenshot after it was uploaded.
    pub cleanup: bool,
    pub upload_server: UploadConfig,
}

impl Default for ShareShotConfig {
    fn default() -> (config: ShareShotConfig)
        ensures
            !config.cleanup,
            config.upload_server@ == default_settings(),
    {
        ShareShotConfig { cleanup: false, upload_server: UploadConfig::default() }
    }
}

impl ShareShotConfig {
    pub fn set_cleanup(&mut self, cleanup: bool)
        ensures
            final(self).cleanup == cleanup,
            final(self).upload_server == old(self).upload_server,
    {
        self.cleanup = cleanup;
    }
}

} // verus!
