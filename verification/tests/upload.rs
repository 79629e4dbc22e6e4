use shareshot::capture::ImageData;
use shareshot::config::{RequestMethod, UploadConfig, UploadStrategy};
use shareshot::error::{Error, ParseError};
use shareshot::headers::HeaderMap;
use shareshot::image::Image;
use shareshot::upload::request::{
    build_body, build_request, BuiltRequest, FormPart, ImageUploadRequest, RequestBody,
};
use shareshot::upload::upload_request::UploadRequestBuilder;
use shareshot::upload::{conclude_upload, HttpResponse};

fn config(strategy: UploadStrategy, field: Option<&str>, parser: &str) -> UploadConfig {
    let mut headers = HeaderMap::new();
    headers.insert("Authorization".to_string(), "Bearer t".to_string());
    headers.insert("Accept".to_string(), "*/*".to_string());
    UploadConfig {
        url: "https://up.example/upload".to_string(),
        request_method: RequestMethod::Post,
        headers,
        upload_strategy: strategy,
        file_form_name: field.map(|name| name.to_string()),
        url_parser: parser.to_string(),
    }
}

fn image_data(bytes: &[u8], mime_type: &str) -> ImageData {
    ImageData { bytes: bytes.to_vec(), mime_type: mime_type.to_string() }
}

fn answer(status: u16, body: &str) -> Result<HttpResponse, String> {
    Ok(HttpResponse { status, body: body.to_string() })
}

fn part(name: &str, mime_type: &str, content: &[u8]) -> RequestBody {
    RequestBody::Multipart(FormPart {
        name: name.to_string(),
        file_name: "temp".to_string(),
        mime_type: mime_type.to_string(),
        content: content.to_vec(),
    })
}

#[test]
fn multipart_without_field_name_uses_the_empty_name() {
    let config = config(UploadStrategy::Multipart, None, "");
    let request =
        UploadRequestBuilder::new(&config).with_image(image_data(&[1, 2], "image/png")).build();
    assert_eq!(request.body, part("", "image/png", &[1, 2]));
}

#[test]
fn multipart_sends_one_named_part() {
    let config = config(UploadStrategy::Multipart, Some("file"), "");
    let request =
        UploadRequestBuilder::new(&config).with_image(image_data(&[1, 2], "image/png")).build();
    assert_eq!(request.body, part("file", "image/png", &[1, 2]));
}

#[test]
fn body_strategy_sends_the_raw_bytes() {
    let config = config(UploadStrategy::Body, Some("ignored"), "");
    let request = UploadRequestBuilder::new(&config)
        .with_image(image_data(&[0xFF, 0xD8, 0x00], "image/jpeg"))
        .build();
    assert_eq!(request.body, RequestBody::Raw(vec![0xFF, 0xD8, 0x00]));
}

#[test]
fn builder_without_image_sends_no_body() {
    for strategy in [UploadStrategy::Body, UploadStrategy::Multipart] {
        let config = config(strategy, Some("file"), "");
        let request = UploadRequestBuilder::new(&config).build();
        assert_eq!(request.body, RequestBody::Empty);
        assert_eq!(request.method, RequestMethod::Post);
        assert_eq!(request.url, "https://up.example/upload");
    }
}

#[test]
fn request_takes_method_address_and_headers_from_the_config() {
    let config = config(UploadStrategy::Body, None, "");
    let request = UploadRequestBuilder::new(&config).with_image(image_data(&[], "a/b")).build();
    assert_eq!(
        request,
        BuiltRequest {
            method: RequestMethod::Post,
            url: "https://up.example/upload".to_string(),
            headers: vec![
                ("Authorization".to_string(), "Bearer t".to_string()),
                ("Accept".to_string(), "*/*".to_string()),
            ],
            body: RequestBody::Raw(vec![]),
        }
    );
}

#[test]
fn request_of_default_config_is_put_without_headers() {
    let config = UploadConfig::default();
    let request = BuiltRequest::from(ImageUploadRequest::new(
        &config,
        Image::read("shot.png".to_string(), vec![7]),
    ));
    assert_eq!(
        request,
        BuiltRequest {
            method: RequestMethod::Put,
            url: String::new(),
            headers: vec![],
            body: part("", "image/png", &[7]),
        }
    );
}

#[test]
fn image_upload_request_carries_the_image() {
    let config = config(UploadStrategy::Multipart, Some("file"), "");
    let image = Image::read("/tmp/shot.jpg".to_string(), vec![0xFF, 0xD8]);
    let request: BuiltRequest = ImageUploadRequest::new(&config, image).into();
    assert_eq!(request.body, part("file", "image/jpeg", &[0xFF, 0xD8]));
    assert_eq!(request.headers.len(), 2);
}

#[test]
fn build_body_and_build_request_compose() {
    let config = config(UploadStrategy::Multipart, Some("f"), "");
    let body = build_body(&config, vec![3], "image/gif");
    assert_eq!(body, part("f", "image/gif", &[3]));
    let request = build_request(&config, RequestBody::Empty);
    assert_eq!(request.body, RequestBody::Empty);
    assert_eq!(request.url, config.url);
}

#[test]
fn status_404_fails_whatever_the_parser() {
    for parser in ["$raw$", "$json:url$", "", "$json:a..b$"] {
        let config = config(UploadStrategy::Body, None, parser);
        assert_eq!(
            conclude_upload(&config, answer(404, "{\"url\":\"http://x/y.png\"}")),
            Err(Error::NonSuccessStatus {
                status: 404,
                body: "{\"url\":\"http://x/y.png\"}".to_string()
            })
        );
    }
}

#[test]
fn status_200_with_json_parser_yields_the_url() {
    let config = config(UploadStrategy::Body, None, "$json:url$");
    assert_eq!(
        conclude_upload(&config, answer(200, "{\"url\":\"http://x/y.png\"}")),
        Ok("http://x/y.png".to_string())
    );
}

#[test]
fn status_204_with_empty_body_and_raw_parser_yields_empty_url() {
    let config = config(UploadStrategy::Body, None, "$raw$");
    assert_eq!(conclude_upload(&config, answer(204, "")), Ok(String::new()));
}

#[test]
fn success_class_is_200_to_299() {
    let config = config(UploadStrategy::Body, None, "$raw$");
    for status in [200u16, 201, 204, 250, 299] {
        assert_eq!(conclude_upload(&config, answer(status, "u")), Ok("u".to_string()));
    }
    for status in [0u16, 100, 199, 300, 301, 400, 500, 599, u16::MAX] {
        assert_eq!(
            conclude_upload(&config, answer(status, "u")),
            Err(Error::NonSuccessStatus { status, body: "u".to_string() })
        );
    }
}

#[test]
fn transport_failure_is_handed_on() {
    let config = config(UploadStrategy::Body, None, "$json:url$");
    assert_eq!(
        conclude_upload(&config, Err("connection refused".to_string())),
        Err(Error::TransportFailed("connection refused".to_string()))
    );
}

#[test]
fn parse_failure_after_success_status_is_reported() {
    let config = config(UploadStrategy::Body, None, "$json:url$");
    assert_eq!(
        conclude_upload(&config, answer(200, "<html>")),
        Err(Error::ResponseParseFailed {
            reason: ParseError::MalformedJson,
            pattern: "$json:url$".to_string()
        })
    );
    assert_eq!(
        conclude_upload(&config, answer(200, "{\"link\":\"x\"}")),
        Err(Error::ResponseParseFailed {
            reason: ParseError::PathNotFound,
            pattern: "$json:url$".to_string()
        })
    );
    assert_eq!(
        conclude_upload(&config, answer(200, "{\"url\":7}")),
        Err(Error::ResponseParseFailed {
            reason: ParseError::NotAString,
            pattern: "$json:url$".to_string()
        })
    );
}

#[test]
fn upload_end_to_end_with_echoing_transport() {
    let config = UploadConfig {
        url: "https://cdn.example/upload".to_string(),
        request_method: RequestMethod::Put,
        headers: HeaderMap::new(),
        upload_strategy: UploadStrategy::Multipart,
        file_form_name: Some("file".to_string()),
        url_parser: "$raw$".to_string(),
    };
    let image = Image::read("/tmp/capture.jpeg".to_string(), vec![0xFF, 0xD8, 0xFF, 0xE0]);
    assert_eq!(image.mime_type(), "image/jpeg");
    let request = BuiltRequest::from(ImageUploadRequest::new(&config, image));
    assert_eq!(
        request,
        BuiltRequest {
            method: RequestMethod::Put,
            url: "https://cdn.example/upload".to_string(),
            headers: vec![],
            body: part("file", "image/jpeg", &[0xFF, 0xD8, 0xFF, 0xE0]),
        }
    );
    let reply = answer(200, "https://cdn.example/abc.jpg");
    assert_eq!(conclude_upload(&config, reply), Ok("https://cdn.example/abc.jpg".to_string()));
}

#[test]
fn messages_of_errors() {
    assert_eq!(
        Error::TransportFailed("dns".to_string()).message(),
        "Failed to make http request (dns)"
    );
    assert_eq!(
        Error::NonSuccessStatus { status: 404, body: "nope".to_string() }.message(),
        "Server responded with non 200 status code: 404 (nope)"
    );
    assert_eq!(
        Error::ResponseParseFailed {
            reason: ParseError::MalformedJson,
            pattern: "$json:url$".to_string()
        }
        .message(),
        "Cannot parse response, is the url parser configured properly? (Invalid json: $json:url$)"
    );
    assert_eq!(
        Error::ResponseParseFailed {
            reason: ParseError::PathNotFound,
            pattern: "$json:a.b$".to_string()
        }
        .message(),
        "Cannot parse response, is the url parser configured properly? (Cannot find json value: $json:a.b$)"
    );
    assert_eq!(
        Error::ResponseParseFailed { reason: ParseError::NotAString, pattern: "p".to_string() }
            .message(),
        "Cannot parse response, is the url parser configured properly? (Cannot parse json value: p)"
    );
    assert_eq!(Error::UriCodec.message(), "Failed to encode/decode uri");
    assert_eq!(ParseError::MalformedJson.describe(), "Invalid json");
    assert_eq!(ParseError::PathNotFound.describe(), "Cannot find json value");
    assert_eq!(ParseError::NotAString.describe(), "Cannot parse json value");
}
