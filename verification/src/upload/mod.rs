//! The upload of an image to the server named in the configuration: the
//! request that is sent, and what its answer means.

use vstd::prelude::*;
use crate::config::UploadConfig;
use crate::error::{outcome_view, Error, Failure};
use crate::parser::{parse_url, parsed_url, statement_mode, ParseMode};

pub mod request;
pub mod upload_request;

verus! {

/// What the transport read of the answer to a request: status and body.
#[derive(Debug, PartialEq, Eq)]
pub struct HttpResponse {
    pub status: u16,
    pub body: String,
}

/// The mathematical value of what the transport hands back: status and body
/// of the answer, or what it said of its failure.
pub type Reply = Result<(u16, Seq<char>), Seq<char>>;

/// The value of what the transport hands back.
pub open spec fn reply_view(reply: Result<HttpResponse, String>) -> Reply {
    match reply {
        Ok(response) => Ok((response.status, response.body@)),
        Err(cause) => Err(cause@),
    }
}

/// The statuses that say that the server took the upload: 200 to 299.
pub open spec fn is_success(status: u16) -> bool {
    200 <= status <= 299
}

/// How an upload ends. A failure of the transport is handed on with its
/// cause. An answer with a status outside the success class fails with that
/// status and the body as it came, and the parser statement is not looked
/// at. The body of any other answer is read the way the parser statement
/// says.
pub open spec fn upload_result(url_parser: Seq<char>, reply: Reply) -> Result<Seq<char>, Failure> {
    match reply {
        Err(cause) => Err(Failure::TransportFailed(cause)),
        Ok((status, body)) => if is_success(status) {
            parsed_url(body, url_parser)
        } else {
            Err(Failure::NonSuccessStatus { status, body })
        },
    }
}

/// An answer with a status outside 200 to 299 fails the upload with that
/// status and the body as it came, whatever the parser statement says.
pub proof fn lemma_failure_status_ignores_parser(url_parser: Seq<char>, status: u16, body: Seq<char>)
    requires
        !is_success(status),
    ensures
        upload_result(url_parser, Ok((status, body))) == Err::<Seq<char>, Failure>(
            Failure::NonSuccessStatus { status, body },
        ),
{
}

/// An answer with a status from 200 to 299 is read the way the parser
/// statement says, and the status plays no further part.
pub proof fn lemma_success_status_reads_body(url_parser: Seq<char>, status: u16, body: Seq<char>)
    requires
        is_success(status),
    ensures
        upload_result(url_parser, Ok((status, body))) == parsed_url(body, url_parser),
{
}

/// With a parser statement that selects the raw mode, the body of a
/// successful answer is the URL, an empty body too.
pub proof fn lemma_success_with_raw_parser(url_parser: Seq<char>, status: u16, body: Seq<char>)
    requires
        is_success(status),
        statement_mode(url_parser) is Raw,
    ensures
        upload_result(url_parser, Ok((status, body))) == Ok::<Seq<char>, Failure>(body),
{
}

/// A failure of the transport ends the upload with its cause.
pub proof fn lemma_transport_failure_is_handed_on(url_parser: Seq<char>, cause: Seq<char>)
    ensures
        upload_result(url_parser, Err(cause)) == Err::<Seq<char>, Failure>(
            Failure::TransportFailed(cause),
        ),
{
}

/// Ends an upload to the server of `config`: `reply` is what the transport
/// handed back for the request.
///
/// Returns the url to the uploaded image.
pub fn conclude_upload(config: &UploadConfig, reply: Result<HttpResponse, String>) -> (url: Result<
    String,
    Error,
>)
    ensures
        outcome_view(url) == upload_result(config@.url_parser, reply_view(reply)),
{
    match reply {
        Err(cause) => Err(Error::TransportFailed(cause)),
        Ok(response) => {
            let HttpResponse { status, body } = response;
            if 200 <= status && status <= 299 {
                parse_url(&body, &config.url_parser)
            } else {
                Err(Error::NonSuccessStatus { status, body })
            }
        },
    }
}

} // verus!
