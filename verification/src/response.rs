//! HTTP responses, and the response encoder.

use crate::decode::DecodeError;
use crate::execution::{BatchResult, BatchResultView, ExecutionResultView};
use crate::json::{json_text, print, JsonView};
use vstd::prelude::*;

verus! {

/// An HTTP response: the status code, the content type and the body.
#[derive(Clone, Debug, PartialEq, Eq)]
pub struct Response {
    pub status: u16,
    pub content_type: String,
    pub body: String,
}

/// What a [`Response`] holds, as mathematical values.
pub struct ResponseView {
    pub status: u16,
    pub content_type: Seq<char>,
    pub body: Seq<char>,
}

impl View for Response {
    type V = ResponseView;

    open spec fn view(&self) -> ResponseView {
        ResponseView { status: self.status, content_type: self.content_type@, body: self.body@ }
    }
}

/// Why a request is answered without any execution.
#[derive(Clone, Copy, Debug, PartialEq, Eq, Structural)]
pub enum RequestError {
    /// The method is neither GET nor POST: there is no such route.
    NotFound,
    /// The request could not be decoded.
    Decode(DecodeError),
}

impl DecodeError {
    /// What a client is told of the error.
    pub open spec fn message_text(self) -> Seq<char> {
        match self {
            DecodeError::MalformedQuery => "the query string cannot be read"@,
            DecodeError::UnknownField => "the query string has an unknown field"@,
            DecodeError::DuplicateField => "the query string has a field twice"@,
            DecodeError::MissingQuery => "the query string has no field `query`"@,
            DecodeError::InvalidVariablesJson => "the field `variables` is no JSON"@,
            DecodeError::InvalidJson => "the body is no JSON form of an operation or of a batch"@,
            DecodeError::UnsupportedContentType => "the content type is not supported"@,
        }
    }

    /// What a client is told of the error.
    pub fn message(&self) -> (text: &'static str)
        ensures
            text@ == self.message_text(),
    {
        match self {
            DecodeError::MalformedQuery => "the query string cannot be read",
            DecodeError::UnknownField => "the query string has an unknown field",
            DecodeError::DuplicateField => "the query string has a field twice",
            DecodeError::MissingQuery => "the query string has no field `query`",
            DecodeError::InvalidVariablesJson => "the field `variables` is no JSON",
            DecodeError::InvalidJson => "the body is no JSON form of an operation or of a batch",
            DecodeError::UnsupportedContentType => "the content type is not supported",
        }
    }
}

impl RequestError {
    /// The status code of the response to a request that is refused: 404
    /// where there is no such route, 400 where the request cannot be decoded.
    pub open spec fn status_code(self) -> u16 {
        match self {
            RequestError::NotFound => 404,
            RequestError::Decode(_) => 400,
        }
    }

    /// What a client is told of the error.
    pub open spec fn message_text(self) -> Seq<char> {
        match self {
            RequestError::NotFound => "no such route"@,
            RequestError::Decode(e) => e.message_text(),
        }
    }

    /// The response to a request that is refused.
    pub open spec fn response(self) -> ResponseView {
        ResponseView {
            status: self.status_code(),
            content_type: "text/plain; charset=utf-8"@,
            body: self.message_text(),
        }
    }

    /// The response to a request that is refused.
    pub fn to_response(&self) -> (response: Response)
        ensures
            response@ == self.response(),
    {
        match self {
            RequestError::NotFound => Response {
                status: 404,
                content_type: "text/plain; charset=utf-8".to_owned(),
                body: "no such route".to_owned(),
            },
            RequestError::Decode(e) => Response {
                status: 400,
                content_type: "text/plain; charset=utf-8".to_owned(),
                body: e.message().to_owned(),
            },
        }
    }
}

impl ResponseView {
    /// The response that carries `body` as JSON: 200 where all went well,
    /// 400 where not.
    pub open spec fn json(ok: bool, body: Seq<char>) -> ResponseView {
        ResponseView {
            status: if ok {
                200
            } else {
                400
            },
            content_type: "application/json"@,
            body,
        }
    }

    /// The response that carries `body` as a page of HTML.
    pub open spec fn html(body: Seq<char>) -> ResponseView {
        ResponseView { status: 200, content_type: "text/html; charset=utf-8"@, body }
    }

    /// The response to the results of a batch: their JSON form as the body,
    /// and 200 exactly where every execution raised no error.
    pub open spec fn encoded(results: BatchResultView) -> ResponseView {
        ResponseView::json(results.is_ok(), json_text(results.to_json()))
    }
}

impl Response {
    /// The response that carries `body` as JSON.
    pub fn json(ok: bool, body: String) -> (response: Response)
        ensures
            response@ == ResponseView::json(ok, body@),
    {
        Response {
            status: if ok {
                200
            } else {
                400
            },
            content_type: "application/json".to_owned(),
            body,
        }
    }

    /// The response that carries `body` as a page of HTML.
    pub fn html(body: String) -> (response: Response)
        ensures
            response@ == ResponseView::html(body@),
    {
        Response { status: 200, content_type: "text/html; charset=utf-8".to_owned(), body }
    }
}

/// Encodes the results of a batch as the response to its request. One
/// operation is answered by one object, a sequence of operations by an
/// array, so that the shape of the request tells the shape of the response.
pub fn encode(results: &BatchResult) -> (response: Response)
    ensures
        response@ == ResponseView::encoded(results@),
{
    let document = results.to_json();
    Response::json(results.is_ok(), print(&document))
}

/// The status of the response to the results of a batch is 200 if every
/// execution raised no error, and 400 if one of them raised an error.
pub proof fn lemma_status_law(results: BatchResultView)
    ensures
        ResponseView::encoded(results).status == 200 <==> forall|i: int|
            0 <= i < results.results().len() ==> (#[trigger] results.results()[i]).errors.len()
                == 0,
        ResponseView::encoded(results).status != 200 ==> ResponseView::encoded(results).status
            == 400,
        ResponseView::encoded(results).content_type == "application/json"@,
{
}

/// The body of the response to a sequence of results is the text of an array
/// that has one object for each result, in the order of the results.
pub proof fn lemma_many_results_make_an_array(results: Seq<ExecutionResultView>)
    ensures
        ResponseView::encoded(BatchResultView::Many(results)).body == json_text(
            BatchResultView::Many(results).to_json(),
        ),
        BatchResultView::Many(results).to_json() matches JsonView::Array(items) && {
            &&& items.len() == results.len()
            &&& forall|i: int|
                0 <= i < results.len() ==> #[trigger] items[i] == results[i].to_json()
        },
{
}

} // verus!
