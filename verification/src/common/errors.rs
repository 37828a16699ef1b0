//! The error model: every failure collapses into a message and an optional code.

use super::resp::api_resp_fail;
use super::resp::BaseResponse;
use vstd::prelude::*;

verus! {

/// Code of an error that carries none of its own.
pub const CODE_SERVER_ERROR: i32 = 500;

/// Message of a failure whose source has nothing to say.
pub const MESSAGE_INFALLIBLE: &'static str = "Infallible";

/// Code of a body whose JSON does not fit the expected shape.
pub const CODE_UNPROCESSABLE_ENTITY: i32 = 422;

/// Code of a body that is not JSON.
pub const CODE_BAD_REQUEST: i32 = 400;

/// Code of a request that does not announce a JSON body.
pub const CODE_UNSUPPORTED_MEDIA_TYPE: i32 = 415;

/// The closed set of errors that cross the HTTP boundary.
#[derive(Debug, Clone, PartialEq, Eq)]
pub enum MessageError {
    /// A transport or engine failure: an optional status-like code and a message.
    HttpRequestError(Option<i32>, String),
    /// An application failure raised with a fixed message.
    Common(String),
}

/// The mathematical model of a `MessageError`.
pub ghost enum MessageErrorView {
    HttpRequestError(Option<i32>, Seq<char>),
    Common(Seq<char>),
}

impl MessageErrorView {
    /// The status an error shows at the HTTP boundary: its own code, or the
    /// server-error code where it has none.
    pub open spec fn status(self) -> i32 {
        match self {
            MessageErrorView::HttpRequestError(Some(code), _) => code,
            MessageErrorView::HttpRequestError(None, _) => CODE_SERVER_ERROR,
            MessageErrorView::Common(_) => CODE_SERVER_ERROR,
        }
    }

    /// The human-readable message of an error.
    pub open spec fn message(self) -> Seq<char> {
        match self {
            MessageErrorView::HttpRequestError(_, message) => message,
            MessageErrorView::Common(message) => message,
        }
    }

    /// The code of the envelope that reports the error: the status, its 32
    /// bits read as an unsigned number.
    pub open spec fn envelope_code(self) -> u32 {
        unsigned(self.status())
    }
}

/// The 32 bits of a status read as an unsigned number: the status itself
/// where it is not negative, and 2^32 more than it where it is.
pub open spec fn unsigned(status: i32) -> u32 {
    if status >= 0 {
        status as u32
    } else {
        (status + 0x1_0000_0000) as u32
    }
}

impl View for MessageError {
    type V = MessageErrorView;

    open spec fn view(&self) -> MessageErrorView {
        match self {
            MessageError::HttpRequestError(code, message) => MessageErrorView::HttpRequestError(
                *code,
                message@,
            ),
            MessageError::Common(message) => MessageErrorView::Common(message@),
        }
    }
}

/// Why a JSON body was turned away before it reached a handler.
#[derive(Debug, Clone, Copy, PartialEq, Eq, Structural)]
pub enum JsonRejection {
    /// The body is JSON of another shape than the handler takes.
    JsonDataError,
    /// The body is not JSON.
    JsonSyntaxError,
    /// The request does not announce a JSON body.
    MissingJsonContentType,
    /// Any other reason, such as a body that could not be read.
    Other,
}

impl JsonRejection {
    /// The status code that stands for a rejection.
    pub open spec fn spec_code(self) -> i32 {
        match self {
            JsonRejection::JsonDataError => CODE_UNPROCESSABLE_ENTITY,
            JsonRejection::JsonSyntaxError => CODE_BAD_REQUEST,
            JsonRejection::MissingJsonContentType => CODE_UNSUPPORTED_MEDIA_TYPE,
            JsonRejection::Other => CODE_SERVER_ERROR,
        }
    }

    /// The status code that stands for a rejection.
    pub fn code(self) -> (code: i32)
        ensures
            code == self.spec_code(),
    {
        match self {
            JsonRejection::JsonDataError => CODE_UNPROCESSABLE_ENTITY,
            JsonRejection::JsonSyntaxError => CODE_BAD_REQUEST,
            JsonRejection::MissingJsonContentType => CODE_UNSUPPORTED_MEDIA_TYPE,
            JsonRejection::Other => CODE_SERVER_ERROR,
        }
    }
}

/// A failure of one of the sources that the error model absorbs, reduced
/// to what the model keeps of it: the source's own description.
#[derive(Debug, Clone, PartialEq, Eq)]
pub enum Failure {
    /// A JSON body of the wrong shape.
    JsonData(String),
    /// A body that is not JSON.
    JsonSyntax(String),
    /// A failure that cannot happen.
    Infallible,
    /// A corrupt upload stream or an undecodable multipart field.
    Multipart(String),
    /// A malformed URI.
    InvalidUri(String),
    /// A JSON text that could not be read or written.
    Json(String),
    /// A malformed HTTP message.
    Http(String),
    /// A JSON body turned away before the handler, with the description
    /// of why.
    Rejection(JsonRejection, String),
    /// A failed round trip to the container engine.
    Engine(String),
}

/// The mathematical model of a `Failure`.
pub ghost enum FailureView {
    JsonData(Seq<char>),
    JsonSyntax(Seq<char>),
    Infallible,
    Multipart(Seq<char>),
    InvalidUri(Seq<char>),
    Json(Seq<char>),
    Http(Seq<char>),
    Rejection(JsonRejection, Seq<char>),
    Engine(Seq<char>),
}

impl View for Failure {
    type V = FailureView;

    open spec fn view(&self) -> FailureView {
        match self {
            Failure::JsonData(text) => FailureView::JsonData(text@),
            Failure::JsonSyntax(text) => FailureView::JsonSyntax(text@),
            Failure::Infallible => FailureView::Infallible,
            Failure::Multipart(text) => FailureView::Multipart(text@),
            Failure::InvalidUri(text) => FailureView::InvalidUri(text@),
            Failure::Json(text) => FailureView::Json(text@),
            Failure::Http(text) => FailureView::Http(text@),
            Failure::Rejection(kind, text) => FailureView::Rejection(*kind, text@),
            Failure::Engine(text) => FailureView::Engine(text@),
        }
    }
}

impl FailureView {
    /// The error that a failure collapses into: the description of the
    /// failure as the message, and a code only for a rejected JSON body.
    pub open spec fn absorbed(self) -> MessageErrorView {
        match self {
            FailureView::JsonData(text) => MessageErrorView::HttpRequestError(None, text),
            FailureView::JsonSyntax(text) => MessageErrorView::HttpRequestError(None, text),
            FailureView::Infallible => MessageErrorView::HttpRequestError(
                None,
                MESSAGE_INFALLIBLE@,
            ),
            FailureView::Multipart(text) => MessageErrorView::HttpRequestError(None, text),
            FailureView::InvalidUri(text) => MessageErrorView::HttpRequestError(None, text),
            FailureView::Json(text) => MessageErrorView::HttpRequestError(None, text),
            FailureView::Http(text) => MessageErrorView::HttpRequestError(None, text),
            FailureView::Rejection(kind, text) => MessageErrorView::HttpRequestError(
                Some(kind.spec_code()),
                text,
            ),
            FailureView::Engine(text) => MessageErrorView::HttpRequestError(None, text),
        }
    }
}

impl MessageError {
    /// An application error with the given message.
    pub fn new(msg: &str) -> (e: Self)
        ensures
            e@ == MessageErrorView::Common(msg@),
    {
        MessageError::Common(msg.to_string())
    }

    /// Collapses a failure of an outside source into the error model.
    pub fn from_failure(failure: Failure) -> (e: Self)
        ensures
            e@ == failure@.absorbed(),
    {
        match failure {
            Failure::JsonData(text) => MessageError::HttpRequestError(None, text),
            Failure::JsonSyntax(text) => MessageError::HttpRequestError(None, text),
            Failure::Infallible => MessageError::HttpRequestError(
                None,
                MESSAGE_INFALLIBLE.to_string(),
            ),
            Failure::Multipart(text) => MessageError::HttpRequestError(None, text),
            Failure::InvalidUri(text) => MessageError::HttpRequestError(None, text),
            Failure::Json(text) => MessageError::HttpRequestError(None, text),
            Failure::Http(text) => MessageError::HttpRequestError(None, text),
            Failure::Rejection(kind, text) => MessageError::HttpRequestError(Some(kind.code()), text),
            Failure::Engine(text) => MessageError::HttpRequestError(None, text),
        }
    }

    /// The status the error shows at the HTTP boundary.
    pub fn status(&self) -> (status: i32)
        ensures
            status == self@.status(),
    {
        match self {
            MessageError::HttpRequestError(code, _) => match code {
                Some(code) => *code,
                None => CODE_SERVER_ERROR,
            },
            MessageError::Common(_) => CODE_SERVER_ERROR,
        }
    }

    /// The failure envelope that reports the error: its status as the code,
    /// its message, and no data.
    pub fn into_response(self) -> (r: BaseResponse<String>)
        ensures
            r.code == self@.envelope_code(),
            r.message@ == self@.message(),
            r.data is None,
            self@.status() != 200 ==> r.code != 200 && r.wf(),
    {
        let (status, error_message) = match self {
            MessageError::HttpRequestError(code, msg) => {
                let status = match code {
                    Some(code) => code,
                    None => CODE_SERVER_ERROR,
                };
                (status, msg)
            },
            MessageError::Common(msg) => (CODE_SERVER_ERROR, msg),
        };
        proof {
            lemma_cast_reads_unsigned(status);
        }
        api_resp_fail::<String>(status as u32, error_message.as_str()).unwrap()
    }
}

/// A cast of a status to 32 unsigned bits reads it as `unsigned` says.
pub proof fn lemma_cast_reads_unsigned(status: i32)
    ensures
        status as u32 == unsigned(status),
{
    assert(status >= 0i32 ==> (status as u32) as i64 == status as i64) by (bit_vector);
    assert(status < 0i32 ==> (status as u32) as i64 == (status as i64) + 0x1_0000_0000i64)
        by (bit_vector);
}

/// Reading a status as an unsigned number maps no other status to 200.
pub proof fn lemma_code_keeps_success_apart(status: i32)
    ensures
        unsigned(status) == 200 <==> status == 200,
{
}

} // verus!
