use vstd::prelude::*;
use vstd::string::*;

verus! {

/// Status of a successful render.
pub const STATUS_OK: u16 = 200;

/// Status of a request that was refused before any browser interaction.
pub const STATUS_UNPROCESSABLE: u16 = 422;

/// Status of a request on which a browser interaction failed.
pub const STATUS_INTERNAL_ERROR: u16 = 500;

/// The ways in which a request can fail.
#[derive(Clone, Copy, Debug, PartialEq, Eq, Structural)]
pub enum FailureKind {
    /// A required parameter is missing or malformed.
    Validation,
    /// The backend could not open a tab.
    BackendUnavailable,
    /// Navigating, or waiting for the page to load, failed.
    Navigation,
    /// Printing or capturing the page failed.
    Capture,
}

impl FailureKind {
    /// The status a failure of this kind is answered with.
    pub open spec fn status_code(self) -> u16 {
        match self {
            FailureKind::Validation => STATUS_UNPROCESSABLE,
            _ => STATUS_INTERNAL_ERROR,
        }
    }

    /// The status a failure of this kind is answered with: 422 where the
    /// request was refused, 500 where the backend failed.
    pub fn status(&self) -> (code: u16)
        ensures
            code == self.status_code(),
    {
        match self {
            FailureKind::Validation => STATUS_UNPROCESSABLE,
            _ => STATUS_INTERNAL_ERROR,
        }
    }
}

/// A failed request: what went wrong and the message shown to the client.
#[derive(Debug, PartialEq, Eq)]
pub struct Failure {
    pub kind: FailureKind,
    pub message: String,
}

/// Mathematical model of a failure.
pub struct FailureView {
    pub kind: FailureKind,
    pub message: Seq<char>,
}

impl View for Failure {
    type V = FailureView;

    open spec fn view(&self) -> FailureView {
        FailureView { kind: self.kind, message: self.message@ }
    }
}

impl Failure {
    /// A failure whose message is `prefix` followed by the underlying cause.
    pub fn new(kind: FailureKind, prefix: &str, cause: &str) -> (f: Failure)
        ensures
            f@ == (FailureView { kind, message: prefix@ + cause@ }),
    {
        Failure { kind, message: prefix.to_owned().concat(cause) }
    }

    /// The response that reports this failure.
    pub fn into_response(self) -> (r: Response)
        ensures
            r@ == self@.response(),
    {
        Response { status: self.kind.status(), content_type: None, body: Body::Text(self.message) }
    }
}

impl FailureView {
    /// The response that reports this failure: its kind's status, with the
    /// message as the body and no content type.
    pub open spec fn response(self) -> ResponseView {
        ResponseView {
            status: self.kind.status_code(),
            content_type: None,
            body: BodyView::Text(self.message),
        }
    }
}

/// Payload of a response: rendered bytes, or the text of an error.
#[derive(Debug, PartialEq, Eq)]
pub enum Body {
    Bytes(Vec<u8>),
    Text(String),
}

/// Mathematical model of a body.
pub enum BodyView {
    Bytes(Seq<u8>),
    Text(Seq<char>),
}

impl View for Body {
    type V = BodyView;

    open spec fn view(&self) -> BodyView {
        match self {
            Body::Bytes(b) => BodyView::Bytes(b@),
            Body::Text(t) => BodyView::Text(t@),
        }
    }
}

/// What a handler answers with.
#[derive(Debug, PartialEq, Eq)]
pub struct Response {
    pub status: u16,
    pub content_type: Option<String>,
    pub body: Body,
}

/// Mathematical model of a response.
pub struct ResponseView {
    pub status: u16,
    pub content_type: Option<Seq<char>>,
    pub body: BodyView,
}

impl View for Response {
    type V = ResponseView;

    open spec fn view(&self) -> ResponseView {
        ResponseView {
            status: self.status,
            content_type: match self.content_type {
                Some(t) => Some(t@),
                None => None,
            },
            body: self.body@,
        }
    }
}

/// The response that delivers rendered bytes.
pub open spec fn rendered(content_type: Option<Seq<char>>, bytes: Seq<u8>) -> ResponseView {
    ResponseView { status: STATUS_OK, content_type, body: BodyView::Bytes(bytes) }
}

impl Response {
    /// A successful response carrying `bytes`, labelled with `content_type`
    /// where one is given.
    pub fn rendered(content_type: Option<&str>, bytes: Vec<u8>) -> (r: Response)
        ensures
            r@ == rendered(
                match content_type {
                    Some(t) => Some(t@),
                    None => None,
                },
                bytes@,
            ),
    {
        let label = match content_type {
            Some(t) => Some(t.to_owned()),
            None => None,
        };
        Response { status: STATUS_OK, content_type: label, body: Body::Bytes(bytes) }
    }
}

} // verus!
