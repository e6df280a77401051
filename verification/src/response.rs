//! The answers the service gives: a status, a content type and a body.

use vstd::prelude::*;

verus! {

/// Status of an answer that carries what was asked for.
pub const STATUS_OK: u16 = 200;

/// Status of the answer to a request that lacks its `email` parameter.
pub const STATUS_BAD_REQUEST: u16 = 400;

/// Status of the answer to a request whose store operation failed.
pub const STATUS_INTERNAL_SERVER_ERROR: u16 = 500;

/// Body of the answer to a request that lacks its `email` parameter.
pub const INVALID_REQUEST: &'static str = "Invalid request";

/// Body of the answer to a request whose store operation failed.
pub const STORE_FAILURE: &'static str = "Internal server error";

/// The page shown after a click was stored. It is the same for every
/// visitor and carries nothing of the request.
pub const LANDING_DOCUMENT: &'static str = r#"
        <!DOCTYPE html>
        <html>
        <head>
            <title>Free Ride Promotion</title>
            <style>
                body { font-family: Arial, sans-serif; max-width: 600px; margin: 0 auto; padding: 20px; }
                .security-notice { margin-top: 30px; padding: 15px; background-color: #f5f5f5; border-radius: 5px; }
            </style>
        </head>
        <body>
            <h1>Security Awareness Training</h1>
            <p>This was a phishing simulation test conducted by your IT security team.</p>
            <div class="security-notice">
                <p><strong>Important:</strong> Your click has been recorded for training purposes.</p>
                <p>Remember to always verify the sender and be cautious about clicking links in emails, 
                   especially those offering promotions or requesting urgent action.</p>
            </div>
            <p>Thank you for participating in this security awareness exercise.</p>
        </body>
        </html>
    "#;

/// The media type of a body.
#[derive(Debug, Clone, Copy, PartialEq, Eq, Structural)]
pub enum ContentType {
    Html,
    PlainText,
}

impl ContentType {
    /// The media type as it stands in a `Content-Type` header.
    pub open spec fn mime(self) -> Seq<char> {
        match self {
            ContentType::Html => "text/html"@,
            ContentType::PlainText => "text/plain"@,
        }
    }

    /// The media type as it stands in a `Content-Type` header.
    pub fn as_str(&self) -> (text: &'static str)
        ensures
            text@ == self.mime(),
    {
        match self {
            ContentType::Html => "text/html",
            ContentType::PlainText => "text/plain",
        }
    }
}

/// An answer to one request.
#[derive(Debug, PartialEq, Eq)]
pub struct Response {
    pub status: u16,
    pub content_type: ContentType,
    pub body: String,
}

/// The mathematical content of a [`Response`].
pub struct ResponseView {
    pub status: u16,
    pub content_type: ContentType,
    pub body: Seq<char>,
}

impl View for Response {
    type V = ResponseView;

    open spec fn view(&self) -> ResponseView {
        ResponseView { status: self.status, content_type: self.content_type, body: self.body@ }
    }
}

/// The answer to a request that lacks its `email` parameter.
pub open spec fn invalid_request_view() -> ResponseView {
    ResponseView {
        status: STATUS_BAD_REQUEST,
        content_type: ContentType::PlainText,
        body: INVALID_REQUEST@,
    }
}

/// The answer to a visit whose click was stored.
pub open spec fn landing_document_view() -> ResponseView {
    ResponseView { status: STATUS_OK, content_type: ContentType::Html, body: LANDING_DOCUMENT@ }
}

/// The answer to a request whose store operation failed.
pub open spec fn store_failure_view() -> ResponseView {
    ResponseView {
        status: STATUS_INTERNAL_SERVER_ERROR,
        content_type: ContentType::PlainText,
        body: STORE_FAILURE@,
    }
}

/// The answer that carries `body` as plain text.
pub open spec fn plain_text_view(body: Seq<char>) -> ResponseView {
    ResponseView { status: STATUS_OK, content_type: ContentType::PlainText, body }
}

impl Response {
    /// The answer to a request that lacks its `email` parameter.
    pub fn invalid_request() -> (response: Response)
        ensures
            response@ == invalid_request_view(),
    {
        Response {
            status: STATUS_BAD_REQUEST,
            content_type: ContentType::PlainText,
            body: String::from_str(INVALID_REQUEST),
        }
    }

    /// The answer to a visit whose click was stored.
    pub fn landing_document() -> (response: Response)
        ensures
            response@ == landing_document_view(),
    {
        Response {
            status: STATUS_OK,
            content_type: ContentType::Html,
            body: String::from_str(LANDING_DOCUMENT),
        }
    }

    /// The answer to a request whose store operation failed.
    pub fn store_failure() -> (response: Response)
        ensures
            response@ == store_failure_view(),
    {
        Response {
            status: STATUS_INTERNAL_SERVER_ERROR,
            content_type: ContentType::PlainText,
            body: String::from_str(STORE_FAILURE),
        }
    }

    /// The answer that carries `body` as plain text.
    pub fn plain_text(body: String) -> (response: Response)
        ensures
            response@ == plain_text_view(body@),
    {
        Response { status: STATUS_OK, content_type: ContentType::PlainText, body }
    }
}

} // verus!
