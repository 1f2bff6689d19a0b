use vstd::prelude::*;
use vstd::string::StringExecFns;

verus! {

/// The content type of the pages of the site.
pub const CONTENT_TYPE_HTML: &'static str = "text/html; charset=utf-8";

/// The content type of the feed.
pub const CONTENT_TYPE_XML: &'static str = "text/xml; charset=utf-8";

/// The body of the page that is shown where the site has no page of its
/// own for what was not found.
pub const DEFAULT_NOT_FOUND: &'static str = "<h1>404 Page not found</h1><p>Ironic I know</p>";

/// The outcome of a request, as the client is told.
#[derive(Debug, Clone, Copy, PartialEq, Eq)]
pub enum Status {
    /// The request was served.
    Success,
    /// What was submitted cannot be taken as an article.
    BadRequest,
    /// The page, or something that it is made of, is not there.
    NotFound,
    /// The credentials of a submission are not the administrator's.
    MethodNotAllowed,
    /// The list of articles could not be written.
    InternalServerError,
}

/// The number that HTTP gives to a status.
pub open spec fn status_code(status: Status) -> nat {
    match status {
        Status::Success => 200,
        Status::BadRequest => 400,
        Status::NotFound => 404,
        Status::MethodNotAllowed => 405,
        Status::InternalServerError => 500,
    }
}

impl Status {
    /// The number that HTTP gives to this status.
    pub fn code(&self) -> (code: u16)
        ensures
            code == status_code(*self),
    {
        match self {
            Status::Success => 200,
            Status::BadRequest => 400,
            Status::NotFound => 404,
            Status::MethodNotAllowed => 405,
            Status::InternalServerError => 500,
        }
    }
}

/// What is sent back for a request: a status, and a body with its type.
#[derive(Debug, Clone)]
pub struct Response {
    /// How the request went.
    pub status: Status,
    /// The media type of `body`.
    pub content_type: String,
    /// What the client is shown.
    pub body: String,
}

/// Whether `response` is what `page` answers with `body`.
pub open spec fn is_page(response: Response, body: Seq<char>) -> bool {
    &&& response.status == Status::Success
    &&& response.content_type@ == CONTENT_TYPE_HTML@
    &&& response.body@ == body
}

/// Whether `response` is what `document` answers with `body`.
pub open spec fn is_document(response: Response, body: Seq<char>) -> bool {
    &&& response.status == Status::Success
    &&& response.content_type@ == CONTENT_TYPE_XML@
    &&& response.body@ == body
}

/// Whether `response` is what `not_found` answers where the site's own
/// not-found page is `custom_page`.
pub open spec fn is_not_found(response: Response, custom_page: Option<String>) -> bool {
    &&& response.status == Status::NotFound
    &&& response.content_type@ == CONTENT_TYPE_HTML@
    &&& response.body@ == match custom_page {
        Some(page) => page@,
        None => DEFAULT_NOT_FOUND@,
    }
}

/// Answers with an HTML page.
pub fn page(body: String) -> (response: Response)
    ensures
        is_page(response, body@),
{
    Response { status: Status::Success, content_type: String::from_str(CONTENT_TYPE_HTML), body }
}

/// Answers with an XML document.
pub fn document(body: String) -> (response: Response)
    ensures
        is_document(response, body@),
{
    Response { status: Status::Success, content_type: String::from_str(CONTENT_TYPE_XML), body }
}

/// Answers that something was not found. Every failure to build a page
/// ends here, whatever its cause: the client is shown the site's own
/// not-found page, `custom_page`, or the default page where the site has
/// none.
pub fn not_found(custom_page: Option<String>) -> (response: Response)
    ensures
        is_not_found(response, custom_page),
{
    let body = match custom_page {
        Some(page) => page,
        None => String::from_str(DEFAULT_NOT_FOUND),
    };
    Response { status: Status::NotFound, content_type: String::from_str(CONTENT_TYPE_HTML), body }
}

} // verus!
