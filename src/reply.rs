use vstd::prelude::*;

verus! {

/// HTTP status of a page that rendered.
pub const STATUS_OK: u16 = 200;

/// HTTP status of any handler failure.
pub const STATUS_INTERNAL_SERVER_ERROR: u16 = 500;

/// A failure inside a request handler (database, rendering, I/O), kept as
/// its textual description.
pub struct AppError {
    pub message: String,
}

/// The status and body a handler answers with.
pub struct Reply {
    pub status: u16,
    pub body: String,
}

impl AppError {
    /// Wraps the description of an underlying error.
    pub fn new(message: String) -> (r: AppError)
        ensures
            r.message == message,
    {
        AppError { message }
    }

    /// Every handler error answers 500, with the error's description as body.
    pub fn into_reply(self) -> (r: Reply)
        ensures
            r.status == STATUS_INTERNAL_SERVER_ERROR,
            r.body == self.message,
    {
        Reply { status: STATUS_INTERNAL_SERVER_ERROR, body: self.message }
    }
}

/// The reply of a page handler: the rendered page with 200, or the error's
/// reply when rendering failed.
pub fn page_reply(rendered: Result<String, AppError>) -> (r: Reply)
    ensures
        match rendered {
            Ok(html) => r.status == STATUS_OK && r.body == html,
            Err(e) => r.status == STATUS_INTERNAL_SERVER_ERROR && r.body == e.message,
        },
{
    match rendered {
        Ok(html) => Reply { status: STATUS_OK, body: html },
        Err(e) => e.into_reply(),
    }
}

} // verus!
