//! The reply to a request for one of the static files of the client
//! application.
//!
//! Finding the file and writing the reply are the caller's; which status,
//! media type and body the reply has is decided here.

use vstd::prelude::*;

verus! {

/// The file served at the root path.
pub const INDEX_PAGE: &'static str = "index.html";

/// The file served at each role's page.
pub const APP_PAGE: &'static str = "app.html";

/// The body of the reply for a file that does not exist.
pub const NOT_FOUND_TEXT: &'static str = "404 Not Found";

/// The reply to a request for a static file.
#[derive(Debug)]
pub enum StaticReply {
    /// The file exists: its bytes, and the media type to announce them with.
    Found { media_type: String, data: Vec<u8> },
    /// There is no such file.
    NotFound,
}

/// The media type that `mime_guess` assigns to `path` by its extension, with
/// `application/octet-stream` where it knows none: a table of many pages.
pub uninterp spec fn media_type_of(path: Seq<char>) -> Seq<char>;

/// Calls `mime_guess::from_path(path).first_or_octet_stream()` and renders
/// the media type as text.
///
/// Trusted: that the result is the media type that the crate's table gives
/// for `path`, which depends on nothing but the path.
#[verifier::external_body]
fn guess_media_type(path: &str) -> (media_type: String)
    ensures
        media_type@ == media_type_of(path@),
{
    mime_guess::from_path(path).first_or_octet_stream().as_ref().to_string()
}

impl StaticReply {
    /// The status code of the reply.
    pub open spec fn spec_status(&self) -> u16 {
        match self {
            StaticReply::Found { .. } => 200,
            StaticReply::NotFound => 404,
        }
    }

    /// The status code of the reply: 200 for a file, 404 for none.
    #[verifier::when_used_as_spec(spec_status)]
    pub fn status(&self) -> (code: u16)
        ensures
            code == self.spec_status(),
    {
        match self {
            StaticReply::Found { .. } => 200,
            StaticReply::NotFound => 404,
        }
    }
}

/// The reply for a file that exists: its bytes as they are, announced as
/// `media_type`.
pub fn found(media_type: String, data: Vec<u8>) -> (reply: StaticReply)
    ensures
        reply == (StaticReply::Found { media_type, data }),
{
    StaticReply::Found { media_type, data }
}

/// The reply to a request for the file at `path`, of which the caller found
/// `content`: the bytes with the media type guessed from the path's
/// extension, or the notice that there is no such file.
pub fn static_reply(path: &str, content: Option<Vec<u8>>) -> (reply: StaticReply)
    ensures
        match content {
            Some(data) => reply matches StaticReply::Found { media_type, data: body }
                && media_type@ == media_type_of(path@) && body == data,
            None => reply == StaticReply::NotFound,
        },
{
    match content {
        Some(data) => found(guess_media_type(path), data),
        None => StaticReply::NotFound,
    }
}

} // verus!
