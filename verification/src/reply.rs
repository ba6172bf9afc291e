//! Replies: every way a request can end, and the status that goes with each.

use crate::decimal::{int_text, push_int};
use crate::file::{Download, DownloadView};
use vstd::prelude::*;
use vstd::string::*;

verus! {

/// The status of a redirect to another view.
pub const SEE_OTHER: u16 = 303;

/// The status of a reply that carries what was asked for.
pub const OK: u16 = 200;

/// The status of a reply to a request for a file that is not stored.
pub const NOT_FOUND: u16 = 404;

/// The status of a reply to a request on which the store failed.
pub const INTERNAL_SERVER_ERROR: u16 = 500;

/// What a [`Reply`] holds.
pub enum ReplyView {
    Redirect { location: Seq<char> },
    File(DownloadView),
    Page { html: Seq<char> },
    NotFound,
    Rejected { status: u16, text: Seq<char> },
    Failed { message: Seq<char> },
}

/// How a request ends.
#[derive(Debug)]
pub enum Reply {
    /// The request was carried out; the client is sent on to `location`.
    Redirect { location: String },
    /// The file that was asked for.
    File(Download),
    /// A rendered page.
    Page { html: String },
    /// No file is stored under the identifier: an empty reply, not an error.
    NotFound,
    /// The transport could not read the request: its own status and message.
    Rejected { status: u16, text: String },
    /// The store or the renderer failed.
    Failed { message: String },
}

impl View for Reply {
    type V = ReplyView;

    open spec fn view(&self) -> ReplyView {
        match self {
            Reply::Redirect { location } => ReplyView::Redirect { location: location@ },
            Reply::File(download) => ReplyView::File(download@),
            Reply::Page { html } => ReplyView::Page { html: html@ },
            Reply::NotFound => ReplyView::NotFound,
            Reply::Rejected { status, text } => ReplyView::Rejected { status: *status, text: text@ },
            Reply::Failed { message } => ReplyView::Failed { message: message@ },
        }
    }
}

impl ReplyView {
    /// The status that a reply is sent with.
    pub open spec fn status(self) -> u16 {
        match self {
            ReplyView::Redirect { .. } => SEE_OTHER,
            ReplyView::File(_) => OK,
            ReplyView::Page { .. } => OK,
            ReplyView::NotFound => NOT_FOUND,
            ReplyView::Rejected { status, .. } => status,
            ReplyView::Failed { .. } => INTERNAL_SERVER_ERROR,
        }
    }
}

/// A reply that may not have been decided yet.
pub open spec fn reply_view(reply: Option<Reply>) -> Option<ReplyView> {
    match reply {
        Some(reply) => Some(reply@),
        None => None,
    }
}

/// The redirect to the listing, which ends every request that changed the
/// store.
pub open spec fn to_listing() -> ReplyView {
    ReplyView::Redirect { location: "/"@ }
}

/// The failure reported when the file called `name` could not be stored.
pub open spec fn insert_failed(name: Seq<char>) -> ReplyView {
    ReplyView::Failed { message: "Inserting `"@ + name + "` to db failed"@ }
}

/// The failure reported when the file `id` could not be deleted.
pub open spec fn delete_failed(id: int) -> ReplyView {
    ReplyView::Failed { message: "Deleting `"@ + int_text(id) + "` from db failed"@ }
}

/// The failure reported when the file `id` could not be looked up.
pub open spec fn query_failed(id: int) -> ReplyView {
    ReplyView::Failed { message: "Querying for `"@ + int_text(id) + "` from db failed"@ }
}

/// The reply that carries a page, or reports that it could not be rendered.
pub open spec fn page_of(rendered: Option<Seq<char>>) -> ReplyView {
    match rendered {
        Some(html) => ReplyView::Page { html },
        None => ReplyView::Failed { message: Seq::<char>::empty() },
    }
}

/// Whether a status reports a failure, of the client or of the server.
pub open spec fn error_status(status: u16) -> bool {
    400 <= status < 600
}

/// Whether a status reports a failure, and so is logged as an error.
pub fn is_error_status(status: u16) -> (error: bool)
    ensures
        error == error_status(status),
{
    400 <= status && status < 600
}

impl Reply {
    /// The status that the reply is sent with.
    pub fn status(&self) -> (status: u16)
        ensures
            status == self@.status(),
    {
        match self {
            Reply::Redirect { .. } => SEE_OTHER,
            Reply::File(_) => OK,
            Reply::Page { .. } => OK,
            Reply::NotFound => NOT_FOUND,
            Reply::Rejected { status, .. } => *status,
            Reply::Failed { .. } => INTERNAL_SERVER_ERROR,
        }
    }

    /// The redirect to the listing.
    pub fn to_listing() -> (reply: Reply)
        ensures
            reply@ == to_listing(),
    {
        Reply::Redirect { location: String::from_str("/") }
    }

    /// The failure to store the file called `name`.
    pub fn insert_failed(name: &str) -> (reply: Reply)
        ensures
            reply@ == insert_failed(name@),
    {
        let mut message = String::from_str("Inserting `");
        message.append(name);
        message.append("` to db failed");
        Reply::Failed { message }
    }

    /// The failure to delete the file `id`.
    pub fn delete_failed(id: i64) -> (reply: Reply)
        ensures
            reply@ == delete_failed(id as int),
    {
        let mut message = String::from_str("Deleting `");
        push_int(&mut message, id);
        message.append("` from db failed");
        Reply::Failed { message }
    }

    /// The failure to look up the file `id`.
    pub fn query_failed(id: i64) -> (reply: Reply)
        ensures
            reply@ == query_failed(id as int),
    {
        let mut message = String::from_str("Querying for `");
        push_int(&mut message, id);
        message.append("` from db failed");
        Reply::Failed { message }
    }

    /// The reply that carries a rendered page; without one, the failure to
    /// render it, which has an empty body.
    pub fn page(rendered: Option<String>) -> (reply: Reply)
        ensures
            reply@ == page_of(crate::file::text_view(rendered)),
    {
        match rendered {
            Some(html) => Reply::Page { html },
            None => Reply::Failed { message: String::new() },
        }
    }
}

} // verus!
