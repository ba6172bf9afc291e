//! Ingestion: what becomes of each part of a multipart upload.
//!
//! The transport reads the request and the store keeps the files; both lie
//! outside this crate. Between their steps stand three decisions, one after
//! each thing that the outside can report: that a part has arrived, that its
//! body has been read, that the store has answered.

use crate::file::{text_view, FileData, FileView};
use crate::reply::{insert_failed, to_listing, Reply, ReplyView};
use vstd::prelude::*;
use vstd::string::*;

verus! {

/// What [`PartHeader`] holds.
pub struct HeaderView {
    pub field_name: Option<Seq<char>>,
    pub file_name: Option<Seq<char>>,
    pub content_type: Option<Seq<char>>,
}

/// What a part of a multipart body declares of itself before its payload.
#[derive(Debug)]
pub struct PartHeader {
    pub field_name: Option<String>,
    pub file_name: Option<String>,
    pub content_type: Option<String>,
}

impl View for PartHeader {
    type V = HeaderView;

    open spec fn view(&self) -> HeaderView {
        HeaderView {
            field_name: text_view(self.field_name),
            file_name: text_view(self.file_name),
            content_type: text_view(self.content_type),
        }
    }
}

/// What a [`TransportError`] holds.
pub struct TransportErrorView {
    pub status: u16,
    pub text: Seq<char>,
}

/// A failure of the transport to read the request, with the status and the
/// message that the transport itself gives for it.
#[derive(Debug)]
pub struct TransportError {
    pub status: u16,
    pub text: String,
}

impl View for TransportError {
    type V = TransportErrorView;

    open spec fn view(&self) -> TransportErrorView {
        TransportErrorView { status: self.status, text: self.text@ }
    }
}

impl TransportErrorView {
    /// The reply that hands the transport's status and message on.
    pub open spec fn reply(self) -> ReplyView {
        ReplyView::Rejected { status: self.status, text: self.text }
    }
}

impl TransportError {
    /// Turns the failure into the reply that reports it.
    pub fn into_reply(self) -> (reply: Reply)
        ensures
            reply@ == self@.reply(),
    {
        Reply::Rejected { status: self.status, text: self.text }
    }
}

/// Why a part is passed over. Neither is an error.
#[derive(Clone, Copy, Debug, PartialEq, Eq, Structural)]
pub enum Skip {
    /// The part's field name is not `file`.
    OtherField,
    /// The part declares no file name.
    NoFileName,
}

/// The field name under which files are uploaded.
pub open spec fn file_field() -> Seq<char> {
    "file"@
}

impl HeaderView {
    /// Why the part is passed over, if it is: a part qualifies when its
    /// field name is exactly `file` and it declares a file name.
    pub open spec fn skip(self) -> Option<Skip> {
        if self.field_name != Some(file_field()) {
            Some(Skip::OtherField)
        } else if self.file_name.is_none() {
            Some(Skip::NoFileName)
        } else {
            None
        }
    }

    /// Whether the part is stored as a file.
    pub open spec fn qualifies(self) -> bool {
        self.skip().is_none()
    }
}

/// What the transport reports when asked for the next part.
#[derive(Debug)]
pub enum Arrival {
    /// The body has no further part.
    End,
    /// The next part could not be read.
    Broken(TransportError),
    /// A part has arrived.
    Part(PartHeader),
}

/// What an [`Arrival`] holds.
pub enum ArrivalView {
    End,
    Broken(TransportErrorView),
    Part(HeaderView),
}

impl View for Arrival {
    type V = ArrivalView;

    open spec fn view(&self) -> ArrivalView {
        match self {
            Arrival::End => ArrivalView::End,
            Arrival::Broken(error) => ArrivalView::Broken(error@),
            Arrival::Part(header) => ArrivalView::Part(header@),
        }
    }
}

/// A part that has been accepted: what is kept of its header until its body
/// is read.
#[derive(Debug)]
pub struct Accepted {
    pub name: String,
    pub content_type: Option<String>,
}

/// What an [`Accepted`] holds.
pub struct AcceptedView {
    pub name: Seq<char>,
    pub content_type: Option<Seq<char>>,
}

impl View for Accepted {
    type V = AcceptedView;

    open spec fn view(&self) -> AcceptedView {
        AcceptedView { name: self.name@, content_type: text_view(self.content_type) }
    }
}

/// What to do once the transport has reported on the next part.
#[derive(Debug)]
pub enum AfterArrival {
    /// Send the reply; the request is over.
    Finish(Reply),
    /// Pass the part over and ask for the next.
    Skip(Skip),
    /// Read the part's body.
    Read(Accepted),
}

/// What an [`AfterArrival`] holds.
pub enum AfterArrivalView {
    Finish(ReplyView),
    Skip(Skip),
    Read(AcceptedView),
}

impl View for AfterArrival {
    type V = AfterArrivalView;

    open spec fn view(&self) -> AfterArrivalView {
        match self {
            AfterArrival::Finish(reply) => AfterArrivalView::Finish(reply@),
            AfterArrival::Skip(skip) => AfterArrivalView::Skip(*skip),
            AfterArrival::Read(accepted) => AfterArrivalView::Read(accepted@),
        }
    }
}

/// The decision on an arrival: the end of the body ends the request with
/// the redirect to the listing, a broken part ends it with the transport's
/// own report, a part that does not qualify is passed over, and the body of
/// one that does is read next.
pub open spec fn after_arrival(arrival: ArrivalView) -> AfterArrivalView {
    match arrival {
        ArrivalView::End => AfterArrivalView::Finish(to_listing()),
        ArrivalView::Broken(error) => AfterArrivalView::Finish(error.reply()),
        ArrivalView::Part(header) => match header.skip() {
            Some(skip) => AfterArrivalView::Skip(skip),
            None => AfterArrivalView::Read(
                AcceptedView { name: header.file_name.unwrap(), content_type: header.content_type },
            ),
        },
    }
}

/// The file that an accepted part and its body make.
pub open spec fn file_of(accepted: AcceptedView, data: Seq<u8>) -> FileView {
    FileView { name: accepted.name, content_type: accepted.content_type, data }
}

/// What to do once the body of an accepted part has been read, or could not
/// be.
#[derive(Debug)]
pub enum AfterBody {
    /// Send the reply; the request is over.
    Finish(Reply),
    /// Store the file.
    Store(FileData),
}

/// What an [`AfterBody`] holds.
pub enum AfterBodyView {
    Finish(ReplyView),
    Store(FileView),
}

impl View for AfterBody {
    type V = AfterBodyView;

    open spec fn view(&self) -> AfterBodyView {
        match self {
            AfterBody::Finish(reply) => AfterBodyView::Finish(reply@),
            AfterBody::Store(file) => AfterBodyView::Store(file@),
        }
    }
}

/// A body as it was read, or the failure to read it.
pub open spec fn body_view(body: Result<Vec<u8>, TransportError>) -> Result<
    Seq<u8>,
    TransportErrorView,
> {
    match body {
        Ok(data) => Ok(data@),
        Err(error) => Err(error@),
    }
}

/// The decision on a body: the bytes are stored under the part's file name
/// and content type, all three unchanged; a body that could not be read
/// ends the request with the transport's own report.
pub open spec fn after_body(
    accepted: AcceptedView,
    body: Result<Seq<u8>, TransportErrorView>,
) -> AfterBodyView {
    match body {
        Ok(data) => AfterBodyView::Store(file_of(accepted, data)),
        Err(error) => AfterBodyView::Finish(error.reply()),
    }
}

/// The decision on the store's answer: after a file is stored the next part
/// is asked for, so there is no reply yet; a failure ends the request.
pub open spec fn after_store(name: Seq<char>, stored: bool) -> Option<ReplyView> {
    if stored {
        None
    } else {
        Some(insert_failed(name))
    }
}

/// Whether `name` is the field name under which files are uploaded.
fn names_file_field(name: &Option<String>) -> (is_file: bool)
    ensures
        is_file == (text_view(*name) == Some(file_field())),
{
    match name {
        Some(name) => {
            let expected = String::from_str("file");
            *name == expected
        },
        None => false,
    }
}

/// Decides what to do once the transport has reported on the next part.
pub fn on_arrival(arrival: Arrival) -> (next: AfterArrival)
    ensures
        next@ == after_arrival(arrival@),
{
    match arrival {
        Arrival::End => AfterArrival::Finish(Reply::to_listing()),
        Arrival::Broken(error) => AfterArrival::Finish(error.into_reply()),
        Arrival::Part(header) => {
            if !names_file_field(&header.field_name) {
                AfterArrival::Skip(Skip::OtherField)
            } else {
                match header.file_name {
                    None => AfterArrival::Skip(Skip::NoFileName),
                    Some(name) => AfterArrival::Read(
                        Accepted { name, content_type: header.content_type },
                    ),
                }
            }
        },
    }
}

/// Decides what to do once the body of an accepted part has been read, or
/// could not be.
pub fn on_body(accepted: Accepted, body: Result<Vec<u8>, TransportError>) -> (next: AfterBody)
    ensures
        next@ == after_body(accepted@, body_view(body)),
{
    match body {
        Ok(data) => AfterBody::Store(FileData::new(accepted.name, accepted.content_type, data)),
        Err(error) => AfterBody::Finish(error.into_reply()),
    }
}

/// Decides what to do once the store has answered: `None` asks for the next
/// part.
pub fn on_store(name: &str, stored: bool) -> (reply: Option<Reply>)
    ensures
        crate::reply::reply_view(reply) == after_store(name@, stored),
{
    if stored {
        None
    } else {
        Some(Reply::insert_failed(name))
    }
}

} // verus!
