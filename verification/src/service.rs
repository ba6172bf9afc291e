//! The four requests that the service answers: upload, download, deletion
//! and listing.
//!
//! Each is given twice. The decisions (`on_fetch`, `on_delete`,
//! `on_listing`, and those on the parts of an upload) say what follows from
//! an answer of the store, wherever the store is kept. The handlers
//! (`upload_file`, `get_file`, `delete_file`, `index`) carry a whole request
//! out on a [`Store`] in memory.

use crate::file::{download_of, FileData, FileInfo, FileView, InfoView};
use crate::reply::{delete_failed, query_failed, to_listing, Reply, ReplyView};
use crate::store::{infos_view, Store, Table};
use crate::upload::{
    after_arrival, after_body, after_store, body_view, on_arrival, on_body, on_store, AfterArrival,
    AfterArrivalView, AfterBody, AfterBodyView, Arrival, ArrivalView, HeaderView, PartHeader,
    TransportError, TransportErrorView,
};
use vstd::prelude::*;

verus! {

/// What the store answers when asked for a file.
#[derive(Debug)]
pub enum Fetched {
    /// The file stored under the identifier.
    Found(FileData),
    /// No file is stored under the identifier.
    Absent,
    /// The store could not be asked.
    Failed,
}

/// What a [`Fetched`] holds.
pub enum FetchedView {
    Found(FileView),
    Absent,
    Failed,
}

impl View for Fetched {
    type V = FetchedView;

    open spec fn view(&self) -> FetchedView {
        match self {
            Fetched::Found(file) => FetchedView::Found(file@),
            Fetched::Absent => FetchedView::Absent,
            Fetched::Failed => FetchedView::Failed,
        }
    }
}

/// The reply to a request for the file `id`, given the store's answer: the
/// file as a download, "not found" with nothing else for an absent one, and
/// a failure where the store failed.
pub open spec fn after_fetch(id: int, fetched: FetchedView) -> ReplyView {
    match fetched {
        FetchedView::Found(file) => ReplyView::File(download_of(file)),
        FetchedView::Absent => ReplyView::NotFound,
        FetchedView::Failed => query_failed(id),
    }
}

/// The reply to a request to delete the file `id`, given whether the store
/// carried it out: the redirect to the listing, whether or not a file was
/// stored under `id`, and a failure where the store failed.
pub open spec fn after_delete(id: int, done: bool) -> ReplyView {
    if done {
        to_listing()
    } else {
        delete_failed(id)
    }
}

/// The lines that the listing page shows, given the store's answer: none
/// where the store failed.
pub open spec fn after_listing(listing: Option<Seq<InfoView>>) -> Seq<InfoView> {
    match listing {
        Some(infos) => infos,
        None => Seq::empty(),
    }
}

/// Decides the reply to a request for the file `id`.
pub fn on_fetch(id: i64, fetched: Fetched) -> (reply: Reply)
    ensures
        reply@ == after_fetch(id as int, fetched@),
{
    match fetched {
        Fetched::Found(file) => Reply::File(file.into_download()),
        Fetched::Absent => Reply::NotFound,
        Fetched::Failed => Reply::query_failed(id),
    }
}

/// Decides the reply to a request to delete the file `id`.
pub fn on_delete(id: i64, done: bool) -> (reply: Reply)
    ensures
        reply@ == after_delete(id as int, done),
{
    if done {
        Reply::to_listing()
    } else {
        Reply::delete_failed(id)
    }
}

/// The listing page: the lines it shows.
#[derive(Debug)]
pub struct RootPage {
    files: Vec<FileInfo>,
}

impl View for RootPage {
    type V = Seq<InfoView>;

    closed spec fn view(&self) -> Seq<InfoView> {
        infos_view(self.files@)
    }
}

impl RootPage {
    /// The page that shows `files`.
    pub fn new(files: Vec<FileInfo>) -> (page: RootPage)
        ensures
            page@ == infos_view(files@),
    {
        RootPage { files }
    }

    /// The lines that the page shows.
    pub fn files(&self) -> (files: &Vec<FileInfo>)
        ensures
            infos_view(files@) == self@,
    {
        &self.files
    }

    /// Gives up the page for the lines that it shows.
    pub fn into_files(self) -> (files: Vec<FileInfo>)
        ensures
            infos_view(files@) == self@,
    {
        self.files
    }
}

/// A listing that may be missing, as a mathematical value.
pub open spec fn listing_view(listing: Option<Vec<FileInfo>>) -> Option<Seq<InfoView>> {
    match listing {
        Some(infos) => Some(infos_view(infos@)),
        None => None,
    }
}

/// Decides what the listing page shows.
pub fn on_listing(listing: Option<Vec<FileInfo>>) -> (page: RootPage)
    ensures
        page@ == after_listing(listing_view(listing)),
{
    match listing {
        Some(files) => RootPage::new(files),
        None => {
            let page = RootPage::new(Vec::new());
            assert(page@ =~= Seq::<InfoView>::empty());
            page
        },
    }
}

/// One part of a multipart body as the transport delivers it.
#[derive(Debug)]
pub enum Part {
    /// A part that could not be read.
    Broken(TransportError),
    /// A part with its header and its body; the body is read only if the
    /// part qualifies.
    Field { header: PartHeader, body: Result<Vec<u8>, TransportError> },
}

/// What a [`Part`] holds.
pub enum PartView {
    Broken(TransportErrorView),
    Field { header: HeaderView, body: Result<Seq<u8>, TransportErrorView> },
}

impl View for Part {
    type V = PartView;

    open spec fn view(&self) -> PartView {
        match self {
            Part::Broken(error) => PartView::Broken(error@),
            Part::Field { header, body } => PartView::Field { header: header@, body: body_view(*body) },
        }
    }
}

impl PartView {
    /// What the transport reports when the part is asked for.
    pub open spec fn arrival(self) -> ArrivalView {
        match self {
            PartView::Broken(error) => ArrivalView::Broken(error),
            PartView::Field { header, .. } => ArrivalView::Part(header),
        }
    }

    /// The part's body as the transport reads it.
    pub open spec fn body(self) -> Result<Seq<u8>, TransportErrorView> {
        match self {
            PartView::Broken(error) => Err(error),
            PartView::Field { body, .. } => body,
        }
    }

    /// Whether the part is a readable one that is stored as a file.
    pub open spec fn qualifies(self) -> bool {
        match self {
            PartView::Broken(_) => false,
            PartView::Field { header, .. } => header.qualifies(),
        }
    }

    /// Whether the part is a readable one that is passed over.
    pub open spec fn is_skipped(self) -> bool {
        match self {
            PartView::Broken(_) => false,
            PartView::Field { header, .. } => !header.qualifies(),
        }
    }
}

/// What a sequence of parts holds.
pub open spec fn parts_view(parts: Seq<Part>) -> Seq<PartView> {
    Seq::new(parts.len(), |i: int| parts[i]@)
}

/// What one part does to the table, and the reply if the request ends with
/// it: a part that is passed over changes nothing; a qualifying part is
/// stored at once, on its own; a part or a body that cannot be read, or a
/// store that fails, ends the request and leaves what was stored before in
/// place.
pub open spec fn ingest_part(table: Table, part: PartView, now: int) -> (Table, Option<ReplyView>) {
    match after_arrival(part.arrival()) {
        AfterArrivalView::Finish(reply) => (table, Some(reply)),
        AfterArrivalView::Skip(_) => (table, None),
        AfterArrivalView::Read(accepted) => match after_body(accepted, part.body()) {
            AfterBodyView::Finish(reply) => (table, Some(reply)),
            AfterBodyView::Store(file) => if table.exhausted() {
                (table, after_store(file.name, false))
            } else {
                (table.insert(file, now), after_store(file.name, true))
            },
        },
    }
}

/// What an upload does to the table, and its reply: the parts are taken in
/// the order of their arrival, up to the first that ends the request; when
/// none does, the reply is the redirect to the listing.
pub open spec fn ingest(table: Table, parts: Seq<PartView>, now: int) -> (Table, ReplyView)
    decreases parts.len(),
{
    if parts.len() == 0 {
        (table, to_listing())
    } else {
        let (next, reply) = ingest_part(table, parts[0], now);
        match reply {
            Some(reply) => (next, reply),
            None => ingest(next, parts.subrange(1, parts.len() as int), now),
        }
    }
}

/// Carries out one part of an upload.
fn store_part(store: &mut Store, part: Part, now: i64) -> (reply: Option<Reply>)
    requires
        old(store).wf(),
    ensures
        final(store).wf(),
        (final(store)@, crate::reply::reply_view(reply)) == ingest_part(
            old(store)@,
            part@,
            now as int,
        ),
{
    let (arrival, body) = match part {
        Part::Broken(error) => (Arrival::Broken(error), None),
        Part::Field { header, body } => (Arrival::Part(header), Some(body)),
    };
    match on_arrival(arrival) {
        AfterArrival::Finish(reply) => Some(reply),
        AfterArrival::Skip(_) => None,
        AfterArrival::Read(accepted) => match body {
            None => None,
            Some(body) => match on_body(accepted, body) {
                AfterBody::Finish(reply) => Some(reply),
                AfterBody::Store(file) => {
                    let name = file.name().to_owned();
                    let stored = store.insert(file, now).is_some();
                    on_store(name.as_str(), stored)
                },
            },
        },
    }
}

/// Takes an upload in: every qualifying part becomes a stored file, in the
/// order of arrival.
pub fn upload_file(store: &mut Store, parts: Vec<Part>, now: i64) -> (reply: Reply)
    requires
        old(store).wf(),
    ensures
        final(store).wf(),
        (final(store)@, reply@) == ingest(old(store)@, parts_view(parts@), now as int),
{
    let ghost all = parts_view(parts@);
    let ghost total = all.len() as int;
    let mut rest = parts;
    let mut taken: Vec<Part> = Vec::new();
    while rest.len() > 0
        invariant
            total == all.len(),
            rest.len() + taken.len() == total,
            forall|k: int| 0 <= k < rest.len() ==> (#[trigger] rest[k])@ == all[k],
            forall|k: int| 0 <= k < taken.len() ==> (#[trigger] taken[k])@ == all[total - 1 - k],
        decreases rest.len(),
    {
        let part = rest.pop().unwrap();
        taken.push(part);
    }
    let ghost mut done: int = 0;
    assert(all.subrange(0, total) =~= all);
    while taken.len() > 0
        invariant
            store.wf(),
            all == parts_view(parts@),
            total == all.len(),
            0 <= done,
            done + taken.len() == total,
            forall|k: int| 0 <= k < taken.len() ==> (#[trigger] taken[k])@ == all[total - 1 - k],
            ingest(old(store)@, all, now as int) == ingest(
                store@,
                all.subrange(done, total),
                now as int,
            ),
        decreases taken.len(),
    {
        let ghost before = store@;
        let ghost pending = all.subrange(done, total);
        let part = taken.pop().unwrap();
        assert(part@ == pending[0]);
        assert(pending.subrange(1, pending.len() as int) =~= all.subrange(done + 1, total));
        match store_part(store, part, now) {
            Some(reply) => {
                assert(ingest(before, pending, now as int) == (store@, reply@));
                return reply;
            },
            None => {
                assert(ingest(before, pending, now as int) == ingest(
                    store@,
                    all.subrange(done + 1, total),
                    now as int,
                ));
            },
        }
        proof {
            done = done + 1;
        }
    }
    assert(all.subrange(done, total).len() == 0);
    Reply::to_listing()
}

/// Serves the file stored under `id`.
pub fn get_file(store: &Store, id: i64) -> (reply: Reply)
    requires
        store.wf(),
    ensures
        reply@ == fetch(store@, id as int),
{
    let fetched = match store.get(id) {
        Some(file) => Fetched::Found(file),
        None => Fetched::Absent,
    };
    on_fetch(id, fetched)
}

/// The reply to a request for the file `id` on a table that answers.
pub open spec fn fetch(table: Table, id: int) -> ReplyView {
    after_fetch(
        id,
        match table.get(id) {
            Some(file) => FetchedView::Found(file),
            None => FetchedView::Absent,
        },
    )
}

/// Deletes the file stored under `id`, if there is one; the reply is the
/// redirect to the listing in either case.
pub fn delete_file(store: &mut Store, id: i64) -> (reply: Reply)
    requires
        old(store).wf(),
    ensures
        final(store).wf(),
        final(store)@ == old(store)@.delete(id as int),
        reply@ == after_delete(id as int, true),
{
    store.delete(id);
    on_delete(id, true)
}

/// The listing page of the table as it stands.
pub fn index(store: &Store) -> (page: RootPage)
    requires
        store.wf(),
    ensures
        page@ == store@.listing(),
{
    on_listing(Some(store.list()))
}

} // verus!
