//! What holds of the service whatever is uploaded, fetched and deleted.

use crate::file::{disposition, DownloadView, FileView};
use crate::reply::{to_listing, ReplyView};
use crate::service::{after_delete, fetch, ingest, ingest_part, PartView};
use crate::store::{Record, Table};
use crate::upload::{file_field, HeaderView};
use vstd::prelude::*;

verus! {

/// The part that uploads `data` as a file called `name`.
pub open spec fn file_part(
    name: Seq<char>,
    content_type: Option<Seq<char>>,
    data: Seq<u8>,
) -> PartView {
    PartView::Field {
        header: HeaderView { field_name: Some(file_field()), file_name: Some(name), content_type },
        body: Ok(data),
    }
}

/// The number of parts that qualify as files.
pub open spec fn count_qualifying(parts: Seq<PartView>) -> nat
    decreases parts.len(),
{
    if parts.len() == 0 {
        0
    } else {
        let first: nat = if parts[0].qualifies() {
            1
        } else {
            0
        };
        first + count_qualifying(parts.subrange(1, parts.len() as int))
    }
}

/// A table in order holds at most one file under each identifier: the file
/// at any place is the one found under its identifier.
pub proof fn found_where_stored(table: Table, at: int)
    requires
        table.wf(),
        0 <= at < table.rows.len(),
    ensures
        table.holds(table.rows[at].id),
        table.position(table.rows[at].id) == at,
        table.get(table.rows[at].id) == Some(table.rows[at].file),
{
    let id = table.rows[at].id;
    let found = table.position(id);
    if found < at {
        assert(table.rows[found].id < table.rows[at].id);
    }
    if at < found {
        assert(table.rows[at].id < table.rows[found].id);
    }
}

/// Storing a file keeps the table in order, gives the file an identifier
/// that no stored file has, and leaves every other file as it was.
pub proof fn insert_keeps_others(table: Table, file: FileView, now: int, other: int)
    requires
        table.wf(),
        !table.exhausted(),
    ensures
        table.insert(file, now).wf(),
        !table.holds(table.next_id),
        table.insert(file, now).get(table.next_id) == Some(file),
        table.insert(file, now).len() == table.len() + 1,
        other != table.next_id ==> table.insert(file, now).get(other) == table.get(other),
{
    let after = table.insert(file, now);
    let last = table.rows.len() as int;
    assert(after.rows[last].id == table.next_id);
    assert(after.wf()) by {
        assert forall|i: int, j: int| 0 <= i < j < after.rows.len() implies (#[trigger] after.rows[i]).id
            < (#[trigger] after.rows[j]).id by {
            if j < last {
                assert(after.rows[i] == table.rows[i]);
                assert(after.rows[j] == table.rows[j]);
            } else {
                assert(after.rows[i] == table.rows[i]);
            }
        }
        assert forall|i: int| 0 <= i < after.rows.len() implies 1 <= (#[trigger] after.rows[i]).id
            < after.next_id by {
            if i < last {
                assert(after.rows[i] == table.rows[i]);
            }
        }
    }
    found_where_stored(after, last);
    if other != table.next_id {
        if table.holds(other) {
            let at = table.position(other);
            assert(after.rows[at] == table.rows[at]);
            found_where_stored(after, at);
        } else {
            if after.holds(other) {
                let at = after.position(other);
                assert(at < last);
                assert(after.rows[at] == table.rows[at]);
            }
        }
    }
}

/// Deleting keeps the table in order, takes away the file under the
/// identifier and no other, and is the same done once or twice.
pub proof fn delete_keeps_others(table: Table, id: int, other: int)
    requires
        table.wf(),
    ensures
        table.delete(id).wf(),
        !table.delete(id).holds(id),
        table.delete(id).delete(id) == table.delete(id),
        table.delete(id).len() == if table.holds(id) {
            table.len() - 1
        } else {
            table.len() as int
        },
        other != id ==> table.delete(id).get(other) == table.get(other),
{
    let after = table.delete(id);
    if table.holds(id) {
        let gone = table.position(id);
        assert forall|i: int| 0 <= i < after.rows.len() implies (#[trigger] after.rows[i]) == table.rows[if i
            < gone {
            i
        } else {
            i + 1
        }] by {}
        assert(after.wf()) by {
            assert forall|i: int, j: int| 0 <= i < j < after.rows.len() implies (#[trigger] after.rows[i]).id
                < (#[trigger] after.rows[j]).id by {
                let from_i = if i < gone {
                    i
                } else {
                    i + 1
                };
                let from_j = if j < gone {
                    j
                } else {
                    j + 1
                };
                assert(table.rows[from_i].id < table.rows[from_j].id);
            }
            assert forall|i: int| 0 <= i < after.rows.len() implies 1 <= (#[trigger] after.rows[i]).id
                < after.next_id by {
                let from_i = if i < gone {
                    i
                } else {
                    i + 1
                };
                assert(1 <= table.rows[from_i].id < table.next_id);
            }
        }
        if after.holds(id) {
            let at = after.position(id);
            let from = if at < gone {
                at
            } else {
                at + 1
            };
            found_where_stored(table, from);
        }
        if other != id {
            if table.holds(other) {
                let at = table.position(other);
                let to = if at < gone {
                    at
                } else {
                    at - 1
                };
                assert(after.rows[to] == table.rows[at]);
                found_where_stored(after, to);
            } else {
                if after.holds(other) {
                    let at = after.position(other);
                    let from = if at < gone {
                        at
                    } else {
                        at + 1
                    };
                    assert(table.rows[from].id == other);
                }
            }
        }
    }
}

/// A file uploaded as a `file` part is stored under the next
/// identifier, and a download of that identifier returns its bytes
/// unchanged, with its name in the `Content-Disposition` and its content
/// type, if it had one.
pub proof fn upload_then_download(
    table: Table,
    name: Seq<char>,
    content_type: Option<Seq<char>>,
    data: Seq<u8>,
    now: int,
)
    requires
        table.wf(),
        !table.exhausted(),
    ensures
        ingest(table, seq![file_part(name, content_type, data)], now) == (
            table.insert(FileView { name, content_type, data }, now),
            to_listing(),
        ),
        fetch(table.insert(FileView { name, content_type, data }, now), table.next_id)
            == ReplyView::File(
            DownloadView { content_type, content_disposition: disposition(name), body: data },
        ),
{
    let file = FileView { name, content_type, data };
    let parts = seq![file_part(name, content_type, data)];
    insert_keeps_others(table, file, now, 0);
    assert(ingest_part(table, parts[0], now) == (table.insert(file, now), None::<ReplyView>));
    assert(parts.subrange(1, parts.len() as int).len() == 0);
    assert(ingest(table.insert(file, now), parts.subrange(1, parts.len() as int), now) == (
        table.insert(file, now),
        to_listing(),
    ));
}

/// An upload keeps the table in order, and one that ends with the
/// redirect to the listing has added one line to the listing for each
/// qualifying part. On a table without files the listing then has as many
/// lines as there were qualifying parts.
pub proof fn upload_count(table: Table, parts: Seq<PartView>, now: int)
    requires
        table.wf(),
    ensures
        ingest(table, parts, now).0.wf(),
        ingest(table, parts, now).1 == to_listing() ==> ingest(table, parts, now).0.listing().len()
            == table.listing().len() + count_qualifying(parts),
    decreases parts.len(),
{
    if parts.len() > 0 {
        let (next, reply) = ingest_part(table, parts[0], now);
        if reply.is_none() {
            if parts[0].qualifies() {
                let file = crate::upload::file_of(
                    crate::upload::AcceptedView {
                        name: parts[0]->header.file_name.unwrap(),
                        content_type: parts[0]->header.content_type,
                    },
                    parts[0]->body->Ok_0,
                );
                insert_keeps_others(table, file, now, 0);
            }
            upload_count(next, parts.subrange(1, parts.len() as int), now);
        }
    }
}

/// One upload: its parts, and the time at which it is taken in.
pub struct Request {
    pub parts: Seq<PartView>,
    pub now: int,
}

/// The table after several uploads, one after the other.
pub open spec fn after_uploads(table: Table, uploads: Seq<Request>) -> Table
    decreases uploads.len(),
{
    if uploads.len() == 0 {
        table
    } else {
        after_uploads(
            ingest(table, uploads[0].parts, uploads[0].now).0,
            uploads.subrange(1, uploads.len() as int),
        )
    }
}

/// Whether each of several uploads, one after the other, ends with the
/// redirect to the listing.
pub open spec fn all_succeed(table: Table, uploads: Seq<Request>) -> bool
    decreases uploads.len(),
{
    uploads.len() == 0 || (ingest(table, uploads[0].parts, uploads[0].now).1 == to_listing()
        && all_succeed(
        ingest(table, uploads[0].parts, uploads[0].now).0,
        uploads.subrange(1, uploads.len() as int),
    ))
}

/// The number of qualifying parts in several uploads.
pub open spec fn total_qualifying(uploads: Seq<Request>) -> nat
    decreases uploads.len(),
{
    if uploads.len() == 0 {
        0
    } else {
        count_qualifying(uploads[0].parts) + total_qualifying(
            uploads.subrange(1, uploads.len() as int),
        )
    }
}

/// Over several uploads, when each ends with the redirect to the
/// listing and nothing is deleted in between, the listing has grown by one
/// line for each qualifying part. After `k` such parts the listing of a
/// table that held nothing has `k` lines.
pub proof fn uploads_count(table: Table, uploads: Seq<Request>)
    requires
        table.wf(),
        all_succeed(table, uploads),
    ensures
        after_uploads(table, uploads).wf(),
        after_uploads(table, uploads).listing().len() == table.listing().len() + total_qualifying(
            uploads,
        ),
    decreases uploads.len(),
{
    if uploads.len() > 0 {
        upload_count(table, uploads[0].parts, uploads[0].now);
        uploads_count(
            ingest(table, uploads[0].parts, uploads[0].now).0,
            uploads.subrange(1, uploads.len() as int),
        );
    }
}

/// Stored files are never changed by an upload: whatever was found under an
/// identifier before is found under it afterwards, however the upload ends.
pub proof fn upload_keeps_stored_files(table: Table, parts: Seq<PartView>, now: int, id: int)
    requires
        table.wf(),
        id < table.next_id,
    ensures
        ingest(table, parts, now).0.get(id) == table.get(id),
        table.next_id <= ingest(table, parts, now).0.next_id,
    decreases parts.len(),
{
    if parts.len() > 0 {
        let (next, reply) = ingest_part(table, parts[0], now);
        if next != table {
            let file = next.rows.last().file;
            assert(next == table.insert(file, now));
            insert_keeps_others(table, file, now, id);
        }
        if reply.is_none() {
            upload_keeps_stored_files(next, parts.subrange(1, parts.len() as int), now, id);
        }
    }
}

/// Once the file under an identifier is deleted, the listing has
/// no line for it and a download of it finds nothing; deleting it again
/// changes nothing, and the reply is the redirect to the listing both
/// times.
pub proof fn deleted_is_gone(table: Table, id: int)
    requires
        table.wf(),
    ensures
        table.delete(id).wf(),
        forall|i: int|
            0 <= i < table.delete(id).listing().len() ==> (#[trigger] table.delete(id).listing()[i]).id
                != id,
        fetch(table.delete(id), id) == ReplyView::NotFound,
        table.delete(id).delete(id) == table.delete(id),
        after_delete(id, true) == to_listing(),
{
    delete_keeps_others(table, id, id);
    let after = table.delete(id);
    assert forall|i: int| 0 <= i < after.listing().len() implies (#[trigger] after.listing()[i]).id
        != id by {
        if after.rows[i].id == id {
            assert(after.holds(id));
        }
    }
}

/// An upload in which every part is passed over, for a field
/// name other than `file` or for want of a file name, stores nothing and
/// ends with the redirect to the listing.
pub proof fn skipped_parts_store_nothing(table: Table, parts: Seq<PartView>, now: int)
    requires
        forall|i: int| 0 <= i < parts.len() ==> (#[trigger] parts[i]).is_skipped(),
    ensures
        ingest(table, parts, now) == (table, to_listing()),
    decreases parts.len(),
{
    if parts.len() > 0 {
        assert(parts[0].is_skipped());
        let rest = parts.subrange(1, parts.len() as int);
        assert forall|i: int| 0 <= i < rest.len() implies (#[trigger] rest[i]).is_skipped() by {
            assert(rest[i] == parts[i + 1]);
        }
        skipped_parts_store_nothing(table, rest, now);
    }
}

} // verus!
