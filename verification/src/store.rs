//! The file table: every stored file under the identifier it was given,
//! with the time at which it was stored.
//!
//! The table lives in memory. A deployment that keeps its files in a
//! database expects of it what is stated here of this table.

use crate::calendar::timestamp_text;
use crate::file::{FileData, FileInfo, FileView, InfoView};
use vstd::prelude::*;

verus! {

/// The last identifier that a table can give out.
pub const LAST_ID: i64 = 0x7fff_ffff_ffff_ffff;

/// One stored file.
pub struct Record {
    pub id: int,
    pub file: FileView,
    pub created_at: int,
}

/// The table as a mathematical value: the stored files in the order in
/// which they were stored, and the identifier that the next one will get.
pub struct Table {
    pub rows: Seq<Record>,
    pub next_id: int,
}

/// The length of a file's content as the listing shows it: unknown when it
/// is beyond what the listing can count.
pub open spec fn listed_len(data: Seq<u8>) -> Option<int> {
    if data.len() <= LAST_ID {
        Some(data.len() as int)
    } else {
        None
    }
}

impl Record {
    /// The line of the listing that shows this file: its length and the time
    /// at which it was stored are taken from the row itself.
    pub open spec fn info(self) -> InfoView {
        InfoView {
            id: self.id,
            name: self.file.name,
            data_len: listed_len(self.file.data),
            modified: timestamp_text(self.created_at),
        }
    }
}

impl Table {
    /// The table that holds no file and has given out no identifier.
    pub open spec fn empty() -> Table {
        Table { rows: Seq::empty(), next_id: 1 }
    }

    /// Identifiers are positive, ascend in the order in which the files
    /// were stored, and lie below the next one: none occurs twice.
    pub open spec fn wf(self) -> bool {
        &&& 1 <= self.next_id <= LAST_ID
        &&& forall|i: int| 0 <= i < self.rows.len() ==> 1 <= (#[trigger] self.rows[i]).id < self.next_id
        &&& forall|i: int, j: int|
            0 <= i < j < self.rows.len() ==> (#[trigger] self.rows[i]).id < (#[trigger] self.rows[j]).id
    }

    /// The number of stored files.
    pub open spec fn len(self) -> nat {
        self.rows.len()
    }

    /// Whether a file is stored under `id`.
    pub open spec fn holds(self, id: int) -> bool {
        exists|i: int| 0 <= i < self.rows.len() && (#[trigger] self.rows[i]).id == id
    }

    /// Where the file stored under `id` stands in the table.
    pub open spec fn position(self, id: int) -> int {
        choose|i: int| 0 <= i < self.rows.len() && (#[trigger] self.rows[i]).id == id
    }

    /// The file stored under `id`, if there is one.
    pub open spec fn get(self, id: int) -> Option<FileView> {
        if self.holds(id) {
            Some(self.rows[self.position(id)].file)
        } else {
            None
        }
    }

    /// Whether every identifier has been given out.
    pub open spec fn exhausted(self) -> bool {
        self.next_id >= LAST_ID
    }

    /// The table after `file` is stored at the time `now`: the file stands
    /// last, under the next identifier.
    pub open spec fn insert(self, file: FileView, now: int) -> Table {
        Table {
            rows: self.rows.push(Record { id: self.next_id, file, created_at: now }),
            next_id: self.next_id + 1,
        }
    }

    /// The table after the file under `id` is deleted, if there was one. Its
    /// identifier is not given out again.
    pub open spec fn delete(self, id: int) -> Table {
        if self.holds(id) {
            Table { rows: self.rows.remove(self.position(id)), next_id: self.next_id }
        } else {
            self
        }
    }

    /// The listing: one line for each stored file, in the order in which
    /// they were stored.
    pub open spec fn listing(self) -> Seq<InfoView> {
        Seq::new(self.rows.len(), |i: int| self.rows[i].info())
    }
}

/// What a vector of listing lines holds.
pub open spec fn infos_view(infos: Seq<FileInfo>) -> Seq<InfoView> {
    Seq::new(infos.len(), |i: int| infos[i]@)
}

/// A file that may be missing, as a mathematical value.
pub open spec fn file_view(file: Option<FileData>) -> Option<FileView> {
    match file {
        Some(file) => Some(file@),
        None => None,
    }
}

/// A row of the table.
#[derive(Debug)]
struct Row {
    id: i64,
    file: FileData,
    created_at: i64,
}

impl View for Row {
    type V = Record;

    closed spec fn view(&self) -> Record {
        Record { id: self.id as int, file: self.file@, created_at: self.created_at as int }
    }
}

/// The file table.
#[derive(Debug)]
pub struct Store {
    rows: Vec<Row>,
    next_id: i64,
}

impl View for Store {
    type V = Table;

    closed spec fn view(&self) -> Table {
        Table { rows: Seq::new(self.rows@.len(), |i: int| self.rows@[i]@), next_id: self.next_id as int }
    }
}

impl Store {
    /// Whether the table is in order.
    pub open spec fn wf(&self) -> bool {
        self@.wf()
    }

    /// A table that holds no file.
    pub fn new() -> (store: Store)
        ensures
            store.wf(),
            store@ == Table::empty(),
    {
        let store = Store { rows: Vec::new(), next_id: 1 };
        assert(store@.rows =~= Seq::<Record>::empty());
        store
    }

    /// The number of stored files.
    pub fn len(&self) -> (len: usize)
        ensures
            len == self@.len(),
    {
        self.rows.len()
    }

    /// Where the file under `id` stands, if one is stored under it.
    fn find(&self, id: i64) -> (at: Option<usize>)
        requires
            self.wf(),
        ensures
            at.is_some() == self@.holds(id as int),
            at.is_some() ==> at.unwrap() == self@.position(id as int) && at.unwrap() < self.rows.len(),
    {
        let mut i: usize = 0;
        while i < self.rows.len()
            invariant
                self.wf(),
                i <= self.rows.len(),
                forall|k: int| 0 <= k < i ==> (#[trigger] self@.rows[k]).id != id,
            decreases self.rows.len() - i,
        {
            if self.rows[i].id == id {
                assert(self@.rows[i as int].id == id);
                proof {
                    let p = self@.position(id as int);
                    if p < i {
                        assert(self@.rows[p].id < self@.rows[i as int].id);
                    }
                    if i < p {
                        assert(self@.rows[i as int].id < self@.rows[p].id);
                    }
                }
                return Some(i);
            }
            assert(self@.rows[i as int].id != id);
            i = i + 1;
        }
        None
    }

    /// Stores `file` at the time `now`, in one step, and gives the new
    /// identifier; fails, and leaves the table as it was, when no
    /// identifier is left.
    pub fn insert(&mut self, file: FileData, now: i64) -> (id: Option<i64>)
        requires
            old(self).wf(),
        ensures
            final(self).wf(),
            match id {
                Some(id) => !old(self)@.exhausted() && id == old(self)@.next_id && final(self)@
                    == old(self)@.insert(file@, now as int),
                None => old(self)@.exhausted() && final(self)@ == old(self)@,
            },
    {
        if self.next_id >= LAST_ID {
            return None;
        }
        let id = self.next_id;
        self.rows.push(Row { id, file, created_at: now });
        self.next_id = id + 1;
        assert(self@.rows =~= old(self)@.insert(file@, now as int).rows);
        Some(id)
    }

    /// A copy of the file stored under `id`; none if there is none, which is
    /// no error.
    pub fn get(&self, id: i64) -> (file: Option<FileData>)
        requires
            self.wf(),
        ensures
            file_view(file) == self@.get(id as int),
    {
        match self.find(id) {
            Some(at) => Some(self.rows[at].file.copy()),
            None => None,
        }
    }

    /// Deletes the file stored under `id`, if there is one, and says whether
    /// there was.
    pub fn delete(&mut self, id: i64) -> (removed: bool)
        requires
            old(self).wf(),
        ensures
            final(self).wf(),
            final(self)@ == old(self)@.delete(id as int),
            removed == old(self)@.holds(id as int),
    {
        match self.find(id) {
            Some(at) => {
                self.rows.remove(at);
                assert(self@.rows =~= old(self)@.rows.remove(at as int));
                true
            },
            None => false,
        }
    }

    /// The listing: one line for each stored file, oldest first, with its
    /// length and the time at which it was stored, read from the table as it
    /// stands and without copying any content.
    pub fn list(&self) -> (infos: Vec<FileInfo>)
        requires
            self.wf(),
        ensures
            infos_view(infos@) == self@.listing(),
    {
        let mut infos: Vec<FileInfo> = Vec::new();
        let mut i: usize = 0;
        while i < self.rows.len()
            invariant
                i <= self.rows.len(),
                infos.len() == i,
                forall|k: int| 0 <= k < i ==> (#[trigger] infos[k])@ == self@.rows[k].info(),
            decreases self.rows.len() - i,
        {
            let row = &self.rows[i];
            let len: u64 = row.file.data().len() as u64;
            let data_len: Option<i64> = if len <= LAST_ID as u64 {
                Some(len as i64)
            } else {
                None
            };
            let info = FileInfo::new(
                row.id,
                row.file.name().to_owned(),
                data_len,
                Some(row.created_at),
            );
            assert(info@ == self@.rows[i as int].info());
            infos.push(info);
            i = i + 1;
        }
        assert(infos_view(infos@) =~= self@.listing());
        infos
    }
}

} // verus!
