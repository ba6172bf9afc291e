//! Stored files: what the listing shows of one, and one as it is served.

use crate::calendar::{format_timestamp, timestamp_text};
use crate::size::{format_size, len_view, size_text};
use crate::store::{file_view, infos_view, Store};
use vstd::prelude::*;
use vstd::string::*;

verus! {

/// A text that may be missing, as a sequence of characters.
pub open spec fn text_view(text: Option<String>) -> Option<Seq<char>> {
    match text {
        Some(s) => Some(s@),
        None => None,
    }
}

/// A copy of a text that may be missing.
fn copy_text(text: &Option<String>) -> (copy: Option<String>)
    ensures
        text_view(copy) == text_view(*text),
{
    match text {
        Some(s) => Some(s.clone()),
        None => None,
    }
}

/// What a [`FileData`] holds.
pub struct FileView {
    pub name: Seq<char>,
    pub content_type: Option<Seq<char>>,
    pub data: Seq<u8>,
}

/// A file with its content: the name and the content type that the uploading
/// client gave, verbatim, and the bytes.
#[derive(Debug)]
pub struct FileData {
    name: String,
    content_type: Option<String>,
    data: Vec<u8>,
}

impl View for FileData {
    type V = FileView;

    closed spec fn view(&self) -> FileView {
        FileView {
            name: self.name@,
            content_type: text_view(self.content_type),
            data: self.data@,
        }
    }
}

/// What a [`Download`] holds.
pub struct DownloadView {
    pub content_type: Option<Seq<char>>,
    pub content_disposition: Seq<char>,
    pub body: Seq<u8>,
}

/// A file on its way to a client: the body and the two headers that go with
/// it. No `Content-Type` header is sent for a file stored without one.
#[derive(Debug)]
pub struct Download {
    pub content_type: Option<String>,
    pub content_disposition: String,
    pub body: Vec<u8>,
}

impl View for Download {
    type V = DownloadView;

    open spec fn view(&self) -> DownloadView {
        DownloadView {
            content_type: text_view(self.content_type),
            content_disposition: self.content_disposition@,
            body: self.body@,
        }
    }
}

/// Whether a byte may stand in the value of a header: a tab, or anything
/// from the space on but the delete character.
pub open spec fn header_byte(b: u8) -> bool {
    b == 9 || (b >= 32 && b != 127)
}

/// Whether `text` can be sent as the value of a header as it is.
pub open spec fn header_safe(text: Seq<char>) -> bool {
    forall|i: int|
        0 <= i < vstd::utf8::encode_utf8(text).len() ==> header_byte(
            #[trigger] vstd::utf8::encode_utf8(text)[i],
        )
}

/// Whether `text` can be sent as the value of a header as it is.
pub fn is_header_safe(text: &str) -> (safe: bool)
    ensures
        safe == header_safe(text@),
{
    let bytes = text.as_bytes();
    let mut i: usize = 0;
    while i < bytes.len()
        invariant
            bytes@ == vstd::utf8::encode_utf8(text@),
            i <= bytes.len(),
            forall|k: int| 0 <= k < i ==> header_byte(#[trigger] bytes@[k]),
        decreases bytes.len() - i,
    {
        let b = bytes[i];
        if !(b == 9 || (b >= 32 && b != 127)) {
            return false;
        }
        i = i + 1;
    }
    true
}

/// The `Content-Disposition` value for a file called `name`: the name
/// follows the prefix as it is, neither quoted nor escaped.
pub open spec fn disposition(name: Seq<char>) -> Seq<char> {
    "attachment; filename="@ + name
}

/// The download that serves `file`.
pub open spec fn download_of(file: FileView) -> DownloadView {
    DownloadView {
        content_type: file.content_type,
        content_disposition: disposition(file.name),
        body: file.data,
    }
}

impl DownloadView {
    /// Whether both headers can be sent as they are. A file name with a
    /// line break or another control character in it makes a
    /// `Content-Disposition` that cannot.
    pub open spec fn sendable(self) -> bool {
        &&& header_safe(self.content_disposition)
        &&& match self.content_type {
            Some(content_type) => header_safe(content_type),
            None => true,
        }
    }
}

impl Download {
    /// Whether both headers can be sent as they are.
    pub fn is_sendable(&self) -> (sendable: bool)
        ensures
            sendable == self@.sendable(),
    {
        if !is_header_safe(self.content_disposition.as_str()) {
            return false;
        }
        match &self.content_type {
            Some(content_type) => is_header_safe(content_type.as_str()),
            None => true,
        }
    }
}

impl FileData {
    /// A file with the given name, content type and bytes.
    pub fn new(name: String, content_type: Option<String>, data: Vec<u8>) -> (file: FileData)
        ensures
            file@ == (FileView { name: name@, content_type: text_view(content_type), data: data@ }),
    {
        FileData { name, content_type, data }
    }

    /// The file's name.
    pub fn name(&self) -> (name: &str)
        ensures
            name@ == self@.name,
    {
        self.name.as_str()
    }

    /// The file's content type, if it has one.
    pub fn content_type(&self) -> (content_type: Option<&str>)
        ensures
            match content_type {
                Some(t) => self@.content_type == Some(t@),
                None => self@.content_type.is_none(),
            },
    {
        match &self.content_type {
            Some(t) => Some(t.as_str()),
            None => None,
        }
    }

    /// The file's bytes.
    pub fn data(&self) -> (data: &[u8])
        ensures
            data@ == self@.data,
    {
        self.data.as_slice()
    }

    /// A copy of the file stored under `id` in `store`, if there is one.
    pub fn get(store: &Store, id: i64) -> (file: Option<FileData>)
        requires
            store.wf(),
        ensures
            file_view(file) == store@.get(id as int),
    {
        store.get(id)
    }

    /// An independent copy of the file.
    pub fn copy(&self) -> (file: FileData)
        ensures
            file@ == self@,
    {
        let data = self.data.clone();
        assert(data@ =~= self.data@);
        FileData { name: self.name.clone(), content_type: copy_text(&self.content_type), data }
    }

    /// Turns the file into the download that serves it.
    pub fn into_download(self) -> (download: Download)
        ensures
            download@ == download_of(self@),
    {
        let mut content_disposition = String::from_str("attachment; filename=");
        content_disposition.append(self.name.as_str());
        Download { content_type: self.content_type, content_disposition, body: self.data }
    }
}

/// What a [`FileInfo`] holds.
pub struct InfoView {
    pub id: int,
    pub name: Seq<char>,
    pub data_len: Option<int>,
    pub modified: Option<Seq<char>>,
}

/// One line of the listing: a stored file without its content.
#[derive(Debug)]
pub struct FileInfo {
    id: i64,
    name: String,
    data_len: Option<i64>,
    modified: Option<String>,
}

impl View for FileInfo {
    type V = InfoView;

    closed spec fn view(&self) -> InfoView {
        InfoView {
            id: self.id as int,
            name: self.name@,
            data_len: len_view(self.data_len),
            modified: text_view(self.modified),
        }
    }
}

/// The text that shows when a file was stored: the timestamp in its fixed
/// form, and none where the time is unknown or outside the calendar.
pub open spec fn modified_text(created_at: Option<i64>) -> Option<Seq<char>> {
    match created_at {
        Some(epoch) => timestamp_text(epoch as int),
        None => None,
    }
}

impl FileInfo {
    /// A line for the file `id`, called `name`, of `data_len` bytes and
    /// stored `created_at` seconds after the Unix epoch.
    pub fn new(id: i64, name: String, data_len: Option<i64>, created_at: Option<i64>) -> (info:
        FileInfo)
        ensures
            info@ == (InfoView {
                id: id as int,
                name: name@,
                data_len: len_view(data_len),
                modified: modified_text(created_at),
            }),
    {
        let modified = match created_at {
            Some(epoch) => format_timestamp(epoch),
            None => None,
        };
        FileInfo { id, name, data_len, modified }
    }

    /// The listing of `store`: one line for each stored file, oldest first.
    pub fn get_all(store: &Store) -> (infos: Vec<FileInfo>)
        requires
            store.wf(),
        ensures
            infos_view(infos@) == store@.listing(),
    {
        store.list()
    }

    /// The identifier under which the file is stored.
    pub fn id(&self) -> (id: i64)
        ensures
            id == self@.id,
    {
        self.id
    }

    /// The file's name.
    pub fn name(&self) -> (name: &str)
        ensures
            name@ == self@.name,
    {
        self.name.as_str()
    }

    /// When the file was stored, in the form `YYYY-MM-DD HH:MM:SS` (UTC);
    /// empty when that is unknown.
    pub fn modified(&self) -> (modified: &str)
        ensures
            modified@ == match self@.modified {
                Some(text) => text,
                None => Seq::<char>::empty(),
            },
    {
        match &self.modified {
            Some(text) => text.as_str(),
            None => {
                proof {
                    reveal_strlit("");
                }
                assert(""@ =~= Seq::<char>::empty());
                ""
            },
        }
    }

    /// The file's size as text; empty when the size is unknown.
    pub fn size_formatted(&self) -> (text: String)
        ensures
            text@ == size_text(self@.data_len),
    {
        format_size(self.data_len)
    }
}

} // verus!
