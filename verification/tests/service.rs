use filedrop::config::{Config, ConfigError};
use filedrop::file::{is_header_safe, Download, FileData, FileInfo};
use filedrop::reply::{is_error_status, Reply};
use filedrop::service::{
    delete_file, get_file, index, on_delete, on_fetch, on_listing, upload_file, Fetched, Part,
};
use filedrop::store::Store;
use filedrop::upload::{
    on_arrival, on_body, on_store, Accepted, AfterArrival, AfterBody, Arrival, PartHeader, Skip,
    TransportError,
};

fn header(field: Option<&str>, file: Option<&str>, kind: Option<&str>) -> PartHeader {
    PartHeader {
        field_name: field.map(str::to_string),
        file_name: file.map(str::to_string),
        content_type: kind.map(str::to_string),
    }
}

fn file_part(name: &str, contents: &[u8]) -> Part {
    Part::Field { header: header(Some("file"), Some(name), None), body: Ok(contents.to_vec()) }
}

fn upload(store: &mut Store, name: &str, contents: &[u8]) -> Reply {
    upload_file(store, vec![file_part(name, contents)], 1_700_000_000)
}

fn is_redirect_to_listing(reply: &Reply) -> bool {
    matches!(reply, Reply::Redirect { location } if location == "/") && reply.status() == 303
}

fn download(reply: Reply) -> Download {
    match reply {
        Reply::File(download) => download,
        other => panic!("no download: {other:?}"),
    }
}

#[test]
fn inserting_and_deleting_files_works() {
    let config = Config::test_config(10);
    let limit = config.max_upload_size();
    let mut store = Store::new();

    let name = "42.tmp";
    let contents: Vec<_> = (0..5_127_123).map(|i| (i % 255) as u8).collect();
    if contents.len() > limit {
        panic!("the upload is over the limit");
    }
    upload(&mut store, name, &contents);

    let infos = FileInfo::get_all(&store);
    assert_eq!(infos.len(), 1);

    let info = infos.first().unwrap();
    assert_eq!(info.name(), name);
    assert_eq!(info.size_formatted(), "5.1 MB");

    let data = FileData::get(&store, info.id()).unwrap();
    assert_eq!(data.name(), name);
    assert_eq!(data.data(), contents);

    // adding another one works
    let contents = vec![42u8, 13u8];
    upload(&mut store, name, &contents);
    let infos = FileInfo::get_all(&store);
    assert_eq!(infos.len(), 2);

    // delete works
    delete_file(&mut store, info.id());
    // the given id is no longer included
    let infos = FileInfo::get_all(&store);
    assert_eq!(infos.len(), 1);
    let remaining_id = infos.first().unwrap().id();
    assert_ne!(remaining_id, info.id());

    // deleting another works
    delete_file(&mut store, remaining_id);
    let infos = FileInfo::get_all(&store);
    assert_eq!(infos.len(), 0);
}

#[test]
fn uploaded_file_comes_back_byte_for_byte() {
    let mut store = Store::new();
    let contents: Vec<u8> = (0..=255u8).chain([0, 13, 10, 255, 0]).collect();
    let part = Part::Field {
        header: header(Some("file"), Some("a \"b\";c.bin"), Some("application/x-thing")),
        body: Ok(contents.clone()),
    };
    let reply = upload_file(&mut store, vec![part], 0);
    assert!(is_redirect_to_listing(&reply));
    let id = store.list()[0].id();
    assert_eq!(id, 1);
    let reply = get_file(&store, id);
    assert_eq!(reply.status(), 200);
    let download = download(reply);
    assert_eq!(download.body, contents);
    assert_eq!(download.content_disposition, "attachment; filename=a \"b\";c.bin");
    assert_eq!(download.content_type.as_deref(), Some("application/x-thing"));
}

#[test]
fn download_without_content_type_sends_none() {
    let mut store = Store::new();
    upload(&mut store, "plain", b"x");
    let download = download(get_file(&store, 1));
    assert_eq!(download.content_type, None);
    assert_eq!(download.content_disposition, "attachment; filename=plain");
    assert_eq!(download.body, b"x");
}

#[test]
fn empty_file_is_stored() {
    let mut store = Store::new();
    upload(&mut store, "", b"");
    let infos = store.list();
    assert_eq!(infos.len(), 1);
    assert_eq!(infos[0].name(), "");
    assert_eq!(infos[0].size_formatted(), "0 B");
    let download = download(get_file(&store, infos[0].id()));
    assert_eq!(download.body, b"");
    assert_eq!(download.content_disposition, "attachment; filename=");
}

#[test]
fn listing_has_one_line_for_each_upload() {
    let mut store = Store::new();
    for k in 0..20usize {
        assert_eq!(store.list().len(), k);
        assert_eq!(store.len(), k);
        assert!(is_redirect_to_listing(&upload(&mut store, "f", &[k as u8])));
    }
    let infos = store.list();
    assert_eq!(infos.len(), 20);
    for (k, info) in infos.iter().enumerate() {
        assert_eq!(info.id(), k as i64 + 1);
    }
}

#[test]
fn several_file_parts_become_several_files() {
    let mut store = Store::new();
    let parts = vec![
        file_part("one", b"1"),
        Part::Field { header: header(Some("note"), Some("n"), None), body: Ok(b"skip".to_vec()) },
        file_part("two", b"22"),
        Part::Field { header: header(Some("file"), None, None), body: Ok(b"skip".to_vec()) },
        file_part("one", b"333"),
    ];
    assert!(is_redirect_to_listing(&upload_file(&mut store, parts, 86_400)));
    let infos = index(&store);
    let names: Vec<&str> = infos.files().iter().map(|i| i.name()).collect();
    assert_eq!(names, ["one", "two", "one"]);
    let ids: Vec<i64> = infos.files().iter().map(|i| i.id()).collect();
    assert_eq!(ids, [1, 2, 3]);
    let sizes: Vec<String> = infos.files().iter().map(|i| i.size_formatted()).collect();
    assert_eq!(sizes, ["1 B", "2 B", "3 B"]);
    for info in infos.files() {
        assert_eq!(info.modified(), "1970-01-02 00:00:00");
    }
    assert_eq!(store.get(3).unwrap().data(), b"333");
}

#[test]
fn deleted_file_is_gone_and_deleting_again_succeeds() {
    let mut store = Store::new();
    upload(&mut store, "a", b"a");
    upload(&mut store, "b", b"b");
    upload(&mut store, "c", b"c");
    let reply = delete_file(&mut store, 2);
    assert!(is_redirect_to_listing(&reply));
    let ids: Vec<i64> = store.list().iter().map(|i| i.id()).collect();
    assert_eq!(ids, [1, 3]);
    let reply = get_file(&store, 2);
    assert!(matches!(reply, Reply::NotFound));
    assert_eq!(reply.status(), 404);
    assert!(store.get(2).is_none());
    assert!(is_redirect_to_listing(&delete_file(&mut store, 2)));
    assert_eq!(store.list().len(), 2);
    assert_eq!(store.get(1).unwrap().data(), b"a");
    assert_eq!(store.get(3).unwrap().data(), b"c");
    assert!(is_redirect_to_listing(&delete_file(&mut store, -7)));
    assert!(is_redirect_to_listing(&delete_file(&mut store, 0)));
    assert_eq!(store.list().len(), 2);
}

#[test]
fn deleted_identifier_is_not_given_out_again() {
    let mut store = Store::new();
    upload(&mut store, "a", b"a");
    upload(&mut store, "b", b"b");
    assert!(store.delete(2));
    assert!(!store.delete(2));
    upload(&mut store, "c", b"c");
    let ids: Vec<i64> = store.list().iter().map(|i| i.id()).collect();
    assert_eq!(ids, [1, 3]);
    assert_eq!(store.insert(FileData::new("d".to_string(), None, vec![]), 0), Some(4));
}

#[test]
fn upload_of_skipped_parts_only_stores_nothing() {
    let mut store = Store::new();
    let parts = vec![
        Part::Field { header: header(Some("File"), Some("a"), None), body: Ok(b"a".to_vec()) },
        Part::Field { header: header(None, Some("b"), None), body: Ok(b"b".to_vec()) },
        Part::Field { header: header(Some(""), Some("c"), None), body: Ok(b"c".to_vec()) },
        Part::Field { header: header(Some("file"), None, Some("text/plain")), body: Ok(b"d".to_vec()) },
        Part::Field {
            header: header(Some("files"), Some("e"), None),
            body: Err(TransportError { status: 400, text: "never read".to_string() }),
        },
    ];
    let reply = upload_file(&mut store, parts, 0);
    assert!(is_redirect_to_listing(&reply));
    assert_eq!(store.list().len(), 0);
}

#[test]
fn upload_without_parts_redirects() {
    let mut store = Store::new();
    let reply = upload_file(&mut store, vec![], 0);
    assert!(is_redirect_to_listing(&reply));
    assert_eq!(store.len(), 0);
}

#[test]
fn broken_part_aborts_and_keeps_what_was_stored() {
    let mut store = Store::new();
    let parts = vec![
        file_part("kept", b"1"),
        Part::Broken(TransportError { status: 400, text: "incomplete headers".to_string() }),
        file_part("never", b"2"),
    ];
    let reply = upload_file(&mut store, parts, 0);
    assert_eq!(reply.status(), 400);
    assert!(is_error_status(reply.status()));
    assert!(
        matches!(reply, Reply::Rejected { status: 400, text } if text == "incomplete headers")
    );
    let names: Vec<String> = store.list().iter().map(|i| i.name().to_string()).collect();
    assert_eq!(names, ["kept"]);
}

#[test]
fn unreadable_body_aborts_and_keeps_what_was_stored() {
    let mut store = Store::new();
    let parts = vec![
        file_part("kept", b"1"),
        Part::Field {
            header: header(Some("file"), Some("big"), None),
            body: Err(TransportError { status: 413, text: "Request payload is too large".to_string() }),
        },
        file_part("never", b"2"),
    ];
    let reply = upload_file(&mut store, parts, 0);
    assert_eq!(reply.status(), 413);
    assert!(matches!(
        reply,
        Reply::Rejected { status: 413, text } if text == "Request payload is too large"
    ));
    assert_eq!(store.list().len(), 1);
}

#[test]
fn arrival_decisions() {
    assert!(matches!(on_arrival(Arrival::End), AfterArrival::Finish(r) if is_redirect_to_listing(&r)));
    let broken = Arrival::Broken(TransportError { status: 500, text: "x".to_string() });
    assert!(matches!(
        on_arrival(broken),
        AfterArrival::Finish(Reply::Rejected { status: 500, text }) if text == "x"
    ));
    let other = Arrival::Part(header(Some("other"), Some("a"), None));
    assert!(matches!(on_arrival(other), AfterArrival::Skip(Skip::OtherField)));
    let unnamed = Arrival::Part(header(None, None, None));
    assert!(matches!(on_arrival(unnamed), AfterArrival::Skip(Skip::OtherField)));
    let no_file = Arrival::Part(header(Some("file"), None, None));
    assert!(matches!(on_arrival(no_file), AfterArrival::Skip(Skip::NoFileName)));
    let good = Arrival::Part(header(Some("file"), Some("n"), Some("t/x")));
    match on_arrival(good) {
        AfterArrival::Read(accepted) => {
            assert_eq!(accepted.name, "n");
            assert_eq!(accepted.content_type.as_deref(), Some("t/x"));
        }
        other => panic!("{other:?}"),
    }
}

#[test]
fn body_and_store_decisions() {
    let accepted = Accepted { name: "n".to_string(), content_type: Some("t/x".to_string()) };
    match on_body(accepted, Ok(vec![1, 2, 3])) {
        AfterBody::Store(file) => {
            assert_eq!(file.name(), "n");
            assert_eq!(file.content_type(), Some("t/x"));
            assert_eq!(file.data(), [1, 2, 3]);
        }
        other => panic!("{other:?}"),
    }
    let accepted = Accepted { name: "n".to_string(), content_type: None };
    let failed = Err(TransportError { status: 400, text: "cut".to_string() });
    assert!(matches!(
        on_body(accepted, failed),
        AfterBody::Finish(Reply::Rejected { status: 400, text }) if text == "cut"
    ));
    assert!(on_store("n", true).is_none());
    let reply = on_store("my file.txt", false).unwrap();
    assert_eq!(reply.status(), 500);
    assert!(
        matches!(reply, Reply::Failed { message } if message == "Inserting `my file.txt` to db failed")
    );
}

#[test]
fn fetch_delete_and_listing_decisions() {
    let file = FileData::new("n".to_string(), Some("t/x".to_string()), vec![9]);
    let download = download(on_fetch(5, Fetched::Found(file)));
    assert_eq!(download.body, [9]);
    assert_eq!(download.content_type.as_deref(), Some("t/x"));
    assert_eq!(download.content_disposition, "attachment; filename=n");
    assert!(matches!(on_fetch(5, Fetched::Absent), Reply::NotFound));
    let failed = on_fetch(-12, Fetched::Failed);
    assert_eq!(failed.status(), 500);
    assert!(
        matches!(failed, Reply::Failed { message } if message == "Querying for `-12` from db failed")
    );
    assert!(is_redirect_to_listing(&on_delete(5, true)));
    let failed = on_delete(345, false);
    assert_eq!(failed.status(), 500);
    assert!(
        matches!(failed, Reply::Failed { message } if message == "Deleting `345` from db failed")
    );
    assert_eq!(on_listing(None).files().len(), 0);
    let mut store = Store::new();
    upload(&mut store, "a", b"a");
    assert_eq!(on_listing(Some(store.list())).files().len(), 1);
}

#[test]
fn reply_statuses() {
    assert_eq!(Reply::to_listing().status(), 303);
    assert!(!is_error_status(Reply::to_listing().status()));
    assert_eq!(Reply::NotFound.status(), 404);
    assert!(is_error_status(Reply::NotFound.status()));
    assert_eq!(Reply::page(Some("<p>".to_string())).status(), 200);
    assert!(matches!(Reply::page(Some("<p>".to_string())), Reply::Page { html } if html == "<p>"));
    assert_eq!(Reply::page(None).status(), 500);
    assert!(matches!(Reply::page(None), Reply::Failed { message } if message.is_empty()));
    assert_eq!(Reply::Rejected { status: 413, text: String::new() }.status(), 413);
    assert!(!is_error_status(399));
    assert!(is_error_status(400));
    assert!(is_error_status(599));
    assert!(!is_error_status(600));
    assert!(!is_error_status(200));
}

#[test]
fn header_safety() {
    assert!(is_header_safe("attachment; filename=42.tmp"));
    assert!(is_header_safe("tab\tand space"));
    assert!(is_header_safe("ünïcödé ☃"));
    assert!(is_header_safe(""));
    assert!(!is_header_safe("line\nbreak"));
    assert!(!is_header_safe("carriage\rreturn"));
    assert!(!is_header_safe("nul\0"));
    assert!(!is_header_safe("del\x7f"));
    let file = FileData::new("a\r\nSet-Cookie: x".to_string(), None, vec![]);
    assert!(!file.into_download().is_sendable());
    let file = FileData::new("a".to_string(), Some("text/plain".to_string()), vec![]);
    assert!(file.into_download().is_sendable());
    let file = FileData::new("a".to_string(), Some("text\n".to_string()), vec![]);
    assert!(!file.into_download().is_sendable());
}

#[test]
fn configuration_is_read_from_three_settings() {
    let config = Config::read_from_env("8080", "sqlite://files.db", "10").unwrap();
    assert_eq!(config.port(), 8080);
    assert_eq!(config.db_url(), "sqlite://files.db");
    assert_eq!(config.max_upload_size(), 10_000_000);
    let config = Config::read_from_env("+0", "", "0").unwrap();
    assert_eq!(config.port(), 0);
    assert_eq!(config.db_url(), "");
    assert_eq!(config.max_upload_size(), 0);
    let config = Config::read_from_env("65535", ":memory:", "0012").unwrap();
    assert_eq!(config.port(), 65_535);
    assert_eq!(config.max_upload_size(), 12_000_000);
}

#[test]
fn configuration_errors() {
    let port = |s: &str| Config::read_from_env(s, "x", "1").err();
    assert_eq!(port("65536"), Some(ConfigError::Port));
    assert_eq!(port(""), Some(ConfigError::Port));
    assert_eq!(port("-1"), Some(ConfigError::Port));
    assert_eq!(port(" 80"), Some(ConfigError::Port));
    assert_eq!(port("80 "), Some(ConfigError::Port));
    assert_eq!(port("http"), Some(ConfigError::Port));
    let size = |s: &str| Config::read_from_env("80", "x", s).err();
    assert_eq!(size(""), Some(ConfigError::MaxUploadSize));
    assert_eq!(size("ten"), Some(ConfigError::MaxUploadSize));
    assert_eq!(size("1.5"), Some(ConfigError::MaxUploadSize));
    assert_eq!(size("-1"), Some(ConfigError::MaxUploadSize));
    assert_eq!(size("99999999999999999999999999"), Some(ConfigError::MaxUploadSize));
    let most = usize::MAX / 1_000_000;
    assert_eq!(size(&most.to_string()), None);
    assert_eq!(size(&(most as u128 + 1).to_string()), Some(ConfigError::MaxUploadSize));
    assert_eq!(Config::read_from_env("x", "x", "x").err(), Some(ConfigError::Port));
}

#[test]
fn test_configuration() {
    let config = Config::test_config(3);
    assert_eq!(config.port(), 0);
    assert_eq!(config.db_url(), ":memory:");
    assert_eq!(config.max_upload_size(), 3_000_000);
}

#[test]
fn file_copy_is_equal() {
    let file = FileData::new("n".to_string(), Some("t".to_string()), vec![1, 2]);
    let copy = file.copy();
    assert_eq!(copy.name(), file.name());
    assert_eq!(copy.content_type(), file.content_type());
    assert_eq!(copy.data(), file.data());
}
