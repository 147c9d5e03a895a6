use rustydav::client::Client;
use rustydav::error::Error;
use rustydav::request::{Body, Header, Request};

const SERVER_URL: &str = "https://www.webdavserver.com";
const USER_FOLDER: &str = "User287e257";

fn get_server_path(path: &str) -> String {
    format!("{0}/{1}/{2}", SERVER_URL, USER_FOLDER, path)
}

fn get_client() -> Client {
    Client::init("", "")
}

#[test]
fn test_1_mkcol() {
    let webdav_client = get_client();
    let result = webdav_client.mkcol(get_server_path("rustydav").as_str());

    assert_eq!(result.is_ok(), true);
}

#[test]
fn test_2_put() {
    let webdav_client = get_client();
    let result = webdav_client.put(
        "rustydav is a cool small library".as_bytes().to_vec(),
        get_server_path("rustydav/test.txt").as_str(),
    );

    assert_eq!(result.is_ok(), true);
}

#[test]
fn test_3_get() {
    let webdav_client = get_client();
    let result = webdav_client.get(get_server_path("rustydav/test.txt").as_str());

    assert_eq!(result.is_ok(), true);
}

#[test]
fn test_4_mv() {
    let webdav_client = get_client();
    let result = webdav_client.mv(
        get_server_path("rustydav/test.txt").as_str(),
        get_server_path("test.txt").as_str(),
    );

    assert_eq!(result.is_ok(), true);
}

#[test]
fn test_5_delete() {
    let webdav_client = get_client();
    let result = webdav_client.delete(get_server_path("test.txt").as_str());

    assert_eq!(result.is_ok(), true);
}

#[test]
fn test_6_unzip() {
    let webdav_client = get_client();
    let result = webdav_client.unzip(get_server_path("test.zip").as_str());

    assert_eq!(result.is_ok(), true);
}

#[test]
fn test_7_list() {
    let webdav_client = get_client();
    let result = webdav_client.list(get_server_path("").as_str(), "0");

    assert_eq!(result.is_ok(), true);
}

fn plain(method: &str, url: &str, username: &str, password: &str) -> Request {
    Request {
        method: method.to_owned(),
        url: url.to_owned(),
        username: username.to_owned(),
        password: password.to_owned(),
        headers: Vec::new(),
        body: Body::Empty,
    }
}

fn header(name: &str, value: &str) -> Header {
    Header { name: name.to_owned(), value: value.as_bytes().to_vec() }
}

#[test]
fn get_is_a_bare_get() {
    let client = Client::init("alice", "secret");
    let request = client.get("https://dav.example.com/docs/a.txt").unwrap();
    assert_eq!(request, plain("GET", "https://dav.example.com/docs/a.txt", "alice", "secret"));
}

#[test]
fn delete_is_a_bare_delete() {
    let client = Client::init("alice", "secret");
    let request = client.delete("https://dav.example.com/docs/a.txt").unwrap();
    assert_eq!(request, plain("DELETE", "https://dav.example.com/docs/a.txt", "alice", "secret"));
}

#[test]
fn mkcol_uses_the_webdav_verb() {
    let client = Client::init("alice", "secret");
    let request = client.mkcol("https://dav.example.com/docs/new/").unwrap();
    assert_eq!(request, plain("MKCOL", "https://dav.example.com/docs/new/", "alice", "secret"));
}

#[test]
fn put_sends_the_bytes_as_an_octet_stream() {
    let client = Client::init("alice", "secret");
    let request = client.put(vec![0, 1, 2, 255], "https://dav.example.com/docs/a.bin").unwrap();
    let mut expected = plain("PUT", "https://dav.example.com/docs/a.bin", "alice", "secret");
    expected.headers.push(header("content-type", "application/octet-stream"));
    expected.body = Body::Bytes(vec![0, 1, 2, 255]);
    assert_eq!(request, expected);
}

#[test]
fn put_of_nothing_still_has_a_body() {
    let client = Client::init("alice", "secret");
    let request = client.put(Vec::new(), "https://dav.example.com/empty").unwrap();
    assert_eq!(request.body, Body::Bytes(Vec::new()));
}

#[test]
fn unzip_posts_the_form_field() {
    let client = Client::init("alice", "secret");
    let request = client.unzip("https://dav.example.com/docs/a.zip").unwrap();
    let mut expected = plain("POST", "https://dav.example.com/docs/a.zip", "alice", "secret");
    expected.body = Body::Form(vec![("method".to_owned(), "UNZIP".to_owned())]);
    assert_eq!(request, expected);
}

#[test]
fn mv_names_the_destination() {
    let client = Client::init("alice", "secret");
    let request = client
        .mv("https://dav.example.com/docs/a.txt", "https://dav.example.com/docs/b.txt")
        .unwrap();
    let mut expected = plain("MOVE", "https://dav.example.com/docs/a.txt", "alice", "secret");
    expected.headers.push(header("destination", "https://dav.example.com/docs/b.txt"));
    assert_eq!(request, expected);
}

#[test]
fn mv_keeps_a_destination_that_is_not_ascii() {
    let client = Client::init("alice", "secret");
    let request = client.mv("https://dav.example.com/a", "/docs/\u{e9}t\u{e9}.txt").unwrap();
    assert_eq!(request.headers.len(), 1);
    assert_eq!(request.headers[0].name, "destination");
    assert_eq!(request.headers[0].value, "/docs/\u{e9}t\u{e9}.txt".as_bytes().to_vec());
}

#[test]
fn list_asks_for_all_properties() {
    let client = Client::init("alice", "secret");
    let request = client.list("https://dav.example.com/docs/", "0").unwrap();
    let mut expected = plain("PROPFIND", "https://dav.example.com/docs/", "alice", "secret");
    expected.headers.push(header("depth", "0"));
    expected.body = Body::Bytes(
        b"<?xml version=\"1.0\" encoding=\"utf-8\"?><D:propfind xmlns:D=\"DAV:\"><D:allprop/></D:propfind>"
            .to_vec(),
    );
    assert_eq!(request, expected);
}

#[test]
fn list_passes_any_depth_through() {
    let client = Client::init("alice", "secret");
    for depth in ["1", "infinity", "seven", ""] {
        let request = client.list("https://dav.example.com/docs/", depth).unwrap();
        assert_eq!(request.headers, vec![header("depth", depth)]);
    }
}

#[test]
fn the_url_is_kept_as_the_parser_writes_it() {
    let client = Client::init("alice", "secret");
    let request = client.get("HTTPS://DAV.Example.com").unwrap();
    assert_eq!(request.url, "https://dav.example.com/");
    let request = client.get("https://dav.example.com/a b").unwrap();
    assert_eq!(request.url, "https://dav.example.com/a%20b");
}

#[test]
fn a_relative_path_is_an_error() {
    let client = Client::init("alice", "secret");
    assert!(matches!(client.get("docs/a.txt"), Err(Error::Url(_))));
    assert!(matches!(client.put(vec![1], "/docs/a.txt"), Err(Error::Url(_))));
    assert!(matches!(client.delete(""), Err(Error::Url(_))));
    assert!(matches!(client.unzip("a.zip"), Err(Error::Url(_))));
    assert!(matches!(client.mkcol("docs"), Err(Error::Url(_))));
    assert!(matches!(client.mv("a", "b"), Err(Error::Url(_))));
    assert!(matches!(client.list("docs", "0"), Err(Error::Url(_))));
}

#[test]
fn a_url_with_a_bad_port_is_an_error() {
    let client = Client::init("alice", "secret");
    assert!(matches!(client.get("https://dav.example.com:99999/"), Err(Error::Url(_))));
}

#[test]
fn a_destination_with_a_line_break_is_an_error() {
    let client = Client::init("alice", "secret");
    let result = client.mv("https://dav.example.com/a", "https://dav.example.com/b\r\nx: y");
    assert!(matches!(result, Err(Error::HeaderValue(_))));
    let result = client.mv("https://dav.example.com/a", "b\u{7f}");
    assert!(matches!(result, Err(Error::HeaderValue(_))));
    let result = client.mv("https://dav.example.com/a", "b\0");
    assert!(matches!(result, Err(Error::HeaderValue(_))));
}

#[test]
fn a_destination_with_a_tab_is_accepted() {
    let client = Client::init("alice", "secret");
    let request = client.mv("https://dav.example.com/a", "b\tc").unwrap();
    assert_eq!(request.headers, vec![header("destination", "b\tc")]);
}

#[test]
fn a_bad_url_is_reported_before_a_bad_destination() {
    let client = Client::init("alice", "secret");
    assert!(matches!(client.mv("a", "b\n"), Err(Error::Url(_))));
    assert!(matches!(client.list("a", "0\n"), Err(Error::Url(_))));
}

#[test]
fn a_depth_with_a_control_character_is_an_error() {
    let client = Client::init("alice", "secret");
    let result = client.list("https://dav.example.com/docs/", "1\n");
    assert!(matches!(result, Err(Error::HeaderValue(_))));
}

#[test]
fn credentials_that_are_not_ascii_are_carried_as_they_are() {
    let client = Client::init("j\u{fc}rgen", "p\u{e4}ss:w\u{f6}rd \u{1f511}");
    let request = client.get("https://dav.example.com/").unwrap();
    assert_eq!(request.username, "j\u{fc}rgen");
    assert_eq!(request.password, "p\u{e4}ss:w\u{f6}rd \u{1f511}");
}

#[test]
fn every_request_carries_the_credentials() {
    let client = Client::init("alice", "secret");
    let url = "https://dav.example.com/x";
    let requests = vec![
        client.get(url).unwrap(),
        client.put(vec![1], url).unwrap(),
        client.delete(url).unwrap(),
        client.unzip(url).unwrap(),
        client.mkcol(url).unwrap(),
        client.mv(url, "y").unwrap(),
        client.list(url, "1").unwrap(),
    ];
    for request in requests {
        assert_eq!(request.username, "alice");
        assert_eq!(request.password, "secret");
        assert_eq!(request.url, url);
    }
}

#[test]
fn one_call_does_not_change_the_next() {
    let client = Client::init("alice", "secret");
    let first = client.get("https://dav.example.com/x").unwrap();
    let _ = client.mv("https://dav.example.com/x", "y").unwrap();
    let _ = client.get("nonsense");
    let second = client.get("https://dav.example.com/x").unwrap();
    assert_eq!(first, second);
}

#[test]
fn start_request_checks_the_verb_first() {
    let client = Client::init("alice", "secret");
    assert!(matches!(client.start_request("BAD VERB", "nonsense"), Err(Error::Method(_))));
    assert!(matches!(client.start_request("", "https://dav.example.com/"), Err(Error::Method(_))));
    assert!(matches!(client.start_request("G\u{c9}T", "https://dav.example.com/"), Err(Error::Method(_))));
    assert!(matches!(client.start_request("REPORT", "nonsense"), Err(Error::Url(_))));
    let request = client.start_request("REPORT", "https://dav.example.com/").unwrap();
    assert_eq!(request, plain("REPORT", "https://dav.example.com/", "alice", "secret"));
}

#[test]
fn start_request_keeps_the_case_of_the_verb() {
    let client = Client::init("alice", "secret");
    let request = client.start_request("get", "https://dav.example.com/").unwrap();
    assert_eq!(request.method, "get");
    let request = client.start_request("a-very-long-extension-verb!", "https://dav.example.com/").unwrap();
    assert_eq!(request.method, "a-very-long-extension-verb!");
}

#[test]
fn request_takes_its_parts_as_given() {
    let client = Client::init("alice", "secret");
    let request = client.request("LOCK".to_owned(), "https://dav.example.com/x".to_owned());
    assert_eq!(request, plain("LOCK", "https://dav.example.com/x", "alice", "secret"));
}

#[test]
fn custom_header_lowers_the_name() {
    let client = Client::init("alice", "secret");
    let made = client.custom_header("Content-Type", "Text/Plain").unwrap();
    assert_eq!(made, header("content-type", "Text/Plain"));
    let made = client.custom_header("X-My_Header.1", "").unwrap();
    assert_eq!(made, header("x-my_header.1", ""));
}

#[test]
fn custom_header_refuses_a_bad_name() {
    let client = Client::init("alice", "secret");
    assert!(matches!(client.custom_header("", "v"), Err(Error::HeaderName(_))));
    assert!(matches!(client.custom_header("a b", "v"), Err(Error::HeaderName(_))));
    assert!(matches!(client.custom_header("a:b", "v"), Err(Error::HeaderName(_))));
    assert!(matches!(client.custom_header("d\u{e9}pth", "v"), Err(Error::HeaderName(_))));
    assert!(matches!(client.custom_header("a b", "v\n"), Err(Error::HeaderName(_))));
}

#[test]
fn custom_header_limits_the_length_of_a_name() {
    let client = Client::init("alice", "secret");
    let longest = "a".repeat(65535);
    assert_eq!(client.custom_header(&longest, "v").unwrap().name, longest);
    let too_long = "a".repeat(65536);
    assert!(matches!(client.custom_header(&too_long, "v"), Err(Error::HeaderName(_))));
    let upper = "A".repeat(70);
    assert_eq!(client.custom_header(&upper, "v").unwrap().name, "a".repeat(70));
}

#[test]
fn custom_header_refuses_a_bad_value() {
    let client = Client::init("alice", "secret");
    assert!(matches!(client.custom_header("depth", "1\r"), Err(Error::HeaderValue(_))));
    assert!(matches!(client.custom_header("depth", "\u{1f}"), Err(Error::HeaderValue(_))));
    let made = client.custom_header("depth", " \u{80}\u{ff}~").unwrap();
    assert_eq!(made.value, " \u{80}\u{ff}~".as_bytes().to_vec());
}

#[test]
fn form_params_is_one_field() {
    let client = Client::init("alice", "secret");
    assert_eq!(
        client.form_params("method", "UNZIP"),
        vec![("method".to_owned(), "UNZIP".to_owned())]
    );
}

#[test]
fn the_prelude_names_the_client() {
    let client = rustydav::prelude::Client::init("alice", "secret");
    assert!(client.get("https://dav.example.com/").is_ok());
}
