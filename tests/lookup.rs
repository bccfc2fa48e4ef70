use std::collections::HashMap;

use static_http_cache::fetch::{advance, Action, Event, Fetch, GetError, Phase, Request};
use static_http_cache::record::{CacheRecord, LookupError};

const DATE_ZERO: &str = "Thu, 01 Jan 1970 00:00:00 GMT";
const DATE_ONE: &str = "Thu, 01 Jan 1970 00:00:00 GMT";

/// What a scripted server sends back: status, Last-Modified, ETag and body.
struct Reply {
    status: u16,
    last_modified: Option<&'static str>,
    etag: Option<&'static str>,
    body: &'static [u8],
}

fn reply(status: u16, last_modified: Option<&'static str>, etag: Option<&'static str>, body: &'static [u8]) -> Option<Reply> {
    Some(Reply { status, last_modified, etag, body })
}

/// A cache root in memory: committed rows, content files, and faults to inject.
#[derive(Default)]
struct World {
    rows: HashMap<String, CacheRecord>,
    files: HashMap<String, Vec<u8>>,
    requests: Vec<Request>,
    taken_names: usize,
    fail_copy: bool,
    fail_commit: bool,
}

impl World {
    /// Runs one lookup of `url`; `server` answers the request, `None` meaning
    /// that the server cannot be reached.
    fn get(&mut self, url: &str, server: Option<Reply>) -> Result<Vec<u8>, GetError> {
        let (mut fetch, mut action) = Fetch::start(url);
        let mut pending: Option<(String, CacheRecord)> = None;
        let mut created: Option<String> = None;
        let mut body: &[u8] = b"";
        let mut server = server;
        loop {
            let event = match action {
                Action::Lookup { key } => Event::LookedUp(match self.rows.get(&key) {
                    Some(r) => Ok(r.clone()),
                    None => Err(LookupError::NotFound),
                }),
                Action::Send { request } => {
                    self.requests.push(request);
                    match server.take() {
                        Some(r) => {
                            body = r.body;
                            static_http_cache::fetch::response_event(
                                r.status,
                                r.last_modified.map(|s| s.as_bytes()),
                                r.etag.map(|s| s.as_bytes()),
                            )
                        }
                        None => Event::Unreachable,
                    }
                }
                Action::CreateContent { path } => {
                    if self.taken_names > 0 {
                        self.taken_names -= 1;
                        Event::NameTaken
                    } else if self.files.contains_key(&path) {
                        Event::NameTaken
                    } else {
                        self.files.insert(path.clone(), vec![]);
                        created = Some(path);
                        Event::Succeeded
                    }
                }
                Action::BeginUpsert { key, record } => {
                    pending = Some((key, record));
                    Event::Succeeded
                }
                Action::CopyBody => {
                    let file = self.files.get_mut(created.as_ref().unwrap()).unwrap();
                    if self.fail_copy {
                        file.extend_from_slice(&body[..body.len() / 2]);
                        Event::Failed
                    } else {
                        file.extend_from_slice(body);
                        Event::Succeeded
                    }
                }
                Action::Commit => {
                    if self.fail_commit {
                        Event::Failed
                    } else {
                        let (key, record) = pending.take().unwrap();
                        self.rows.insert(key, record);
                        Event::Succeeded
                    }
                }
                Action::OpenContent { path } => return Ok(self.files[&path].clone()),
                Action::Abandon { error } => {
                    // Rolling back drops the uncommitted record.
                    drop(pending.take());
                    return Err(error);
                }
                Action::Fail { error } => return Err(error),
            };
            assert!(fetch.expects(&event));
            action = fetch.step(event);
        }
    }

    fn last_request(&self) -> &Request {
        self.requests.last().unwrap()
    }
}

fn plain(url: &str) -> Request {
    Request { url: url.to_string(), if_modified_since: None, if_none_match: None }
}

fn conditional(url: &str, since: Option<&str>, none_match: Option<&str>) -> Request {
    Request {
        url: url.to_string(),
        if_modified_since: since.map(|s| s.to_string()),
        if_none_match: none_match.map(|s| s.to_string()),
    }
}

#[test]
fn initial_request_success() {
    let mut c = World::default();
    let res = c.get("http://example.com/", reply(200, None, None, b"hello world")).unwrap();
    assert_eq!(&res, b"hello world");
    assert_eq!(c.last_request(), &plain("http://example.com/"));
    let record = &c.rows["http://example.com/"];
    assert_eq!(record.last_modified, None);
    assert_eq!(record.etag, None);
    assert_eq!(c.files.len(), 1);
}

#[test]
fn initial_request_failure() {
    let mut c = World::default();
    let err = c.get("http://example.com/", reply(500, None, None, b"")).expect_err("Got a response??");
    assert_eq!(err, GetError::Status { code: 500 });
    assert_eq!(c.last_request(), &plain("http://example.com/"));
    assert!(c.rows.is_empty());
}

#[test]
fn initial_request_unreachable() {
    let mut c = World::default();
    let err = c.get("http://example.com/", None).unwrap_err();
    assert_eq!(err, GetError::Unreachable);
    assert!(c.rows.is_empty());
    assert!(c.files.is_empty());
}

#[test]
fn ignore_fragment_in_url() {
    let mut c = World::default();
    c.get("http://example.com/#frag", reply(200, None, None, b"hello world")).unwrap();
    // The request goes to the URL without the fragment.
    assert_eq!(c.last_request(), &plain("http://example.com/"));
    assert!(c.rows.contains_key("http://example.com/"));
}

#[test]
fn use_cache_data_if_not_modified_since() {
    let mut c = World::default();
    let body = b"hello world";
    c.get("http://example.com/", reply(200, Some(DATE_ZERO), None, body)).unwrap();
    assert_eq!(c.last_request(), &plain("http://example.com/"));

    let res = c.get("http://example.com/", reply(304, Some(DATE_ZERO), None, b"")).unwrap();
    assert_eq!(c.last_request(), &conditional("http://example.com/", Some(DATE_ZERO), None));
    assert_eq!(&res, body);
}

#[test]
fn update_cache_if_modified_since() {
    let mut c = World::default();
    c.get("http://example.com/", reply(200, Some(DATE_ZERO), None, b"hello")).unwrap();

    let res = c.get("http://example.com/", reply(200, Some(DATE_ONE), None, b"world")).unwrap();
    assert_eq!(c.last_request(), &conditional("http://example.com/", Some(DATE_ZERO), None));
    assert_eq!(&res, b"world");

    let res = c.get("http://example.com/", reply(304, None, None, b"")).unwrap();
    assert_eq!(c.last_request(), &conditional("http://example.com/", Some(DATE_ONE), None));
    assert_eq!(&res, b"world");
}

#[test]
fn return_existing_data_on_connection_refused() {
    let mut c = World::default();
    c.get("http://example.com/", reply(200, Some(DATE_ZERO), None, b"hello")).unwrap();
    let before = c.rows.clone();

    let res = c.get("http://example.com/", None).unwrap();
    assert_eq!(c.last_request(), &conditional("http://example.com/", Some(DATE_ZERO), None));
    assert_eq!(&res, b"hello");
    assert_eq!(c.rows, before);
}

#[test]
fn use_cache_data_if_some_match() {
    let mut c = World::default();
    let body = b"hello world";
    c.get("http://example.com/", reply(200, None, Some("abcd"), body)).unwrap();
    let before = c.rows.clone();

    let res = c.get("http://example.com/", reply(304, None, Some("abcd"), b"")).unwrap();
    assert_eq!(c.last_request(), &conditional("http://example.com/", None, Some("abcd")));
    assert_eq!(&res, body);
    assert_eq!(c.rows, before);
}

#[test]
fn update_cache_if_none_match() {
    let mut c = World::default();
    c.get("http://example.com/", reply(200, None, Some("abcd"), b"hello")).unwrap();

    let res = c.get("http://example.com/", reply(200, None, Some("efgh"), b"world")).unwrap();
    assert_eq!(c.last_request(), &conditional("http://example.com/", None, Some("abcd")));
    assert_eq!(&res, b"world");

    let res = c.get("http://example.com/", reply(304, None, None, b"")).unwrap();
    assert_eq!(c.last_request(), &conditional("http://example.com/", None, Some("efgh")));
    assert_eq!(&res, b"world");
}

#[test]
fn revalidating_twice_keeps_one_row_and_one_file() {
    let mut c = World::default();
    let first = c.get("http://example.com/a", reply(200, None, Some("v1"), b"b1")).unwrap();
    let second = c.get("http://example.com/a", reply(304, None, None, b"")).unwrap();
    let third = c.get("http://example.com/a", reply(304, None, None, b"")).unwrap();
    assert_eq!(first, b"b1");
    assert_eq!(second, b"b1");
    assert_eq!(third, b"b1");
    assert_eq!(c.rows.len(), 1);
    assert_eq!(c.files.len(), 1);
}

#[test]
fn fragment_variants_share_one_row() {
    let mut c = World::default();
    c.get("http://example.com/x#f1", reply(200, None, Some("one"), b"first")).unwrap();
    let res = c.get("http://example.com/x#f2", reply(304, None, None, b"")).unwrap();
    assert_eq!(c.last_request(), &conditional("http://example.com/x", None, Some("one")));
    assert_eq!(res, b"first");
    let res = c.get("http://example.com/x", reply(200, None, Some("two"), b"second")).unwrap();
    assert_eq!(res, b"second");
    let res = c.get("http://example.com/x#f1", reply(304, None, None, b"")).unwrap();
    assert_eq!(c.last_request(), &conditional("http://example.com/x", None, Some("two")));
    assert_eq!(res, b"second");
    assert_eq!(c.rows.len(), 1);
}

#[test]
fn both_validators_are_sent() {
    let mut c = World::default();
    c.get("http://example.com/", reply(200, Some(DATE_ZERO), Some("\"tag\""), b"x")).unwrap();
    c.get("http://example.com/", reply(304, None, None, b"")).unwrap();
    assert_eq!(c.last_request(), &conditional("http://example.com/", Some(DATE_ZERO), Some("\"tag\"")));
}

#[test]
fn server_error_during_revalidation_serves_cached_copy() {
    let mut c = World::default();
    c.get("http://example.com/", reply(200, None, Some("abcd"), b"cached")).unwrap();
    let before = c.rows.clone();
    for status in [400, 404, 500, 503, 599] {
        let res = c.get("http://example.com/", reply(status, None, Some("new"), b"error page")).unwrap();
        assert_eq!(res, b"cached");
        assert_eq!(c.rows, before);
    }
    assert_eq!(c.files.len(), 1);
}

#[test]
fn interrupted_copy_leaves_no_row() {
    let mut c = World { fail_copy: true, ..World::default() };
    let err = c.get("http://example.com/", reply(200, None, Some("abcd"), b"hello world")).unwrap_err();
    assert_eq!(err, GetError::Storage);
    assert!(c.rows.is_empty());
}

#[test]
fn interrupted_copy_keeps_previous_row() {
    let mut c = World::default();
    c.get("http://example.com/", reply(200, None, Some("abcd"), b"hello")).unwrap();
    let before = c.rows.clone();
    c.fail_copy = true;
    let err = c.get("http://example.com/", reply(200, None, Some("efgh"), b"world")).unwrap_err();
    assert_eq!(err, GetError::Storage);
    assert_eq!(c.rows, before);
    c.fail_copy = false;
    let res = c.get("http://example.com/", reply(304, None, None, b"")).unwrap();
    assert_eq!(c.last_request(), &conditional("http://example.com/", None, Some("abcd")));
    assert_eq!(res, b"hello");
}

#[test]
fn failed_commit_is_an_error() {
    let mut c = World { fail_commit: true, ..World::default() };
    let err = c.get("http://example.com/", reply(200, None, None, b"hello")).unwrap_err();
    assert_eq!(err, GetError::Store);
    assert!(c.rows.is_empty());
}

#[test]
fn taken_names_are_retried() {
    let mut c = World { taken_names: 3, ..World::default() };
    let res = c.get("http://example.com/", reply(200, None, None, b"hello")).unwrap();
    assert_eq!(res, b"hello");
    assert_eq!(c.files.len(), 1);
    let path = &c.rows["http://example.com/"].path;
    assert!(path.starts_with("content/"));
    assert_eq!(path.len(), "content/".len() + 20);
}

#[test]
fn unreadable_header_is_stored_as_absent() {
    let mut c = World::default();
    c.get("http://example.com/", reply(200, Some("caf\u{e9}"), Some("ok"), b"x")).unwrap();
    let record = &c.rows["http://example.com/"];
    assert_eq!(record.last_modified, None);
    assert_eq!(record.etag, Some("ok".to_string()));
}

#[test]
fn unsendable_validator_fails() {
    let mut c = World::default();
    c.rows.insert(
        "http://example.com/".to_string(),
        CacheRecord { path: "content/x".to_string(), last_modified: None, etag: Some("a\nb".to_string()) },
    );
    c.files.insert("content/x".to_string(), b"old".to_vec());
    let err = c.get("http://example.com/", reply(304, None, None, b"")).unwrap_err();
    assert_eq!(err, GetError::BadValidator);
    assert!(c.requests.is_empty());
}

#[test]
fn lookup_error_counts_as_miss() {
    let key = "http://example.com/".to_string();
    let (phase, action) = advance(
        &key,
        Phase::LookingUp,
        Event::LookedUp(Err(LookupError::Unavailable)),
        &"t".repeat(20),
    );
    assert_eq!(phase, Phase::Downloading);
    assert_eq!(action, Action::Send { request: plain("http://example.com/") });
}

#[test]
fn not_modified_on_first_download_stores_empty_body() {
    let mut c = World::default();
    let res = c.get("http://example.com/", reply(304, None, None, b"")).unwrap();
    assert_eq!(res, b"");
    assert_eq!(c.rows.len(), 1);
}

#[test]
fn advance_names_file_after_token() {
    let key = "http://example.com/".to_string();
    let token = "ABCDEFGHIJ0123456789".to_string();
    let (phase, action) = advance(
        &key,
        Phase::Downloading,
        Event::Received { status: 200, last_modified: None, etag: Some("e".to_string()) },
        &token,
    );
    let path = "content/ABCDEFGHIJ0123456789".to_string();
    assert_eq!(action, Action::CreateContent { path: path.clone() });
    assert_eq!(phase, Phase::Creating { path: path.clone(), last_modified: None, etag: Some("e".to_string()) });

    let (phase, action) = advance(&key, phase, Event::Succeeded, &token);
    let record = CacheRecord { path: path.clone(), last_modified: None, etag: Some("e".to_string()) };
    assert_eq!(action, Action::BeginUpsert { key: key.clone(), record: record.clone() });
    let (phase, action) = advance(&key, phase, Event::Succeeded, &token);
    assert_eq!(action, Action::CopyBody);
    let (phase, action) = advance(&key, phase, Event::Succeeded, &token);
    assert_eq!(action, Action::Commit);
    let (phase, action) = advance(&key, phase, Event::Succeeded, &token);
    assert_eq!(action, Action::OpenContent { path: path.clone() });
    assert_eq!(phase, Phase::Served { path });
}

#[test]
fn finished_lookup_expects_nothing() {
    let (mut fetch, _) = Fetch::start("http://example.com/");
    assert!(!fetch.is_finished());
    let action = fetch.step(Event::LookedUp(Err(LookupError::NotFound)));
    assert_eq!(action, Action::Send { request: plain("http://example.com/") });
    let action = fetch.step(Event::Unreachable);
    assert_eq!(action, Action::Fail { error: GetError::Unreachable });
    assert!(fetch.is_finished());
    assert!(!fetch.expects(&Event::Succeeded));
    assert!(!fetch.expects(&Event::Unreachable));
}
