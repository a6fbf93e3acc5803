use bukubrow::database::{BukuDatabase, DbError};
use bukubrow::json::{Json, JsonNumber};
use bukubrow::request::Method;
use bukubrow::server::{map_init_err_friendly_msg, InitError, ListenStep, Server};
use bukubrow::native_messaging::{read_input, NativeMessagingError};
use bukubrow::types::{BookmarkId, SavedBookmark, UnsavedBookmark};
use serde_json::Value;

fn obj(members: Vec<(&str, Value)>) -> Value {
    let mut m = serde_json::Map::new();
    for (k, v) in members {
        m.insert(k.to_string(), v);
    }
    Value::Object(m)
}

fn jobj(members: Vec<(&str, Json)>) -> Json {
    Json::Object(members.into_iter().map(|(k, v)| (k.to_string(), v)).collect())
}

fn jstr(s: &str) -> Json {
    Json::String(s.to_string())
}

fn jint(n: u64) -> Json {
    Json::Number(JsonNumber::PosInt(n))
}

fn parse(bytes: &[u8]) -> Value {
    serde_json::from_slice(bytes).unwrap()
}

fn shared_mock_update_ids() -> Vec<usize> {
    vec![1, 2, 3, 4]
}

struct BukuMock {}

impl BukuDatabase for BukuMock {
    fn get_all_bookmarks(&self) -> Result<Vec<SavedBookmark>, DbError> {
        Ok(Vec::new())
    }

    fn get_bookmarks_by_id(&self, _ids: Vec<BookmarkId>) -> Result<Vec<SavedBookmark>, DbError> {
        Ok(Vec::new())
    }

    fn add_bookmarks(&self, _bm: &Vec<UnsavedBookmark>) -> Result<Vec<usize>, DbError> {
        Ok(shared_mock_update_ids())
    }

    fn update_bookmarks(&self, _bm: &Vec<SavedBookmark>) -> Result<Vec<usize>, DbError> {
        Ok(shared_mock_update_ids())
    }

    fn delete_bookmarks(&self, _bm_ids: &Vec<BookmarkId>) -> Result<Vec<usize>, DbError> {
        Ok(shared_mock_update_ids())
    }
}

/// Storage that fails every call.
struct FailingMock {}

impl BukuDatabase for FailingMock {
    fn get_all_bookmarks(&self) -> Result<Vec<SavedBookmark>, DbError> {
        Err(DbError { message: "gone".to_string() })
    }

    fn get_bookmarks_by_id(&self, _ids: Vec<BookmarkId>) -> Result<Vec<SavedBookmark>, DbError> {
        Err(DbError { message: "gone".to_string() })
    }

    fn add_bookmarks(&self, _bm: &Vec<UnsavedBookmark>) -> Result<Vec<usize>, DbError> {
        Err(DbError { message: "gone".to_string() })
    }

    fn update_bookmarks(&self, _bm: &Vec<SavedBookmark>) -> Result<Vec<usize>, DbError> {
        Err(DbError { message: "gone".to_string() })
    }

    fn delete_bookmarks(&self, _bm_ids: &Vec<BookmarkId>) -> Result<Vec<usize>, DbError> {
        Err(DbError { message: "gone".to_string() })
    }
}

fn create_mocked_server() -> Server<BukuMock> {
    Server::new(Ok(BukuMock {}))
}

fn create_mocked_server_with_init_err(err: InitError) -> Server<BukuMock> {
    Server::new(Err(err))
}

fn bookmark_json(url: &str, metadata: &str, tags: &str, desc: &str, flags: u64) -> Json {
    jobj(vec![
        ("url", jstr(url)),
        ("metadata", jstr(metadata)),
        ("tags", jstr(tags)),
        ("desc", jstr(desc)),
        ("flags", jint(flags)),
    ])
}

fn create_example_saved_bookmarks() -> Json {
    let mut b = bookmark_json("https://samhh.com", "title", "", "description", 0);
    if let Json::Object(members) = &mut b {
        members.push(("id".to_string(), jint(0)));
    }
    Json::Array(vec![b])
}

fn create_example_unsaved_bookmarks() -> Json {
    Json::Array(vec![bookmark_json("https://samhh.com", "title", "", "description", 0)])
}

#[test]
fn test_method_deserializer() {
    let server = create_mocked_server();

    assert_eq!(server.method_deserializer(jobj(vec![("method", jstr("GET"))])), Method::Get);
    assert_eq!(
        server.method_deserializer(jobj(vec![("method", jstr("get"))])),
        Method::UnknownMethod
    );
    assert_eq!(server.method_deserializer(jobj(vec![])), Method::NoMethod);
    assert_eq!(
        server.method_deserializer(jobj(vec![("other", jstr("property"))])),
        Method::NoMethod
    );
}

#[test]
fn test_router_with_locate_init_error() {
    let server_failed_locating =
        create_mocked_server_with_init_err(InitError::FailedToLocateBukuDatabase);

    assert_eq!(
        server_failed_locating.router(jobj(vec![("method", jstr("GET"))])),
        server_failed_locating.fail_init_error(&InitError::FailedToLocateBukuDatabase),
    );
}

#[test]
fn test_router_with_access_init_error() {
    let server_failed_locating =
        create_mocked_server_with_init_err(InitError::FailedToAccessBukuDatabase);

    assert_eq!(
        server_failed_locating.router(jobj(vec![("method", jstr("GET"))])),
        server_failed_locating.fail_init_error(&InitError::FailedToAccessBukuDatabase),
    );
}

#[test]
fn test_router_get() {
    let server = create_mocked_server();
    let empty_page = obj(vec![
        ("success", Value::Bool(true)),
        ("bookmarks", Value::Array(vec![])),
        ("moreAvailable", Value::Bool(false)),
    ]);

    assert_eq!(parse(&server.router(jobj(vec![("method", jstr("GET"))]))), empty_page);
    assert_eq!(
        parse(&server.router(jobj(vec![
            ("method", jstr("GET")),
            ("data", jobj(vec![("offset", jint(1))])),
        ]))),
        empty_page,
    );
}

#[test]
fn test_router_options() {
    let server = create_mocked_server();

    assert_eq!(
        parse(&server.router(jobj(vec![("method", jstr("OPTIONS"))]))),
        obj(vec![
            ("success", Value::Bool(true)),
            ("binaryVersion", Value::String("5.4.0".to_string())),
        ])
    );
}

#[test]
fn test_router_post() {
    let server = create_mocked_server();

    assert_eq!(server.router(jobj(vec![("method", jstr("POST"))])), server.fail_bad_payload());
    assert_eq!(
        parse(&server.router(jobj(vec![
            ("method", jstr("POST")),
            ("data", jobj(vec![("bookmarks", create_example_unsaved_bookmarks())])),
        ]))),
        obj(vec![
            ("success", Value::Bool(true)),
            (
                "ids",
                Value::Array(shared_mock_update_ids().into_iter().map(Value::from).collect()),
            ),
        ]),
    );
}

#[test]
fn test_router_put() {
    let server = create_mocked_server();

    assert_eq!(server.router(jobj(vec![("method", jstr("PUT"))])), server.fail_bad_payload());
    assert_eq!(
        parse(&server.router(jobj(vec![
            ("method", jstr("PUT")),
            ("data", jobj(vec![("bookmarks", create_example_saved_bookmarks())])),
        ]))),
        obj(vec![("success", Value::Bool(true))]),
    );
}

#[test]
fn test_router_delete() {
    let server = create_mocked_server();

    assert_eq!(server.router(jobj(vec![("method", jstr("DELETE"))])), server.fail_bad_payload());
    assert_eq!(
        server.router(jobj(vec![("method", jstr("DELETE")), ("bookmarkId", jint(99))])),
        server.fail_bad_payload(),
    );
    assert_eq!(
        server.router(jobj(vec![("method", jstr("DELETE")), ("bookmark_id", jint(99))])),
        server.fail_bad_payload(),
    );
    assert_eq!(
        server.router(jobj(vec![
            ("method", jstr("DELETE")),
            ("data", jobj(vec![("bookmark_id", jint(99))])),
        ])),
        server.fail_bad_payload(),
    );
    assert_eq!(
        parse(&server.router(jobj(vec![
            ("method", jstr("DELETE")),
            ("data", jobj(vec![("bookmark_ids", Json::Array(vec![jint(99)]))])),
        ]))),
        obj(vec![("success", Value::Bool(true))]),
    );
}

#[test]
fn failure_replies_have_their_fixed_text() {
    let server = create_mocked_server();
    assert_eq!(server.fail_generic(), b"{\"success\":false}".to_vec());
    assert_eq!(
        server.fail_no_method(),
        b"{\"message\":\"Missing method type.\",\"success\":false}".to_vec()
    );
    assert_eq!(
        server.fail_unknown_method(),
        b"{\"message\":\"Unrecognised method type.\",\"success\":false}".to_vec()
    );
    assert_eq!(
        server.fail_bad_payload(),
        b"{\"message\":\"Bad request payload.\",\"success\":false}".to_vec()
    );
    assert_eq!(
        server.fail_init_error(&InitError::FailedToAccessBukuDatabase),
        b"{\"message\":\"Failed to access Buku database.\",\"success\":false}".to_vec()
    );
}

#[test]
fn init_error_messages() {
    assert_eq!(
        map_init_err_friendly_msg(&InitError::FailedToLocateBukuDatabase),
        "Failed to locate Buku database."
    );
    assert_eq!(
        map_init_err_friendly_msg(&InitError::FailedToAccessBukuDatabase),
        "Failed to access Buku database."
    );
}

#[test]
fn router_reports_missing_and_unknown_methods() {
    let server = create_mocked_server();
    assert_eq!(server.router(jobj(vec![])), server.fail_no_method());
    assert_eq!(server.router(jobj(vec![("method", jstr("get"))])), server.fail_unknown_method());
    assert_eq!(server.router(jobj(vec![("method", jint(5))])), server.fail_no_method());
    assert_eq!(server.router(jstr("GET")), server.fail_no_method());
}

#[test]
fn router_rejects_malformed_offsets() {
    let server = create_mocked_server();
    for offset in [
        jstr("1"),
        Json::Number(JsonNumber::NegInt(-1)),
        Json::Number(JsonNumber::Float(1.5f64.to_bits())),
    ] {
        assert_eq!(
            server.router(jobj(vec![("method", jstr("GET")), ("data", jobj(vec![("offset", offset)]))])),
            server.fail_bad_payload()
        );
    }
    assert_eq!(
        server.router(jobj(vec![("method", jstr("GET")), ("data", jstr("x"))])),
        server.fail_bad_payload()
    );
}

#[test]
fn router_accepts_null_data_and_offset() {
    let server = create_mocked_server();
    let empty = b"{\"bookmarks\":[],\"moreAvailable\":false,\"success\":true}".to_vec();
    assert_eq!(server.router(jobj(vec![("method", jstr("GET")), ("data", Json::Null)])), empty);
    assert_eq!(
        server.router(jobj(vec![
            ("method", jstr("GET")),
            ("data", jobj(vec![("offset", Json::Null)])),
        ])),
        empty
    );
}

#[test]
fn router_rejects_malformed_bookmarks() {
    let server = create_mocked_server();
    let missing_flags = Json::Array(vec![jobj(vec![
        ("url", jstr("u")),
        ("metadata", jstr("m")),
        ("tags", jstr("t")),
        ("desc", jstr("d")),
    ])]);
    assert_eq!(
        server.router(jobj(vec![
            ("method", jstr("POST")),
            ("data", jobj(vec![("bookmarks", missing_flags)])),
        ])),
        server.fail_bad_payload()
    );
    // A saved bookmark needs an identifier.
    assert_eq!(
        server.router(jobj(vec![
            ("method", jstr("PUT")),
            ("data", jobj(vec![("bookmarks", create_example_unsaved_bookmarks())])),
        ])),
        server.fail_bad_payload()
    );
    let negative_id = Json::Array(vec![Json::Number(JsonNumber::NegInt(-3))]);
    assert_eq!(
        server.router(jobj(vec![
            ("method", jstr("DELETE")),
            ("data", jobj(vec![("bookmark_ids", negative_id)])),
        ])),
        server.fail_bad_payload()
    );
}

#[test]
fn storage_failures_become_plain_failures() {
    let server: Server<FailingMock> = Server::new(Ok(FailingMock {}));
    let failure = b"{\"success\":false}".to_vec();
    assert_eq!(server.router(jobj(vec![("method", jstr("GET"))])), failure);
    assert_eq!(
        server.router(jobj(vec![
            ("method", jstr("POST")),
            ("data", jobj(vec![("bookmarks", create_example_unsaved_bookmarks())])),
        ])),
        failure
    );
    assert_eq!(
        server.router(jobj(vec![
            ("method", jstr("DELETE")),
            ("data", jobj(vec![("bookmark_ids", Json::Array(vec![jint(99)]))])),
        ])),
        failure
    );
}

#[test]
fn post_reply_lists_ids_in_decimal() {
    let server = create_mocked_server();
    assert_eq!(
        server.respond_post(&Ok(vec![0, 7, 42, 1_000_000])),
        b"{\"ids\":[0,7,42,1000000],\"success\":true}".to_vec()
    );
    assert_eq!(server.respond_post(&Ok(vec![])), b"{\"ids\":[],\"success\":true}".to_vec());
}

#[test]
fn listen_step_answers_in_a_frame() {
    let server = create_mocked_server();
    match server.listen_step(Ok(jobj(vec![("method", jstr("PUT"))]))) {
        ListenStep::Reply(frame) => {
            assert_eq!(read_input(&frame).unwrap(), server.fail_bad_payload());
        }
        ListenStep::Stop(_) => panic!("expected a reply"),
    }
}

#[test]
fn listen_step_stops_on_read_errors() {
    let server = create_mocked_server();
    match server.listen_step(Err(NativeMessagingError::NoMoreInput)) {
        ListenStep::Stop(r) => assert_eq!(r, Err(NativeMessagingError::NoMoreInput)),
        ListenStep::Reply(_) => panic!("expected to stop"),
    }
    match server.listen_step(Err(NativeMessagingError::UnknownFailure)) {
        ListenStep::Stop(r) => assert_eq!(r, Err(NativeMessagingError::UnknownFailure)),
        ListenStep::Reply(_) => panic!("expected to stop"),
    }
}
