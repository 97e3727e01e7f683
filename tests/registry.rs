use sn0int::registry::{
    ApiResponse, DownloadResponse, ModuleInfoResponse, PublishRequest, PublishResponse, RegistryError,
    SearchResponse, WhoamiResponse, decode_envelope, decode_payload, decode_search,
};
use sn0int::value::GuestValue;

fn s(x: &str) -> String {
    x.to_string()
}

fn text(x: &str) -> GuestValue {
    GuestValue::Str(s(x))
}

fn table(entries: Vec<(&str, GuestValue)>) -> GuestValue {
    GuestValue::Table(entries.into_iter().map(|(k, v)| (s(k), v)).collect())
}

#[test]
fn success_envelope_decodes_to_payload() {
    let body = table(vec![("success", table(vec![("user", text("alice"))]))]);
    let payload = decode_payload(body).ok().expect("success payload");
    let w = WhoamiResponse::from_value(&payload).ok().expect("whoami payload");
    assert_eq!(w.user, "alice");
}

#[test]
fn error_envelope_decodes_to_failure() {
    let body = table(vec![("error", text("not found"))]);
    match decode_payload(body) {
        Err(RegistryError::Server(m)) => assert_eq!(m, "not found"),
        _ => panic!("server error expected"),
    }
    match decode_envelope(table(vec![("error", text("not found"))])) {
        Ok(ApiResponse::Error(m)) => assert_eq!(m, "not found"),
        _ => panic!("error envelope expected"),
    }
}

#[test]
fn api_response_success_unwraps() {
    assert_eq!(ApiResponse::Success(7u8).success().ok(), Some(7));
    match ApiResponse::<u8>::Error(s("nope")).success() {
        Err(RegistryError::Server(m)) => assert_eq!(m, "nope"),
        _ => panic!("server error expected"),
    }
}

#[test]
fn malformed_envelopes_are_protocol_errors() {
    assert!(matches!(decode_payload(text("x")), Err(RegistryError::Malformed)));
    assert!(matches!(decode_payload(table(vec![])), Err(RegistryError::Malformed)));
    assert!(matches!(decode_payload(table(vec![("other", text("x"))])), Err(RegistryError::Malformed)));
    assert!(matches!(decode_payload(table(vec![("error", GuestValue::Number(3))])), Err(RegistryError::Malformed)));
    let two = table(vec![("success", text("a")), ("error", text("b"))]);
    assert!(matches!(decode_payload(two), Err(RegistryError::Malformed)));
    assert!(matches!(WhoamiResponse::from_value(&table(vec![])), Err(RegistryError::Malformed)));
}

fn hit(author: &str, name: &str, featured: bool) -> GuestValue {
    table(vec![
        ("author", text(author)),
        ("name", text(name)),
        ("description", text("does things")),
        ("latest", text("0.2.0")),
        ("downloads", GuestValue::Number(42)),
        ("featured", GuestValue::Bool(featured)),
    ])
}

#[test]
fn canonical_name_is_author_slash_name() {
    let r = SearchResponse::from_value(&hit("bob", "tool", false)).ok().expect("search hit");
    assert_eq!(r.canonical(), "bob/tool");
    assert_eq!(r.downloads, 42);
    assert!(!r.featured);
}

#[test]
fn search_results_keep_order_and_flags() {
    let v = GuestValue::List(vec![hit("a", "one", true), hit("b", "two", false)]);
    let hits = decode_search(&v).ok().expect("search list");
    assert_eq!(hits.len(), 2);
    assert_eq!(hits[0].canonical(), "a/one");
    assert!(hits[0].featured);
    assert_eq!(hits[1].canonical(), "b/two");
    assert!(!hits[1].featured);
    let broken = GuestValue::List(vec![hit("a", "one", true), text("x")]);
    assert!(matches!(decode_search(&broken), Err(RegistryError::Malformed)));
}

#[test]
fn module_info_latest_may_be_absent() {
    let v = table(vec![("author", text("a")), ("name", text("n")), ("description", text("d"))]);
    let m = ModuleInfoResponse::from_value(&v).ok().expect("module info");
    assert!(m.latest.is_none());
    let v = table(vec![
        ("author", text("a")),
        ("name", text("n")),
        ("description", text("d")),
        ("latest", text("1.0")),
    ]);
    let m = ModuleInfoResponse::from_value(&v).ok().expect("module info");
    assert_eq!(m.latest, Some(s("1.0")));
}

#[test]
fn publish_and_download_payloads() {
    let v = table(vec![("author", text("a")), ("name", text("n")), ("version", text("0.1"))]);
    let p = PublishResponse::from_value(&v).ok().expect("publish reply");
    assert_eq!((p.author.as_str(), p.name.as_str(), p.version.as_str()), ("a", "n", "0.1"));
    let v = table(vec![
        ("author", text("a")),
        ("name", text("n")),
        ("version", text("0.1")),
        ("code", text("-- code")),
    ]);
    let d = DownloadResponse::from_value(&v).ok().expect("download reply");
    assert_eq!(d.code, "-- code");
    match (PublishRequest { code: s("print(1)") }).to_value() {
        GuestValue::Table(es) => {
            assert_eq!(es.len(), 1);
            assert_eq!(es[0].0, "code");
            assert!(matches!(&es[0].1, GuestValue::Str(c) if c == "print(1)"));
        },
        _ => panic!("table expected"),
    }
}
