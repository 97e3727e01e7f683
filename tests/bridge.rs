use sn0int::context::{HostContext, TransportOutcome, cookie_header};
use sn0int::host::{ExecError, HostError, HttpResponse, parse_request, response_to_value};
use sn0int::options::{BridgeError, Field, parse_options};
use sn0int::session::decimal_text;
use sn0int::value::GuestValue;

fn s(x: &str) -> String {
    x.to_string()
}

fn text(x: &str) -> GuestValue {
    GuestValue::Str(s(x))
}

fn table(entries: Vec<(&str, GuestValue)>) -> GuestValue {
    GuestValue::Table(entries.into_iter().map(|(k, v)| (s(k), v)).collect())
}

fn get<'a>(v: &'a GuestValue, key: &str) -> Option<&'a GuestValue> {
    match v {
        GuestValue::Table(es) => es.iter().find(|(k, _)| k == key).map(|(_, v)| v),
        _ => None,
    }
}

fn pairs(v: &[(String, String)]) -> Vec<(&str, &str)> {
    v.iter().map(|(a, b)| (a.as_str(), b.as_str())).collect()
}

#[test]
fn options_keep_every_recognized_field() {
    let v = table(vec![
        ("headers", table(vec![("Content-Type", text("application/json"))])),
        ("query", table(vec![("foo", text("bar")), ("fizz", text("buzz"))])),
        ("json", table(vec![("hello", text("world"))])),
        ("timeout", GuestValue::Number(250)),
        ("unrelated", GuestValue::Bool(true)),
    ]);
    let o = parse_options(v).ok().expect("well-formed options");
    assert_eq!(pairs(&o.headers), vec![("Content-Type", "application/json")]);
    assert_eq!(pairs(&o.query), vec![("foo", "bar"), ("fizz", "buzz")]);
    assert_eq!(o.timeout, Some(250));
    assert!(o.form.is_none());
    match o.json {
        Some(GuestValue::Table(es)) => {
            assert_eq!(es.len(), 1);
            assert_eq!(es[0].0, "hello");
            assert!(matches!(&es[0].1, GuestValue::Str(x) if x == "world"));
        },
        _ => panic!("json body lost"),
    }
}

#[test]
fn empty_options_default_to_nothing() {
    let o = parse_options(table(vec![])).ok().expect("empty options");
    assert!(o.headers.is_empty());
    assert!(o.query.is_empty());
    assert!(o.json.is_none() && o.form.is_none() && o.timeout.is_none());
}

#[test]
fn json_and_form_together_are_rejected() {
    let v = table(vec![
        ("json", table(vec![("a", text("b"))])),
        ("form", table(vec![("c", text("d"))])),
    ]);
    assert_eq!(parse_options(v).err(), Some(BridgeError::BothBodies));
}

#[test]
fn malformed_options_name_the_field() {
    let v = table(vec![("headers", table(vec![("X", GuestValue::Number(1))]))]);
    assert_eq!(parse_options(v).err(), Some(BridgeError::WrongShape(Field::Headers)));
    let v = table(vec![("query", text("foo=bar"))]);
    assert_eq!(parse_options(v).err(), Some(BridgeError::WrongShape(Field::Query)));
    let v = table(vec![("timeout", GuestValue::Number(-1))]);
    assert_eq!(parse_options(v).err(), Some(BridgeError::WrongShape(Field::Timeout)));
    assert_eq!(parse_options(text("x")).err(), Some(BridgeError::NotATable));
}

#[test]
fn request_without_url_is_rejected() {
    let v = table(vec![("session", text("0")), ("method", text("GET"))]);
    assert_eq!(parse_request(v).err(), Some(BridgeError::MissingField(Field::Url)));
}

#[test]
fn handles_are_decimal_counters() {
    assert_eq!(decimal_text(0), "0");
    assert_eq!(decimal_text(1234), "1234");
    assert_eq!(decimal_text(u64::MAX), "18446744073709551615");
}

#[test]
fn cookie_header_joins_pairs() {
    let jar = vec![(s("a"), s("b")), (s("c"), s("d"))];
    assert_eq!(cookie_header(&jar), "a=b; c=d");
    assert_eq!(cookie_header(&vec![]), "");
}

fn response(cookies: Vec<(String, String)>) -> TransportOutcome {
    TransportOutcome::Response(
        HttpResponse { status: 200, headers: vec![(s("Server"), s("t"))], text: s("ok"), url: None },
        cookies,
    )
}

fn cookie_of(ctx: &mut HostContext, handle: &str) -> Option<String> {
    let req = ctx.http_request(s(handle), s("GET"), s("http://localhost/"), table(vec![]));
    let p = ctx.http_send(req).expect("known session");
    p.headers.into_iter().find(|(k, _)| k == "Cookie").map(|(_, v)| v)
}

#[test]
fn cookies_persist_within_a_session() {
    let mut ctx = HostContext::new();
    let h = ctx.http_mksession();
    let req = ctx.http_request(h.clone(), s("GET"), s("http://localhost/set"), table(vec![]));
    let p = ctx.http_send(req).expect("known session");
    assert!(p.headers.iter().all(|(k, _)| k != "Cookie"));
    ctx.http_complete(p.session, response(vec![(s("foo"), s("bar")), (s("fizz"), s("buzz"))]));
    assert_eq!(cookie_of(&mut ctx, &h), Some(s("foo=bar; fizz=buzz")));
    assert_eq!(cookie_of(&mut ctx, &h), Some(s("foo=bar; fizz=buzz")));
}

#[test]
fn sessions_do_not_share_cookies() {
    let mut ctx = HostContext::new();
    let a = ctx.http_mksession();
    let b = ctx.http_mksession();
    assert_ne!(a, b);
    let req = ctx.http_request(a.clone(), s("GET"), s("http://localhost/set"), table(vec![]));
    let p = ctx.http_send(req).expect("known session");
    ctx.http_complete(p.session, response(vec![(s("foo"), s("bar"))]));
    assert_eq!(cookie_of(&mut ctx, &a), Some(s("foo=bar")));
    assert_eq!(cookie_of(&mut ctx, &b), None);
}

#[test]
fn error_slot_reports_each_failure_once() {
    let mut ctx = HostContext::new();
    assert!(ctx.last_err().is_none());
    let h = ctx.http_mksession();
    assert!(ctx.last_err().is_none());
    let bad = ctx.http_request(h.clone(), s("GET"), s("http://x/"), text("nope"));
    assert!(matches!(bad, GuestValue::Nil));
    assert!(matches!(ctx.last_err(), Some(HostError::Bridge(BridgeError::NotATable))));
    let good = ctx.http_request(h.clone(), s("GET"), s("http://x/"), table(vec![]));
    assert!(ctx.last_err().is_none());
    let p = ctx.http_send(good).expect("known session");
    let out = ctx.http_complete(p.session, TransportOutcome::Failed(s("connection refused")));
    assert!(matches!(out, GuestValue::Nil));
    match ctx.last_err() {
        Some(HostError::Exec(ExecError::Transport(m))) => assert_eq!(m, "connection refused"),
        _ => panic!("transport failure expected"),
    }
    let req = ctx.http_request(h, s("GET"), s("http://x/"), table(vec![]));
    assert!(ctx.last_err().is_none());
    let p = ctx.http_send(req).expect("known session");
    ctx.http_complete(p.session, response(vec![]));
    assert!(ctx.last_err().is_none());
}

#[test]
fn timeout_outcome_sets_timeout_error() {
    let mut ctx = HostContext::new();
    let h = ctx.http_mksession();
    let req = ctx.http_request(h, s("GET"), s("http://1.2.3.4"), table(vec![("timeout", GuestValue::Number(250))]));
    let p = ctx.http_send(req).expect("known session");
    assert_eq!(p.timeout, Some(250));
    let out = ctx.http_complete(p.session, TransportOutcome::TimedOut);
    assert!(matches!(out, GuestValue::Nil));
    assert!(matches!(ctx.last_err(), Some(HostError::Exec(ExecError::Timeout))));
}

#[test]
fn unknown_session_is_a_call_local_failure() {
    let mut ctx = HostContext::new();
    let req = ctx.http_request(s("nope"), s("GET"), s("http://x/"), table(vec![]));
    assert!(ctx.last_err().is_none());
    assert!(ctx.http_send(req).is_none());
    assert!(matches!(ctx.last_err(), Some(HostError::Exec(ExecError::UnknownSession))));
}

#[test]
fn request_value_carries_its_options() {
    let mut ctx = HostContext::new();
    let h = ctx.http_mksession();
    let opts = table(vec![
        ("query", table(vec![("foo", text("bar"))])),
        ("form", table(vec![("a", text("b"))])),
    ]);
    let req = ctx.http_request(h.clone(), s("POST"), s("http://x/post"), opts);
    let q = parse_request(req).ok().expect("request value parses");
    assert_eq!(q.session, h);
    assert_eq!(q.method, "POST");
    assert_eq!(q.url, "http://x/post");
    assert_eq!(pairs(&q.options.query), vec![("foo", "bar")]);
    assert!(q.options.json.is_none());
    assert!(matches!(q.options.form, Some(GuestValue::Table(_))));
}

#[test]
fn response_value_has_status_text_and_headers() {
    let v = response_to_value(HttpResponse {
        status: 404,
        headers: vec![(s("Content-Type"), s("text/plain"))],
        text: s("missing"),
        url: Some(s("http://x/final")),
    });
    assert!(matches!(get(&v, "status"), Some(GuestValue::Number(404))));
    assert!(matches!(get(&v, "text"), Some(GuestValue::Str(t)) if t == "missing"));
    assert!(matches!(get(&v, "url"), Some(GuestValue::Str(t)) if t == "http://x/final"));
    let h = get(&v, "headers").expect("headers");
    assert!(matches!(get(h, "Content-Type"), Some(GuestValue::Str(t)) if t == "text/plain"));
}
