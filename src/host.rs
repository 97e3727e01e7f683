use vstd::prelude::*;
use vstd::string::StringExecFns;
use crate::value::{GuestValue, field, index_of, lemma_find_unique};
use crate::options::{
    BridgeError, Field, OptionsView, RequestOptions, empty_options, pairs_view, parse_options,
    spec_parse_options, options_wf, options_to_value, pairs_to_value, spec_string_map,
    lemma_options_round_trip,
};

verus! {

/// A failure of the request executor.
pub enum ExecError {
    /// No session has the request's handle.
    UnknownSession,
    /// The request's deadline passed.
    Timeout,
    /// The transport failed; the message says how.
    Transport(String),
}

/// A failure of a host call, as the error slot holds it.
pub enum HostError {
    Bridge(BridgeError),
    Exec(ExecError),
}

impl HostError {
    /// An equal copy of this error.
    pub fn duplicate(&self) -> (r: HostError)
        ensures
            r == *self,
    {
        match self {
            HostError::Bridge(e) => HostError::Bridge(*e),
            HostError::Exec(ExecError::UnknownSession) => HostError::Exec(ExecError::UnknownSession),
            HostError::Exec(ExecError::Timeout) => HostError::Exec(ExecError::Timeout),
            HostError::Exec(ExecError::Transport(m)) => HostError::Exec(ExecError::Transport(m.clone())),
        }
    }
}

/// One HTTP request as the guest describes it.
pub struct HttpRequest {
    pub session: String,
    pub method: String,
    pub url: String,
    pub options: RequestOptions,
}

/// The mathematical model of `HttpRequest`.
pub struct RequestView {
    pub session: Seq<char>,
    pub method: Seq<char>,
    pub url: Seq<char>,
    pub options: OptionsView,
}

impl HttpRequest {
    pub open spec fn view(&self) -> RequestView {
        RequestView {
            session: self.session@,
            method: self.method@,
            url: self.url@,
            options: self.options@,
        }
    }
}

/// What a required string key gives.
pub open spec fn spec_str_field(f: Option<GuestValue>, which: Field) -> Result<Seq<char>, BridgeError> {
    match f {
        Some(GuestValue::Str(s)) => Ok(s@),
        None => Err(BridgeError::MissingField(which)),
        Some(_) => Err(BridgeError::WrongShape(which)),
    }
}

/// The request that a guest table describes: string keys `session`,
/// `method` and `url`, and an optional `options` table; or the first error,
/// in that order.
pub open spec fn spec_parse_request(v: GuestValue) -> Result<RequestView, BridgeError> {
    match v {
        GuestValue::Table(es) => {
            let s = spec_str_field(field(es@, "session"@), Field::Session);
            let m = spec_str_field(field(es@, "method"@), Field::Method);
            let u = spec_str_field(field(es@, "url"@), Field::Url);
            let o = match field(es@, "options"@) {
                None => Ok(empty_options()),
                Some(ov) => spec_parse_options(ov),
            };
            if s is Err {
                Err(s->Err_0)
            } else if m is Err {
                Err(m->Err_0)
            } else if u is Err {
                Err(u->Err_0)
            } else if o is Err {
                Err(o->Err_0)
            } else {
                Ok(RequestView { session: s->Ok_0, method: m->Ok_0, url: u->Ok_0, options: o->Ok_0 })
            }
        },
        _ => Err(BridgeError::NotATable),
    }
}

fn str_field(es: &Vec<(String, GuestValue)>, key: &String, which: Field) -> (r: Result<String, BridgeError>)
    ensures
        r matches Ok(s) ==> spec_str_field(field(es@, key@), which) == Ok::<Seq<char>, BridgeError>(s@),
        r matches Err(e) ==> spec_str_field(field(es@, key@), which) == Err::<Seq<char>, BridgeError>(e),
{
    match index_of(es, key) {
        None => Err(BridgeError::MissingField(which)),
        Some(i) => match &es[i].1 {
            GuestValue::Str(s) => Ok(s.clone()),
            GuestValue::Nil => Err(BridgeError::MissingField(which)),
            _ => Err(BridgeError::WrongShape(which)),
        },
    }
}

/// Turns a guest request value back into a typed request.
pub fn parse_request(v: GuestValue) -> (r: Result<HttpRequest, BridgeError>)
    ensures
        r matches Ok(q) ==> spec_parse_request(v) == Ok::<RequestView, BridgeError>(q@),
        r matches Err(e) ==> spec_parse_request(v) == Err::<RequestView, BridgeError>(e),
{
    match v {
        GuestValue::Table(es) => {
            let mut es = es;
            let session = str_field(&es, &String::from_str("session"), Field::Session);
            let method = str_field(&es, &String::from_str("method"), Field::Method);
            let url = str_field(&es, &String::from_str("url"), Field::Url);
            let okey = String::from_str("options");
            let oi = index_of(&es, &okey);
            let options = match oi {
                None => Ok(RequestOptions::empty()),
                Some(i) => {
                    let ov = es.swap_remove(i).1;
                    match ov {
                        GuestValue::Nil => Ok(RequestOptions::empty()),
                        ov => parse_options(ov),
                    }
                },
            };
            let r = match (session, method, url, options) {
                (Err(e), _, _, _) => Err(e),
                (_, Err(e), _, _) => Err(e),
                (_, _, Err(e), _) => Err(e),
                (_, _, _, Err(e)) => Err(e),
                (Ok(session), Ok(method), Ok(url), Ok(options)) => Ok(
                    HttpRequest { session, method, url, options },
                ),
            };
            r
        },
        _ => Err(BridgeError::NotATable),
    }
}

/// The request as a guest table with the string keys `session`, `method`
/// and `url` and its options under `options`; it parses back to the request.
pub fn request_to_value(req: HttpRequest) -> (r: GuestValue)
    ensures
        r == GuestValue::Table(r->Table_0),
        options_wf(req.options@) ==> spec_parse_request(r) == Ok::<RequestView, BridgeError>(req@),
{
    let ghost rv = req@;
    let HttpRequest { session, method, url, options } = req;
    let ov = options_to_value(options);
    let mut es: Vec<(String, GuestValue)> = Vec::new();
    es.push((String::from_str("session"), GuestValue::Str(session)));
    es.push((String::from_str("method"), GuestValue::Str(method)));
    es.push((String::from_str("url"), GuestValue::Str(url)));
    es.push((String::from_str("options"), ov));
    proof {
        reveal_strlit("session");
        reveal_strlit("method");
        reveal_strlit("url");
        reveal_strlit("options");
        let s = es@;
        assert("session"@[0] == 's' && "method"@[0] == 'm' && "url"@[0] == 'u' && "options"@[0] == 'o');
        lemma_find_unique(s, "session"@, 0);
        lemma_find_unique(s, "method"@, 1);
        lemma_find_unique(s, "url"@, 2);
        lemma_find_unique(s, "options"@, 3);
        if options_wf(rv.options) {
            lemma_options_round_trip(ov->Table_0, rv.options);
        }
    }
    GuestValue::Table(es)
}

/// An HTTP response: status, headers, body text and, where redirects were
/// followed, the final URL.
pub struct HttpResponse {
    pub status: u16,
    pub headers: Vec<(String, String)>,
    pub text: String,
    pub url: Option<String>,
}

/// Table entries that describe the response `resp`.
pub open spec fn describes_response(es: Seq<(String, GuestValue)>, resp: HttpResponse) -> bool {
    &&& field(es, "status"@) == Some(GuestValue::Number(resp.status as i64))
    &&& field(es, "text"@) == Some(GuestValue::Str(resp.text))
    &&& spec_string_map(field(es, "headers"@)) == Some(pairs_view(resp.headers@))
    &&& field(es, "url"@) == match resp.url {
        Some(u) => Some(GuestValue::Str(u)),
        None => None::<GuestValue>,
    }
}

/// The response as a guest table with the keys `status`, `text`, `headers`
/// and, where known, `url`.
pub fn response_to_value(resp: HttpResponse) -> (r: GuestValue)
    ensures
        r == GuestValue::Table(r->Table_0),
        describes_response(r->Table_0@, resp),
{
    let ghost rv = resp;
    let hv = pairs_to_value(&resp.headers);
    let HttpResponse { status, headers, text, url } = resp;
    let mut es: Vec<(String, GuestValue)> = Vec::new();
    es.push((String::from_str("status"), GuestValue::Number(status as i64)));
    es.push((String::from_str("text"), GuestValue::Str(text)));
    es.push((String::from_str("headers"), hv));
    match url {
        Some(u) => es.push((String::from_str("url"), GuestValue::Str(u))),
        None => {},
    }
    proof {
        reveal_strlit("status");
        reveal_strlit("text");
        reveal_strlit("headers");
        reveal_strlit("url");
        let s = es@;
        assert("status"@[0] == 's' && "text"@[0] == 't' && "headers"@[0] == 'h' && "url"@[0] == 'u');
        lemma_find_unique(s, "status"@, 0);
        lemma_find_unique(s, "text"@, 1);
        lemma_find_unique(s, "headers"@, 2);
        lemma_find_unique(s, "url"@, 3);
    }
    GuestValue::Table(es)
}

} // verus!
