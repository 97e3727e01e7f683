use vstd::prelude::*;
use vstd::string::StringExecFns;
use crate::value::{GuestValue, find_key};
use crate::options::{
    OptionsView, pairs_view, parse_options, spec_parse_options,
    lemma_parse_options_keeps_fields,
};
use crate::host::{
    ExecError, HostError, HttpRequest, HttpResponse, RequestView, describes_response,
    parse_request, request_to_value, response_to_value, spec_parse_request,
};
use crate::session::{SessionStore, jar_after, last_value};

verus! {

/// The `Cookie` header value of a jar: `name=value` pairs joined by `"; "`.
pub open spec fn cookie_line(jar: Seq<(String, String)>) -> Seq<char>
    decreases jar.len(),
{
    if jar.len() == 0 {
        Seq::empty()
    } else if jar.len() == 1 {
        jar[0].0@ + "="@ + jar[0].1@
    } else {
        cookie_line(jar.drop_last()) + "; "@ + jar.last().0@ + "="@ + jar.last().1@
    }
}

/// Builds the `Cookie` header value of a jar.
pub fn cookie_header(jar: &Vec<(String, String)>) -> (r: String)
    ensures
        r@ == cookie_line(jar@),
{
    let mut out = String::new();
    let mut k: usize = 0;
    while k < jar.len()
        invariant
            k <= jar@.len(),
            out@ == cookie_line(jar@.subrange(0, k as int)),
        decreases jar.len() - k,
    {
        let ghost p = jar@.subrange(0, k as int + 1);
        assert(p.drop_last() =~= jar@.subrange(0, k as int));
        if k > 0 {
            out.append("; ");
        }
        out.append(jar[k].0.as_str());
        out.append("=");
        out.append(jar[k].1.as_str());
        k = k + 1;
        proof {
            if k == 1 {
                assert(cookie_line(jar@.subrange(0, 0)) == Seq::<char>::empty());
                assert(out@ =~= cookie_line(p));
            } else {
                assert(out@ =~= cookie_line(p));
            }
        }
    }
    assert(jar@.subrange(0, k as int) =~= jar@);
    out
}

/// A request ready for the transport: the session it runs in, the headers
/// with the session's cookies added, and the options as given.
pub struct PreparedRequest {
    pub session: usize,
    pub method: String,
    pub url: String,
    pub headers: Vec<(String, String)>,
    pub query: Vec<(String, String)>,
    pub json: Option<GuestValue>,
    pub form: Option<GuestValue>,
    pub timeout: Option<u64>,
}

/// What the transport reports for a prepared request.
pub enum TransportOutcome {
    /// A response, with the cookies it set, as (name, value) pairs in order.
    Response(HttpResponse, Vec<(String, String)>),
    /// The deadline passed first.
    TimedOut,
    /// The transport failed, for the reason given.
    Failed(String),
}

/// The headers that a request in session `i` of `store` is sent with.
pub open spec fn sent_headers(store: SessionStore, i: int, q: OptionsView) -> Seq<(Seq<char>, Seq<char>)> {
    let jar = store.sessions@[i].1@;
    if jar.len() == 0 {
        q.headers
    } else {
        q.headers.push(("Cookie"@, cookie_line(jar)))
    }
}

/// The prepared request `p` carries the request `q` in session `i`.
pub open spec fn prepared_for(p: PreparedRequest, store: SessionStore, i: int, q: RequestView) -> bool {
    &&& p.session == i
    &&& p.method@ == q.method
    &&& p.url@ == q.url
    &&& pairs_view(p.headers@) == sent_headers(store, i, q.options)
    &&& pairs_view(p.query@) == q.options.query
    &&& p.json == q.options.json
    &&& p.form == q.options.form
    &&& p.timeout == q.options.timeout
}

/// What the guest sees of a script's host state: its sessions, and the
/// slot holding the failure of the last host call, if it failed.
pub struct HostContext {
    pub store: SessionStore,
    pub last_error: Option<HostError>,
}

/// `after` is `before` once `http_complete` has handled `outcome` for
/// session `i`: cookies of a response go into that session's jar alone,
/// and the slot holds the failure, if any.
pub open spec fn completed(before: HostContext, after: HostContext, i: int, outcome: TransportOutcome) -> bool {
    &&& after.store.sessions@.len() == before.store.sessions@.len()
    &&& forall|j: int| 0 <= j < before.store.sessions@.len() && j != i ==> after.store.sessions@[j] == before.store.sessions@[j]
    &&& after.store.sessions@[i].0 == before.store.sessions@[i].0
    &&& match outcome {
        TransportOutcome::Response(_, cookies) => {
            &&& after.last_error is None
            &&& forall|n: Seq<char>| #[trigger] after.store.cookie(i, n) == jar_after(before.store.sessions@[i].1@, cookies@, n)
        },
        TransportOutcome::TimedOut => {
            &&& after.last_error == Some(HostError::Exec(ExecError::Timeout))
            &&& after.store.sessions@[i] == before.store.sessions@[i]
        },
        TransportOutcome::Failed(m) => {
            &&& after.last_error == Some(HostError::Exec(ExecError::Transport(m)))
            &&& after.store.sessions@[i] == before.store.sessions@[i]
        },
    }
}

impl HostContext {
    pub open spec fn wf(&self) -> bool {
        self.store.wf()
    }

    /// A context with no sessions and no failure.
    pub fn new() -> (r: HostContext)
        ensures
            r.wf(),
            r.store.sessions@.len() == 0,
            r.last_error is None,
    {
        HostContext { store: SessionStore::new(), last_error: None }
    }

    /// The number of sessions opened so far.
    pub fn session_count(&self) -> (r: usize)
        ensures
            r == self.store.sessions@.len(),
    {
        self.store.sessions.len()
    }

    /// The failure of the last host call, or `None` where it succeeded.
    /// The slot is left as it is.
    pub fn last_err(&self) -> (r: Option<HostError>)
        ensures
            r == self.last_error,
    {
        match &self.last_error {
            Some(e) => Some(e.duplicate()),
            None => None,
        }
    }

    /// Opens a session and returns its handle. It never fails.
    pub fn http_mksession(&mut self) -> (h: String)
        requires
            old(self).wf(),
            old(self).store.sessions@.len() < u64::MAX,
        ensures
            final(self).wf(),
            final(self).last_error is None,
            final(self).store.sessions@.len() == old(self).store.sessions@.len() + 1,
            final(self).store.sessions@.drop_last() == old(self).store.sessions@,
            final(self).store.sessions@.last().1@.len() == 0,
            forall|i: int| 0 <= i < old(self).store.sessions@.len() ==> old(self).store.sessions@[i].0@ != h@,
            find_key(final(self).store.sessions@, h@) == Some(old(self).store.sessions@.len() as int),
    {
        self.last_error = None;
        self.store.create_session()
    }

    /// Builds the guest value of a request from its parts. Where the options
    /// are malformed the slot holds the error and the result is `Nil`.
    pub fn http_request(&mut self, session: String, method: String, url: String, options: GuestValue) -> (r: GuestValue)
        ensures
            final(self).store == old(self).store,
            match spec_parse_options(options) {
                Ok(o) => {
                    &&& final(self).last_error is None
                    &&& spec_parse_request(r) == Ok::<RequestView, crate::options::BridgeError>(
                        RequestView { session: session@, method: method@, url: url@, options: o },
                    )
                },
                Err(e) => {
                    &&& final(self).last_error == Some(HostError::Bridge(e))
                    &&& r is Nil
                },
            },
    {
        let ghost ov = options;
        match parse_options(options) {
            Ok(o) => {
                proof {
                    if ov is Table {
                        lemma_parse_options_keeps_fields(ov->Table_0);
                    }
                }
                self.last_error = None;
                request_to_value(HttpRequest { session, method, url, options: o })
            },
            Err(e) => {
                self.last_error = Some(HostError::Bridge(e));
                GuestValue::Nil
            },
        }
    }

    /// Takes the guest value of a request and prepares it for the transport.
    /// Where the value is malformed or names no session, the slot holds the
    /// error and the result is `None`.
    pub fn http_send(&mut self, request: GuestValue) -> (r: Option<PreparedRequest>)
        requires
            old(self).wf(),
        ensures
            final(self).store == old(self).store,
            match spec_parse_request(request) {
                Err(e) => r is None && final(self).last_error == Some(HostError::Bridge(e)),
                Ok(q) => match find_key(old(self).store.sessions@, q.session) {
                    None => r is None && final(self).last_error == Some(
                        HostError::Exec(ExecError::UnknownSession),
                    ),
                    Some(i) => {
                        &&& final(self).last_error is None
                        &&& r is Some
                        &&& prepared_for(r->Some_0, old(self).store, i, q)
                    },
                },
            },
    {
        let q = match parse_request(request) {
            Ok(q) => q,
            Err(e) => {
                self.last_error = Some(HostError::Bridge(e));
                return None;
            },
        };
        let i = match self.store.lookup(&q.session) {
            Some(i) => i,
            None => {
                self.last_error = Some(HostError::Exec(ExecError::UnknownSession));
                return None;
            },
        };
        let HttpRequest { session, method, url, options } = q;
        let mut headers = options.headers;
        let ghost h0 = headers@;
        if self.store.sessions[i].1.len() > 0 {
            let line = cookie_header(&self.store.sessions[i].1);
            headers.push((String::from_str("Cookie"), line));
            assert(pairs_view(headers@) =~= pairs_view(h0).push(("Cookie"@, line@)));
        }
        self.last_error = None;
        Some(
            PreparedRequest {
                session: i,
                method,
                url,
                headers,
                query: options.query,
                json: options.json,
                form: options.form,
                timeout: options.timeout,
            },
        )
    }

    /// Takes what the transport reported for a request in session `i`: a
    /// response's cookies go into that session's jar and the response comes
    /// back as a guest value; a failure goes into the slot and the result is
    /// `Nil`.
    pub fn http_complete(&mut self, i: usize, outcome: TransportOutcome) -> (r: GuestValue)
        requires
            old(self).wf(),
            i < old(self).store.sessions@.len(),
        ensures
            final(self).wf(),
            completed(*old(self), *final(self), i as int, outcome),
            match outcome {
                TransportOutcome::Response(resp, _) => r == GuestValue::Table(r->Table_0) && describes_response(r->Table_0@, resp),
                _ => r is Nil,
            },
    {
        match outcome {
            TransportOutcome::Response(resp, cookies) => {
                self.store.store_cookies(i, &cookies);
                self.last_error = None;
                response_to_value(resp)
            },
            TransportOutcome::TimedOut => {
                self.last_error = Some(HostError::Exec(ExecError::Timeout));
                GuestValue::Nil
            },
            TransportOutcome::Failed(m) => {
                self.last_error = Some(HostError::Exec(ExecError::Transport(m)));
                GuestValue::Nil
            },
        }
    }
}

/// A cookie that a response sets in a session is in that session's jar
/// afterwards, so the next request in the same session sends it.
pub proof fn lemma_cookies_persist(
    before: HostContext,
    after: HostContext,
    i: int,
    resp: HttpResponse,
    cookies: Vec<(String, String)>,
    n: Seq<char>,
    v: Seq<char>,
)
    requires
        0 <= i < before.store.sessions@.len(),
        completed(before, after, i, TransportOutcome::Response(resp, cookies)),
        last_value(cookies@, n) == Some(v),
    ensures
        after.store.cookie(i, n) == Some(v),
        after.store.sessions@[i].1@.len() > 0,
{
    assert(after.store.cookie(i, n) == jar_after(before.store.sessions@[i].1@, cookies@, n));
}

/// Sessions with distinct handles are distinct, and what the transport
/// reports for one of them leaves every other session as it was.
pub proof fn lemma_sessions_isolated(
    before: HostContext,
    after: HostContext,
    h1: Seq<char>,
    h2: Seq<char>,
    i: int,
    j: int,
    outcome: TransportOutcome,
)
    requires
        h1 != h2,
        find_key(before.store.sessions@, h1) == Some(i),
        find_key(before.store.sessions@, h2) == Some(j),
        completed(before, after, i, outcome),
    ensures
        i != j,
        after.store.sessions@[j] == before.store.sessions@[j],
        forall|n: Seq<char>| after.store.cookie(j, n) == before.store.cookie(j, n),
{
    assert(before.store.sessions@[i].0@ == h1);
    assert(before.store.sessions@[j].0@ == h2);
}

/// After the transport's report the slot holds exactly that call's failure:
/// nothing after a response, however earlier calls went, and the timeout or
/// the transport's message after a failure.
pub proof fn lemma_error_slot_tracks_last_call(
    before: HostContext,
    after: HostContext,
    i: int,
    outcome: TransportOutcome,
)
    requires
        completed(before, after, i, outcome),
    ensures
        after.last_error is None <==> outcome is Response,
        outcome is TimedOut ==> after.last_error == Some(HostError::Exec(ExecError::Timeout)),
        outcome matches TransportOutcome::Failed(m) ==> after.last_error == Some(
            HostError::Exec(ExecError::Transport(m)),
        ),
{
}

} // verus!
