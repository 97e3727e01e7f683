use vstd::prelude::*;
use vstd::string::StringExecFns;
use crate::value::{GuestValue, field, index_of};

verus! {

/// The keys of a guest value that the bridge reads.
#[derive(PartialEq, Eq, Structural, Clone, Copy, Debug)]
pub enum Field {
    Headers,
    Query,
    Timeout,
    Session,
    Method,
    Url,
    Options,
}

/// A guest value of the wrong shape.
#[derive(PartialEq, Eq, Structural, Clone, Copy, Debug)]
pub enum BridgeError {
    /// The value should have been a table.
    NotATable,
    /// The named key holds a value of the wrong shape.
    WrongShape(Field),
    /// A required key is absent.
    MissingField(Field),
    /// Both `json` and `form` are set.
    BothBodies,
}

/// The options of one HTTP request. At most one of `json` and `form` is set;
/// `timeout` is in milliseconds.
pub struct RequestOptions {
    pub headers: Vec<(String, String)>,
    pub query: Vec<(String, String)>,
    pub json: Option<GuestValue>,
    pub form: Option<GuestValue>,
    pub timeout: Option<u64>,
}

/// The mathematical model of `RequestOptions`.
pub struct OptionsView {
    pub headers: Seq<(Seq<char>, Seq<char>)>,
    pub query: Seq<(Seq<char>, Seq<char>)>,
    pub json: Option<GuestValue>,
    pub form: Option<GuestValue>,
    pub timeout: Option<u64>,
}

pub open spec fn pairs_view(v: Seq<(String, String)>) -> Seq<(Seq<char>, Seq<char>)> {
    Seq::new(v.len(), |i: int| (v[i].0@, v[i].1@))
}

impl RequestOptions {
    pub open spec fn view(&self) -> OptionsView {
        OptionsView {
            headers: pairs_view(self.headers@),
            query: pairs_view(self.query@),
            json: self.json,
            form: self.form,
            timeout: self.timeout,
        }
    }

    /// Options with nothing set.
    pub fn empty() -> (r: RequestOptions)
        ensures
            r@ == empty_options(),
    {
        let r = RequestOptions {
            headers: Vec::new(),
            query: Vec::new(),
            json: None,
            form: None,
            timeout: None,
        };
        assert(r@.headers =~= Seq::empty());
        assert(r@.query =~= Seq::empty());
        r
    }
}

pub open spec fn empty_options() -> OptionsView {
    OptionsView {
        headers: Seq::empty(),
        query: Seq::empty(),
        json: None,
        form: None,
        timeout: None,
    }
}

/// Every value of the table is a string.
pub open spec fn all_strings(s: Seq<(String, GuestValue)>) -> bool {
    forall|i: int| 0 <= i < s.len() ==> s[i].1 is Str
}

/// The (key, string) pairs of a table whose values are all strings.
pub open spec fn string_pairs(s: Seq<(String, GuestValue)>) -> Seq<(Seq<char>, Seq<char>)> {
    Seq::new(s.len(), |i: int| (s[i].0@, s[i].1->Str_0@))
}

/// What a string-to-string mapping option gives: empty when absent, the
/// pairs of a table of strings, and `None` for any other shape.
pub open spec fn spec_string_map(f: Option<GuestValue>) -> Option<Seq<(Seq<char>, Seq<char>)>> {
    match f {
        None => Some(Seq::empty()),
        Some(GuestValue::Table(es)) => if all_strings(es@) {
            Some(string_pairs(es@))
        } else {
            None
        },
        Some(_) => None,
    }
}

/// What the `timeout` option gives: unset when absent, a number of
/// milliseconds that is not negative, and `None` for any other shape.
pub open spec fn spec_timeout(f: Option<GuestValue>) -> Option<Option<u64>> {
    match f {
        None => Some(None),
        Some(GuestValue::Number(n)) => if n >= 0 {
            Some(Some(n as u64))
        } else {
            None
        },
        Some(_) => None,
    }
}

/// The options that a guest table describes, or the first shape error, in
/// the order headers, query, timeout, bodies.
pub open spec fn spec_parse_options(v: GuestValue) -> Result<OptionsView, BridgeError> {
    match v {
        GuestValue::Table(es) => {
            let h = spec_string_map(field(es@, "headers"@));
            let q = spec_string_map(field(es@, "query"@));
            let t = spec_timeout(field(es@, "timeout"@));
            let j = field(es@, "json"@);
            let f = field(es@, "form"@);
            if h is None {
                Err(BridgeError::WrongShape(Field::Headers))
            } else if q is None {
                Err(BridgeError::WrongShape(Field::Query))
            } else if t is None {
                Err(BridgeError::WrongShape(Field::Timeout))
            } else if j is Some && f is Some {
                Err(BridgeError::BothBodies)
            } else {
                Ok(
                    OptionsView {
                        headers: h->Some_0,
                        query: q->Some_0,
                        json: j,
                        form: f,
                        timeout: t->Some_0,
                    },
                )
            }
        },
        _ => Err(BridgeError::NotATable),
    }
}

/// Reads a string-to-string mapping stored under `key`.
fn string_map(es: &Vec<(String, GuestValue)>, key: &String) -> (r: Option<Vec<(String, String)>>)
    ensures
        r is None ==> spec_string_map(field(es@, key@)) is None,
        r matches Some(m) ==> spec_string_map(field(es@, key@)) == Some(pairs_view(m@)),
{
    match index_of(es, key) {
        None => {
            let m: Vec<(String, String)> = Vec::new();
            assert(pairs_view(m@) =~= Seq::empty());
            Some(m)
        },
        Some(i) => match &es[i].1 {
            GuestValue::Nil => {
                assert(field(es@, key@) is None);
                let m: Vec<(String, String)> = Vec::new();
                assert(pairs_view(m@) =~= Seq::empty());
                Some(m)
            },
            GuestValue::Table(inner) => {
                let mut m: Vec<(String, String)> = Vec::new();
                let mut k: usize = 0;
                while k < inner.len()
                    invariant
                        k <= inner.len(),
                        m@.len() == k,
                        forall|j: int| 0 <= j < k ==> inner@[j].1 is Str,
                        es@[i as int].1 == GuestValue::Table(*inner),
                        field(es@, key@) == Some(es@[i as int].1),
                        forall|j: int|
                            0 <= j < k ==> (#[trigger] m@[j]).0@ == inner@[j].0@ && m@[j].1@
                                == inner@[j].1->Str_0@,
                    decreases inner.len() - k,
                {
                    match &inner[k].1 {
                        GuestValue::Str(s) => {
                            m.push((inner[k].0.clone(), s.clone()));
                        },
                        _ => {
                            assert(!all_strings(inner@));
                            return None;
                        },
                    }
                    k = k + 1;
                }
                assert(pairs_view(m@) =~= string_pairs(inner@));
                Some(m)
            },
            _ => None,
        },
    }
}

/// Reads the `timeout` option, in milliseconds.
fn timeout_of(es: &Vec<(String, GuestValue)>, key: &String) -> (r: Option<Option<u64>>)
    ensures
        r == spec_timeout(field(es@, key@)),
{
    match index_of(es, key) {
        None => Some(None),
        Some(i) => match &es[i].1 {
            GuestValue::Nil => Some(None),
            GuestValue::Number(n) => if *n >= 0 {
                Some(Some(*n as u64))
            } else {
                None
            },
            _ => None,
        },
    }
}

/// Whether `key` holds a value other than `Nil`.
fn is_set(es: &Vec<(String, GuestValue)>, key: &String) -> (r: Option<usize>)
    ensures
        r is None ==> field(es@, key@) is None,
        r matches Some(i) ==> find_key_is(es@, key@, i as int) && field(es@, key@) == Some(
            es@[i as int].1,
        ),
{
    match index_of(es, key) {
        None => None,
        Some(i) => match &es[i].1 {
            GuestValue::Nil => None,
            _ => Some(i),
        },
    }
}

pub open spec fn find_key_is(s: Seq<(String, GuestValue)>, key: Seq<char>, i: int) -> bool {
    &&& crate::value::find_key(s, key) == Some(i)
    &&& 0 <= i < s.len()
}

/// Turns a guest table into typed request options. Keys other than
/// `headers`, `query`, `json`, `form` and `timeout` are ignored; a `Nil`
/// value counts as absent.
pub fn parse_options(v: GuestValue) -> (r: Result<RequestOptions, BridgeError>)
    ensures
        r matches Ok(o) ==> spec_parse_options(v) == Ok::<OptionsView, BridgeError>(o@),
        r matches Err(e) ==> spec_parse_options(v) == Err::<OptionsView, BridgeError>(e),
{
    match v {
        GuestValue::Table(es) => {
            let mut es = es;
            let headers = match string_map(&es, &String::from_str("headers")) {
                Some(m) => m,
                None => {
                    return Err(BridgeError::WrongShape(Field::Headers));
                },
            };
            let query = match string_map(&es, &String::from_str("query")) {
                Some(m) => m,
                None => {
                    return Err(BridgeError::WrongShape(Field::Query));
                },
            };
            let timeout = match timeout_of(&es, &String::from_str("timeout")) {
                Some(t) => t,
                None => {
                    return Err(BridgeError::WrongShape(Field::Timeout));
                },
            };
            let j = is_set(&es, &String::from_str("json"));
            let f = is_set(&es, &String::from_str("form"));
            let (json, form) = match (j, f) {
                (Some(_), Some(_)) => {
                    return Err(BridgeError::BothBodies);
                },
                (Some(i), None) => (Some(es.swap_remove(i).1), None),
                (None, Some(i)) => (None, Some(es.swap_remove(i).1)),
                (None, None) => (None, None),
            };
            let r = RequestOptions { headers, query, json, form, timeout };
            assert(spec_parse_options(v) == Ok::<OptionsView, BridgeError>(r@));
            Ok(r)
        },
        _ => Err(BridgeError::NotATable),
    }
}

/// Options that a guest table can describe: not both bodies, no body that
/// is `Nil`, a timeout that fits a guest number.
pub open spec fn options_wf(o: OptionsView) -> bool {
    &&& !(o.json is Some && o.form is Some)
    &&& o.json != Some(GuestValue::Nil)
    &&& o.form != Some(GuestValue::Nil)
    &&& (o.timeout matches Some(t) ==> t <= i64::MAX)
}

/// Table entries that describe exactly the options `o`.
pub open spec fn describes_options(es: Seq<(String, GuestValue)>, o: OptionsView) -> bool {
    &&& spec_string_map(field(es, "headers"@)) == Some(o.headers)
    &&& spec_string_map(field(es, "query"@)) == Some(o.query)
    &&& spec_timeout(field(es, "timeout"@)) == Some(o.timeout)
    &&& field(es, "json"@) == o.json
    &&& field(es, "form"@) == o.form
}

/// The table entries of a list of string pairs.
pub open spec fn entries_of_pairs(v: Seq<(String, String)>) -> Seq<(String, GuestValue)> {
    Seq::new(v.len(), |i: int| (v[i].0, GuestValue::Str(v[i].1)))
}

/// A list of string pairs as a guest table of strings.
pub fn pairs_to_value(v: &Vec<(String, String)>) -> (r: GuestValue)
    ensures
        r == GuestValue::Table(r->Table_0),
        r->Table_0@ == entries_of_pairs(v@),
        spec_string_map(Some(r)) == Some(pairs_view(v@)),
{
    let mut es: Vec<(String, GuestValue)> = Vec::new();
    let mut k: usize = 0;
    while k < v.len()
        invariant
            k <= v@.len(),
            es@ == entries_of_pairs(v@).subrange(0, k as int),
        decreases v.len() - k,
    {
        es.push((v[k].0.clone(), GuestValue::Str(v[k].1.clone())));
        k = k + 1;
        assert(es@ =~= entries_of_pairs(v@).subrange(0, k as int));
    }
    assert(entries_of_pairs(v@).subrange(0, k as int) =~= entries_of_pairs(v@));
    assert(string_pairs(es@) =~= pairs_view(v@));
    GuestValue::Table(es)
}

/// The options as a guest table: `headers` and `query` always, `json`,
/// `form` and `timeout` where set. A timeout beyond the guest's number
/// range is written as the largest guest number.
pub fn options_to_value(o: RequestOptions) -> (r: GuestValue)
    ensures
        r == GuestValue::Table(r->Table_0),
        options_wf(o@) ==> describes_options(r->Table_0@, o@),
{
    let ghost ov = o@;
    let mut es: Vec<(String, GuestValue)> = Vec::new();
    es.push((String::from_str("headers"), pairs_to_value(&o.headers)));
    es.push((String::from_str("query"), pairs_to_value(&o.query)));
    let ghost base = es@;
    match o.json {
        Some(j) => es.push((String::from_str("json"), j)),
        None => {},
    }
    let ghost with_json = es@;
    match o.form {
        Some(f) => es.push((String::from_str("form"), f)),
        None => {},
    }
    let ghost with_form = es@;
    match o.timeout {
        Some(t) => {
            let n: i64 = if t <= i64::MAX as u64 { t as i64 } else { i64::MAX };
            es.push((String::from_str("timeout"), GuestValue::Number(n)));
        },
        None => {},
    }
    proof {
        reveal_strlit("headers");
        reveal_strlit("query");
        reveal_strlit("json");
        reveal_strlit("form");
        reveal_strlit("timeout");
        let s = es@;
        if options_wf(ov) {
            let n = s.len();
            assert(base.len() == 2);
            assert(s[0].0@ == "headers"@);
            assert(s[1].0@ == "query"@);
            assert(forall|j: int| 2 <= j < n ==> s[j].0@ == "json"@ || s[j].0@ == "form"@ || s[j].0@ == "timeout"@);
            assert("headers"@[0] == 'h' && "query"@[0] == 'q' && "json"@[0] == 'j');
            assert("form"@[0] == 'f' && "timeout"@[0] == 't');
            crate::value::lemma_find_unique(s, "headers"@, 0);
            crate::value::lemma_find_unique(s, "query"@, 1);
            let ji = 2int;
            let fi = if ov.json is Some { 3int } else { 2int };
            let ti = if ov.json is Some || ov.form is Some { 3int } else { 2int };
            crate::value::lemma_find_unique(s, "json"@, ji);
            crate::value::lemma_find_unique(s, "form"@, fi);
            crate::value::lemma_find_unique(s, "timeout"@, ti);
        }
    }
    GuestValue::Table(es)
}

/// Parsing a table whose recognized options are well shaped succeeds, and
/// every recognized option comes out with the value it was given.
pub proof fn lemma_parse_options_keeps_fields(es: Vec<(String, GuestValue)>)
    requires
        spec_string_map(field(es@, "headers"@)) is Some,
        spec_string_map(field(es@, "query"@)) is Some,
        spec_timeout(field(es@, "timeout"@)) is Some,
        !(field(es@, "json"@) is Some && field(es@, "form"@) is Some),
    ensures
        spec_parse_options(GuestValue::Table(es)) is Ok,
        describes_options(es@, spec_parse_options(GuestValue::Table(es))->Ok_0),
        options_wf(spec_parse_options(GuestValue::Table(es))->Ok_0),
{
    let f = field(es@, "timeout"@);
    if f is Some {
        assert(f->Some_0 is Number);
    }
}

/// Keys other than the recognized ones play no part: two tables that agree
/// on `headers`, `query`, `json`, `form` and `timeout` parse alike.
pub proof fn lemma_parse_options_ignores_other_keys(a: Vec<(String, GuestValue)>, b: Vec<(String, GuestValue)>)
    requires
        field(a@, "headers"@) == field(b@, "headers"@),
        field(a@, "query"@) == field(b@, "query"@),
        field(a@, "json"@) == field(b@, "json"@),
        field(a@, "form"@) == field(b@, "form"@),
        field(a@, "timeout"@) == field(b@, "timeout"@),
    ensures
        spec_parse_options(GuestValue::Table(a)) == spec_parse_options(GuestValue::Table(b)),
{
}

/// A table that describes well-formed options parses back to exactly them.
pub proof fn lemma_options_round_trip(es: Vec<(String, GuestValue)>, o: OptionsView)
    requires
        options_wf(o),
        describes_options(es@, o),
    ensures
        spec_parse_options(GuestValue::Table(es)) == Ok::<OptionsView, BridgeError>(o),
{
}

/// Setting both `json` and `form` is an error; with the other options well
/// shaped it is `BothBodies`.
pub proof fn lemma_both_bodies_rejected(es: Vec<(String, GuestValue)>)
    requires
        field(es@, "json"@) is Some,
        field(es@, "form"@) is Some,
    ensures
        spec_parse_options(GuestValue::Table(es)) is Err,
        spec_string_map(field(es@, "headers"@)) is Some && spec_string_map(field(es@, "query"@)) is Some
            && spec_timeout(field(es@, "timeout"@)) is Some ==> spec_parse_options(GuestValue::Table(es))
            == Err::<OptionsView, BridgeError>(BridgeError::BothBodies),
{
}

} // verus!
