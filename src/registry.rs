use vstd::prelude::*;
use vstd::string::StringExecFns;
use crate::value::{GuestValue, field, index_of};

verus! {

/// Every registry reply: the endpoint's payload, or the server's message.
pub enum ApiResponse<T> {
    Success(T),
    Error(String),
}

/// A failed registry call.
pub enum RegistryError {
    /// The server reported a failure with this message.
    Server(String),
    /// The reply did not have the shape the endpoint promises.
    Malformed,
}

impl<T> ApiResponse<T> {
    /// The payload, or the server's message as an error.
    pub fn success(self) -> (r: Result<T, RegistryError>)
        ensures
            match self {
                ApiResponse::Success(x) => r == Ok::<T, RegistryError>(x),
                ApiResponse::Error(m) => r == Err::<T, RegistryError>(RegistryError::Server(m)),
            },
    {
        match self {
            ApiResponse::Success(x) => Ok(x),
            ApiResponse::Error(err) => Err(RegistryError::Server(err)),
        }
    }
}

/// The envelope that a decoded reply body is: a table of one entry, either
/// `success` with the payload or `error` with a string message.
pub open spec fn spec_envelope(v: GuestValue) -> Option<ApiResponse<GuestValue>> {
    match v {
        GuestValue::Table(es) => if es@.len() != 1 {
            None
        } else if es@[0].0@ == "success"@ {
            Some(ApiResponse::Success(es@[0].1))
        } else if es@[0].0@ == "error"@ && es@[0].1 is Str {
            Some(ApiResponse::Error(es@[0].1->Str_0))
        } else {
            None
        },
        _ => None,
    }
}

/// Reads the envelope of a reply body.
pub fn decode_envelope(v: GuestValue) -> (r: Result<ApiResponse<GuestValue>, RegistryError>)
    ensures
        match spec_envelope(v) {
            Some(e) => r == Ok::<ApiResponse<GuestValue>, RegistryError>(e),
            None => r == Err::<ApiResponse<GuestValue>, RegistryError>(RegistryError::Malformed),
        },
{
    match v {
        GuestValue::Table(es) => {
            let mut es = es;
            if es.len() != 1 {
                return Err(RegistryError::Malformed);
            }
            let (k, payload) = es.remove(0);
            if k == String::from_str("success") {
                Ok(ApiResponse::Success(payload))
            } else if k == String::from_str("error") {
                match payload {
                    GuestValue::Str(m) => Ok(ApiResponse::Error(m)),
                    _ => Err(RegistryError::Malformed),
                }
            } else {
                Err(RegistryError::Malformed)
            }
        },
        _ => Err(RegistryError::Malformed),
    }
}

/// The payload of a reply body: the envelope's payload, the server's
/// message, or `Malformed`.
pub fn decode_payload(v: GuestValue) -> (r: Result<GuestValue, RegistryError>)
    ensures
        match spec_envelope(v) {
            Some(ApiResponse::Success(p)) => r == Ok::<GuestValue, RegistryError>(p),
            Some(ApiResponse::Error(m)) => r == Err::<GuestValue, RegistryError>(RegistryError::Server(m)),
            None => r == Err::<GuestValue, RegistryError>(RegistryError::Malformed),
        },
{
    match decode_envelope(v) {
        Ok(e) => e.success(),
        Err(e) => Err(e),
    }
}

/// The string under `key` of a table, if it holds one.
pub open spec fn str_at(v: GuestValue, key: Seq<char>) -> Option<Seq<char>> {
    match v {
        GuestValue::Table(es) => match field(es@, key) {
            Some(GuestValue::Str(s)) => Some(s@),
            _ => None,
        },
        _ => None,
    }
}

fn read_str(v: &GuestValue, key: &str) -> (r: Option<String>)
    ensures
        r is None ==> str_at(*v, key@) is None,
        r matches Some(s) ==> str_at(*v, key@) == Some(s@),
{
    match v {
        GuestValue::Table(es) => match index_of(es, &String::from_str(key)) {
            Some(i) => match &es[i].1 {
                GuestValue::Str(s) => Some(s.clone()),
                _ => None,
            },
            None => None,
        },
        _ => None,
    }
}

/// The number under `key` of a table, if it holds one.
pub open spec fn number_at(v: GuestValue, key: Seq<char>) -> Option<i64> {
    match v {
        GuestValue::Table(es) => match field(es@, key) {
            Some(GuestValue::Number(n)) => Some(n),
            _ => None,
        },
        _ => None,
    }
}

fn read_number(v: &GuestValue, key: &str) -> (r: Option<i64>)
    ensures
        r == number_at(*v, key@),
{
    match v {
        GuestValue::Table(es) => match index_of(es, &String::from_str(key)) {
            Some(i) => match &es[i].1 {
                GuestValue::Number(n) => Some(*n),
                _ => None,
            },
            None => None,
        },
        _ => None,
    }
}

/// The boolean under `key` of a table, if it holds one.
pub open spec fn bool_at(v: GuestValue, key: Seq<char>) -> Option<bool> {
    match v {
        GuestValue::Table(es) => match field(es@, key) {
            Some(GuestValue::Bool(b)) => Some(b),
            _ => None,
        },
        _ => None,
    }
}

fn read_bool(v: &GuestValue, key: &str) -> (r: Option<bool>)
    ensures
        r == bool_at(*v, key@),
{
    match v {
        GuestValue::Table(es) => match index_of(es, &String::from_str(key)) {
            Some(i) => match &es[i].1 {
                GuestValue::Bool(b) => Some(*b),
                _ => None,
            },
            None => None,
        },
        _ => None,
    }
}

/// The reply of `whoami`.
pub struct WhoamiResponse {
    pub user: String,
}

impl WhoamiResponse {
    /// Reads the payload `{user}`; other keys are ignored.
    pub fn from_value(v: &GuestValue) -> (r: Result<WhoamiResponse, RegistryError>)
        ensures
            r matches Ok(w) ==> str_at(*v, "user"@) == Some(w.user@),
            r is Err ==> r == Err::<WhoamiResponse, RegistryError>(RegistryError::Malformed)
                && str_at(*v, "user"@) is None,
    {
        match read_str(v, "user") {
            Some(user) => Ok(WhoamiResponse { user }),
            None => Err(RegistryError::Malformed),
        }
    }
}

/// The body of `publish`.
pub struct PublishRequest {
    pub code: String,
}

impl PublishRequest {
    /// The body as a table `{code}`.
    pub fn to_value(self) -> (r: GuestValue)
        ensures
            str_at(r, "code"@) == Some(self.code@),
    {
        let mut es: Vec<(String, GuestValue)> = Vec::new();
        es.push((String::from_str("code"), GuestValue::Str(self.code)));
        proof {
            crate::value::lemma_find_unique(es@, "code"@, 0);
        }
        GuestValue::Table(es)
    }
}

/// The reply of `publish`: the identity and version the server derived.
pub struct PublishResponse {
    pub author: String,
    pub name: String,
    pub version: String,
}

impl PublishResponse {
    /// Reads the payload `{author, name, version}`.
    pub fn from_value(v: &GuestValue) -> (r: Result<PublishResponse, RegistryError>)
        ensures
            r matches Ok(p) ==> str_at(*v, "author"@) == Some(p.author@) && str_at(*v, "name"@)
                == Some(p.name@) && str_at(*v, "version"@) == Some(p.version@),
            r is Err ==> r == Err::<PublishResponse, RegistryError>(RegistryError::Malformed) && (
            str_at(*v, "author"@) is None || str_at(*v, "name"@) is None || str_at(*v, "version"@) is None),
    {
        match (read_str(v, "author"), read_str(v, "name"), read_str(v, "version")) {
            (Some(author), Some(name), Some(version)) => Ok(PublishResponse { author, name, version }),
            _ => Err(RegistryError::Malformed),
        }
    }
}

/// The reply of `download`: a module's source at one version.
pub struct DownloadResponse {
    pub author: String,
    pub name: String,
    pub version: String,
    pub code: String,
}

impl DownloadResponse {
    /// Reads the payload `{author, name, version, code}`.
    pub fn from_value(v: &GuestValue) -> (r: Result<DownloadResponse, RegistryError>)
        ensures
            r matches Ok(d) ==> str_at(*v, "author"@) == Some(d.author@) && str_at(*v, "name"@)
                == Some(d.name@) && str_at(*v, "version"@) == Some(d.version@) && str_at(*v, "code"@)
                == Some(d.code@),
            r is Err ==> r == Err::<DownloadResponse, RegistryError>(RegistryError::Malformed) && (
            str_at(*v, "author"@) is None || str_at(*v, "name"@) is None || str_at(*v, "version"@) is None
                || str_at(*v, "code"@) is None),
    {
        match (read_str(v, "author"), read_str(v, "name"), read_str(v, "version"), read_str(v, "code")) {
            (Some(author), Some(name), Some(version), Some(code)) => Ok(
                DownloadResponse { author, name, version, code },
            ),
            _ => Err(RegistryError::Malformed),
        }
    }
}

/// The latest version of a module info payload: absent or `Nil` for a
/// module with no published version; `None` where it has the wrong shape.
pub open spec fn latest_at(v: GuestValue) -> Option<Option<Seq<char>>> {
    match v {
        GuestValue::Table(es) => match field(es@, "latest"@) {
            None => Some(None),
            Some(GuestValue::Str(s)) => Some(Some(s@)),
            Some(_) => None,
        },
        _ => None,
    }
}

/// The reply of `module_info`.
pub struct ModuleInfoResponse {
    pub author: String,
    pub name: String,
    pub description: String,
    pub latest: Option<String>,
}

impl ModuleInfoResponse {
    /// Reads the payload `{author, name, description, latest}`.
    pub fn from_value(v: &GuestValue) -> (r: Result<ModuleInfoResponse, RegistryError>)
        ensures
            r matches Ok(m) ==> str_at(*v, "author"@) == Some(m.author@) && str_at(*v, "name"@)
                == Some(m.name@) && str_at(*v, "description"@) == Some(m.description@)
                && latest_at(*v) == Some(
                match m.latest {
                    Some(l) => Some(l@),
                    None => None::<Seq<char>>,
                },
            ),
            r is Err ==> r == Err::<ModuleInfoResponse, RegistryError>(RegistryError::Malformed) && (
            str_at(*v, "author"@) is None || str_at(*v, "name"@) is None || str_at(*v, "description"@)
                is None || latest_at(*v) is None),
    {
        let latest = match v {
            GuestValue::Table(es) => match index_of(es, &String::from_str("latest")) {
                None => Some(None),
                Some(i) => match &es[i].1 {
                    GuestValue::Nil => Some(None),
                    GuestValue::Str(s) => Some(Some(s.clone())),
                    _ => None,
                },
            },
            _ => None,
        };
        match (read_str(v, "author"), read_str(v, "name"), read_str(v, "description"), latest) {
            (Some(author), Some(name), Some(description), Some(latest)) => Ok(
                ModuleInfoResponse { author, name, description, latest },
            ),
            _ => Err(RegistryError::Malformed),
        }
    }
}

/// One search hit.
pub struct SearchResponse {
    pub author: String,
    pub name: String,
    pub description: String,
    pub latest: String,
    pub downloads: i64,
    pub featured: bool,
}

/// `v` describes the search hit `s`.
pub open spec fn describes_hit(v: GuestValue, s: SearchResponse) -> bool {
    &&& str_at(v, "author"@) == Some(s.author@)
    &&& str_at(v, "name"@) == Some(s.name@)
    &&& str_at(v, "description"@) == Some(s.description@)
    &&& str_at(v, "latest"@) == Some(s.latest@)
    &&& number_at(v, "downloads"@) == Some(s.downloads)
    &&& bool_at(v, "featured"@) == Some(s.featured)
}

/// `v` has the shape of a search hit.
pub open spec fn is_hit(v: GuestValue) -> bool {
    &&& str_at(v, "author"@) is Some
    &&& str_at(v, "name"@) is Some
    &&& str_at(v, "description"@) is Some
    &&& str_at(v, "latest"@) is Some
    &&& number_at(v, "downloads"@) is Some
    &&& bool_at(v, "featured"@) is Some
}

impl SearchResponse {
    /// The module's canonical name, `author/name`.
    pub fn canonical(&self) -> (r: String)
        ensures
            r@ == self.author@ + "/"@ + self.name@,
    {
        let mut r = self.author.clone();
        r.append("/");
        r.append(self.name.as_str());
        r
    }

    /// Reads one search hit.
    pub fn from_value(v: &GuestValue) -> (r: Result<SearchResponse, RegistryError>)
        ensures
            r matches Ok(s) ==> describes_hit(*v, s),
            r is Err ==> r == Err::<SearchResponse, RegistryError>(RegistryError::Malformed) && !is_hit(*v),
    {
        match (
            read_str(v, "author"),
            read_str(v, "name"),
            read_str(v, "description"),
            read_str(v, "latest"),
            read_number(v, "downloads"),
            read_bool(v, "featured"),
        ) {
            (
                Some(author),
                Some(name),
                Some(description),
                Some(latest),
                Some(downloads),
                Some(featured),
            ) => Ok(SearchResponse { author, name, description, latest, downloads, featured }),
            _ => Err(RegistryError::Malformed),
        }
    }
}

/// Reads the payload of `search`: a list of hits, in order.
pub fn decode_search(v: &GuestValue) -> (r: Result<Vec<SearchResponse>, RegistryError>)
    ensures
        r matches Ok(hits) ==> v is List && hits@.len() == v->List_0@.len() && forall|i: int|
            0 <= i < hits@.len() ==> describes_hit(v->List_0@[i], #[trigger] hits@[i]),
        r is Err ==> r == Err::<Vec<SearchResponse>, RegistryError>(RegistryError::Malformed) && (
        !(v is List) || exists|i: int| 0 <= i < v->List_0@.len() && !is_hit(#[trigger] v->List_0@[i])),
{
    match v {
        GuestValue::List(items) => {
            let mut hits: Vec<SearchResponse> = Vec::new();
            let mut k: usize = 0;
            while k < items.len()
                invariant
                    k <= items@.len(),
                    *v == GuestValue::List(*items),
                    hits@.len() == k,
                    forall|i: int| 0 <= i < k ==> describes_hit(items@[i], #[trigger] hits@[i]),
                decreases items.len() - k,
            {
                match SearchResponse::from_value(&items[k]) {
                    Ok(s) => hits.push(s),
                    Err(e) => {
                        assert(!is_hit(v->List_0@[k as int]));
                        return Err(e);
                    },
                }
                k = k + 1;
            }
            Ok(hits)
        },
        _ => Err(RegistryError::Malformed),
    }
}

} // verus!
