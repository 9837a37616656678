use vstd::prelude::*;

verus! {

/// Path, under the backend's base URL, of the album list.
pub const ALBUMS_PATH: &'static str = "/key/albums";

/// Whether the browser sends credentials (cookies, HTTP auth) with a request.
#[derive(Clone, Copy, Debug, PartialEq, Eq, Structural)]
pub enum CredentialsMode {
    Omit,
    SameOrigin,
    Include,
}

/// Where the album list lives and how to reach it.
pub struct BackendConfig {
    /// Scheme, host and port, with no trailing slash.
    pub base_url: String,
    /// Value of the `NS` header that selects the backend namespace.
    pub namespace: String,
    /// Value of the `DB` header that selects the backend database.
    pub database: String,
    pub credentials: CredentialsMode,
}

impl BackendConfig {
    pub fn new(base_url: &str, namespace: &str, database: &str, credentials: CredentialsMode) -> (r:
        BackendConfig)
        ensures
            r.base_url@ == base_url@,
            r.namespace@ == namespace@,
            r.database@ == database@,
            r.credentials == credentials,
    {
        BackendConfig {
            base_url: String::from_str(base_url),
            namespace: String::from_str(namespace),
            database: String::from_str(database),
            credentials,
        }
    }

    /// A backend on the local machine, port 8000, namespace and database
    /// `echochamber`, credentials sent to the same origin only.
    pub fn local() -> (r: BackendConfig)
        ensures
            r.base_url@ == "http://127.0.0.1:8000"@,
            r.namespace@ == "echochamber"@,
            r.database@ == "echochamber"@,
            r.credentials == CredentialsMode::SameOrigin,
    {
        BackendConfig::new(
            "http://127.0.0.1:8000",
            "echochamber",
            "echochamber",
            CredentialsMode::SameOrigin,
        )
    }
}

/// One request header.
pub struct Header {
    pub name: String,
    pub value: String,
}

/// A GET request to issue, tagged with the fetch cycle it belongs to.
pub struct FetchRequest {
    /// The fetch cycle whose result this request will carry.
    pub cycle: u64,
    pub url: String,
    pub headers: Vec<Header>,
    pub credentials: CredentialsMode,
}

/// The headers of the album request, as (name, value) pairs in order.
pub open spec fn header_pairs(headers: Seq<Header>) -> Seq<(Seq<char>, Seq<char>)> {
    headers.map_values(|h: Header| (h.name@, h.value@))
}

/// `r` is the request, in fetch cycle `cycle`, for the album list of `config`:
/// `GET {base_url}/key/albums` asking for JSON, with the namespace and
/// database selector headers and the configured credentials mode.
pub open spec fn is_album_request(r: FetchRequest, config: BackendConfig, cycle: u64) -> bool {
    &&& r.cycle == cycle
    &&& r.url@ == config.base_url@ + ALBUMS_PATH@
    &&& header_pairs(r.headers@) == seq![
        ("Accept"@, "application/json"@),
        ("NS"@, config.namespace@),
        ("DB"@, config.database@),
    ]
    &&& r.credentials == config.credentials
}

fn header(name: &str, value: &str) -> (r: Header)
    ensures
        r.name@ == name@,
        r.value@ == value@,
{
    Header { name: String::from_str(name), value: String::from_str(value) }
}

/// The request for the album list of `config`, in fetch cycle `cycle`.
pub fn album_request(config: &BackendConfig, cycle: u64) -> (r: FetchRequest)
    ensures
        is_album_request(r, *config, cycle),
{
    let url = config.base_url.clone().concat(ALBUMS_PATH);
    let mut headers: Vec<Header> = Vec::new();
    headers.push(header("Accept", "application/json"));
    headers.push(header("NS", config.namespace.as_str()));
    headers.push(header("DB", config.database.as_str()));
    assert(header_pairs(headers@) =~= seq![
        ("Accept"@, "application/json"@),
        ("NS"@, config.namespace@),
        ("DB"@, config.database@),
    ]);
    FetchRequest { cycle, url, headers, credentials: config.credentials }
}

} // verus!
