//! The requests that the upstream clients send. A request is described here
//! and sent elsewhere, through the resilient fetcher.

use vstd::prelude::*;
use crate::retry::DEFAULT_MAX_ATTEMPTS;

verus! {

/// Seconds after which a request that got no answer counts as failed.
pub const REQUEST_TIMEOUT_SECS: u64 = 30;

pub const USER_AGENT: &'static str = "Cassiopeia-ISS/1.0";

pub const APOD_URL: &'static str = "https://api.nasa.gov/planetary/apod";

pub const NEO_FEED_URL: &'static str = "https://api.nasa.gov/neo/rest/v1/feed";

pub const DONKI_FLR_URL: &'static str = "https://api.nasa.gov/DONKI/FLR";

pub const DONKI_CME_URL: &'static str = "https://api.nasa.gov/DONKI/CME";

pub const SPACEX_NEXT_LAUNCH_URL: &'static str = "https://api.spacexdata.com/v5/launches/next";

/// One `name=value` pair of a query string.
#[derive(Clone, Debug)]
pub struct QueryParam {
    pub name: String,
    pub value: String,
}

/// A GET request for a JSON document, and how often it may be tried.
#[derive(Clone, Debug)]
pub struct FetchRequest {
    pub url: String,
    pub query: Vec<QueryParam>,
    pub max_attempts: u32,
}

/// How a client talks to its upstream.
#[derive(Clone, Debug)]
pub struct ClientSettings {
    pub timeout_secs: u64,
    pub user_agent: String,
}

/// A query as pairs of texts.
pub open spec fn query_pairs(query: Seq<QueryParam>) -> Seq<(Seq<char>, Seq<char>)> {
    Seq::new(query.len(), |i: int| (query[i].name@, query[i].value@))
}

impl FetchRequest {
    /// Whether the request goes to `url` with the query `pairs`, under the
    /// attempt cap that every client uses.
    pub open spec fn is(self, url: Seq<char>, pairs: Seq<(Seq<char>, Seq<char>)>) -> bool {
        &&& self.url@ == url
        &&& query_pairs(self.query@) == pairs
        &&& self.max_attempts == DEFAULT_MAX_ATTEMPTS
    }
}

impl ClientSettings {
    /// Whether these are the settings that every client uses.
    pub open spec fn standard(self) -> bool {
        self.timeout_secs == REQUEST_TIMEOUT_SECS && self.user_agent@ == USER_AGENT@
    }

    pub fn new() -> (s: ClientSettings)
        ensures
            s.standard(),
    {
        ClientSettings { timeout_secs: REQUEST_TIMEOUT_SECS, user_agent: USER_AGENT.to_owned() }
    }
}

fn param(name: &str, value: &str) -> (p: QueryParam)
    ensures
        p.name@ == name@,
        p.value@ == value@,
{
    QueryParam { name: name.to_owned(), value: value.to_owned() }
}

fn plain_request(url: &str) -> (r: FetchRequest)
    ensures
        r.is(url@, Seq::empty()),
{
    let r = FetchRequest { url: url.to_owned(), query: Vec::new(), max_attempts: DEFAULT_MAX_ATTEMPTS };
    assert(query_pairs(r.query@) =~= Seq::empty());
    r
}

fn keyed_request(url: &str, api_key: &str) -> (r: FetchRequest)
    ensures
        r.is(url@, seq![("api_key"@, api_key@)]),
{
    let mut query: Vec<QueryParam> = Vec::new();
    query.push(param("api_key", api_key));
    let r = FetchRequest { url: url.to_owned(), query, max_attempts: DEFAULT_MAX_ATTEMPTS };
    assert(query_pairs(r.query@) =~= seq![("api_key"@, api_key@)]);
    r
}

fn ranged_request(
    url: &str,
    api_key: &str,
    start_name: &str,
    start_date: &str,
    end_name: &str,
    end_date: &str,
) -> (r: FetchRequest)
    ensures
        r.is(
            url@,
            seq![("api_key"@, api_key@), (start_name@, start_date@), (end_name@, end_date@)],
        ),
{
    let mut query: Vec<QueryParam> = Vec::new();
    query.push(param("api_key", api_key));
    query.push(param(start_name, start_date));
    query.push(param(end_name, end_date));
    let r = FetchRequest { url: url.to_owned(), query, max_attempts: DEFAULT_MAX_ATTEMPTS };
    assert(query_pairs(r.query@) =~= seq![
        ("api_key"@, api_key@),
        (start_name@, start_date@),
        (end_name@, end_date@),
    ]);
    r
}

/// Client of the position service.
#[derive(Clone, Debug)]
pub struct IssClient {
    pub settings: ClientSettings,
}

impl IssClient {
    pub fn new() -> (c: IssClient)
        ensures
            c.settings.standard(),
    {
        IssClient { settings: ClientSettings::new() }
    }

    /// The request for the current position, at `url`.
    pub fn fetch_position(&self, url: &str) -> (r: FetchRequest)
        ensures
            r.is(url@, Seq::empty()),
    {
        plain_request(url)
    }
}

impl Default for IssClient {
    fn default() -> (c: IssClient)
        ensures
            c.settings.standard(),
    {
        IssClient::new()
    }
}

/// Client of the NASA services.
#[derive(Clone, Debug)]
pub struct NasaClient {
    pub settings: ClientSettings,
}

impl NasaClient {
    pub fn new() -> (c: NasaClient)
        ensures
            c.settings.standard(),
    {
        NasaClient { settings: ClientSettings::new() }
    }

    /// The request for the dataset catalog, at `url`.
    pub fn fetch_osdr(&self, url: &str, api_key: &str) -> (r: FetchRequest)
        ensures
            r.is(url@, seq![("api_key"@, api_key@)]),
    {
        keyed_request(url, api_key)
    }

    /// The request for the picture of the day.
    pub fn fetch_apod(&self, api_key: &str) -> (r: FetchRequest)
        ensures
            r.is(APOD_URL@, seq![("api_key"@, api_key@)]),
    {
        keyed_request(APOD_URL, api_key)
    }

    /// The request for the near-earth objects between two dates, each written
    /// `YYYY-MM-DD`.
    pub fn fetch_neo_feed(&self, api_key: &str, start_date: &str, end_date: &str) -> (r:
        FetchRequest)
        ensures
            r.is(
                NEO_FEED_URL@,
                seq![
                    ("api_key"@, api_key@),
                    ("start_date"@, start_date@),
                    ("end_date"@, end_date@),
                ],
            ),
    {
        ranged_request(NEO_FEED_URL, api_key, "start_date", start_date, "end_date", end_date)
    }

    /// The request for the solar flares between two dates, each written
    /// `YYYY-MM-DD`.
    pub fn fetch_donki_flr(&self, api_key: &str, start_date: &str, end_date: &str) -> (r:
        FetchRequest)
        ensures
            r.is(
                DONKI_FLR_URL@,
                seq![
                    ("api_key"@, api_key@),
                    ("startDate"@, start_date@),
                    ("endDate"@, end_date@),
                ],
            ),
    {
        ranged_request(DONKI_FLR_URL, api_key, "startDate", start_date, "endDate", end_date)
    }

    /// The request for the coronal mass ejections between two dates, each
    /// written `YYYY-MM-DD`.
    pub fn fetch_donki_cme(&self, api_key: &str, start_date: &str, end_date: &str) -> (r:
        FetchRequest)
        ensures
            r.is(
                DONKI_CME_URL@,
                seq![
                    ("api_key"@, api_key@),
                    ("startDate"@, start_date@),
                    ("endDate"@, end_date@),
                ],
            ),
    {
        ranged_request(DONKI_CME_URL, api_key, "startDate", start_date, "endDate", end_date)
    }
}

impl Default for NasaClient {
    fn default() -> (c: NasaClient)
        ensures
            c.settings.standard(),
    {
        NasaClient::new()
    }
}

/// Client of the launch service.
#[derive(Clone, Debug)]
pub struct SpaceXClient {
    pub settings: ClientSettings,
}

impl SpaceXClient {
    pub fn new() -> (c: SpaceXClient)
        ensures
            c.settings.standard(),
    {
        SpaceXClient { settings: ClientSettings::new() }
    }

    /// The request for the next launch.
    pub fn fetch_next_launch(&self) -> (r: FetchRequest)
        ensures
            r.is(SPACEX_NEXT_LAUNCH_URL@, Seq::empty()),
    {
        plain_request(SPACEX_NEXT_LAUNCH_URL)
    }
}

impl Default for SpaceXClient {
    fn default() -> (c: SpaceXClient)
        ensures
            c.settings.standard(),
    {
        SpaceXClient::new()
    }
}

} // verus!
