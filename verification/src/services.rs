//! What each upstream's fetch-and-store consists of, and how the latest
//! position is read back.

use vstd::prelude::*;
use crate::cache::{CacheAside, CacheLookup, DurableRead, GetStep};
use crate::clients::{
    APOD_URL, DONKI_CME_URL, DONKI_FLR_URL, FetchRequest, IssClient, NEO_FEED_URL, NasaClient,
    SPACEX_NEXT_LAUNCH_URL, SpaceXClient,
};
use crate::config::Config;
use crate::dates::{Timestamp, iso_date, iso_date_text};
use crate::domain::IssFetchLog;
use crate::errors::{ApiError, DATABASE_ERROR, INTERNAL_ERROR, is_trace_id};
use crate::json::{error_text, json_document, json_text, parse, serialize};
use crate::sync_task::{CachePolicy, PersistTarget, SourceKind};

verus! {

pub const ISS_CACHE_KEY: &'static str = "iss:last";

pub const ISS_CACHE_TTL: u64 = 60;

pub const OSDR_CACHE_KEY: &'static str = "nasa:osdr";

pub const OSDR_CACHE_TTL: u64 = 600;

/// Days ahead of today that the near-earth-object feed is asked for.
pub const NEO_WINDOW_DAYS: i32 = 7;

/// Days back from today that the space-weather events are asked for.
pub const DONKI_WINDOW_DAYS: i32 = 30;

/// What stands for the URL in a position served from the fast store.
pub const CACHED_SOURCE_URL: &'static str = "cache";

/// The tag under which the payload log keeps the payloads of an upstream.
pub open spec fn source_tag(kind: SourceKind) -> Seq<char> {
    match kind {
        SourceKind::Iss => "iss"@,
        SourceKind::Osdr => "osdr"@,
        SourceKind::Apod => "apod"@,
        SourceKind::Neo => "neo"@,
        SourceKind::DonkiFlr => "donki_flr"@,
        SourceKind::DonkiCme => "donki_cme"@,
        SourceKind::SpaceX => "spacex"@,
    }
}

/// Key and expiry under which the fast store keeps an upstream's payload;
/// `None` for an upstream whose payload goes to the durable store only.
pub open spec fn cache_of(kind: SourceKind) -> Option<(Seq<char>, u64)> {
    match kind {
        SourceKind::Iss => Some((ISS_CACHE_KEY@, ISS_CACHE_TTL)),
        SourceKind::Osdr => Some((OSDR_CACHE_KEY@, OSDR_CACHE_TTL)),
        _ => None,
    }
}

/// Where an upstream's payload is kept durably.
pub open spec fn target_of(kind: SourceKind) -> PersistTarget {
    match kind {
        SourceKind::Iss => PersistTarget::IssFetchLog,
        SourceKind::Osdr => PersistTarget::OsdrCatalog,
        _ => PersistTarget::SpaceCache,
    }
}

/// A cache policy as plain values.
pub open spec fn policy_view(cache: Option<CachePolicy>) -> Option<(Seq<char>, u64)> {
    match cache {
        Some(policy) => Some((policy.key@, policy.ttl_secs)),
        None => None,
    }
}

/// One fetch-and-store: what to ask the upstream, and where the answer goes.
#[derive(Clone, Debug)]
pub struct FetchStorePlan {
    pub kind: SourceKind,
    pub request: FetchRequest,
    pub cache: Option<CachePolicy>,
    pub target: PersistTarget,
    /// What the durable row says of where the payload came from: the URL for
    /// the position log, the upstream's tag for the payload log.
    pub origin: String,
}

impl FetchStorePlan {
    /// Whether the plan stores the payload of `kind` as that upstream's rules
    /// say, with `origin` in the durable row.
    pub open spec fn stores(self, kind: SourceKind, origin: Seq<char>) -> bool {
        &&& self.kind == kind
        &&& policy_view(self.cache) == cache_of(kind)
        &&& self.target == target_of(kind)
        &&& self.origin@ == origin
    }
}

/// The fast-store policy of an upstream.
pub fn cache_policy(kind: SourceKind) -> (cache: Option<CachePolicy>)
    ensures
        policy_view(cache) == cache_of(kind),
{
    match kind {
        SourceKind::Iss => Some(
            CachePolicy { key: ISS_CACHE_KEY.to_owned(), ttl_secs: ISS_CACHE_TTL },
        ),
        SourceKind::Osdr => Some(
            CachePolicy { key: OSDR_CACHE_KEY.to_owned(), ttl_secs: OSDR_CACHE_TTL },
        ),
        _ => None,
    }
}

/// The durable target of an upstream.
pub fn persist_target(kind: SourceKind) -> (target: PersistTarget)
    ensures
        target == target_of(kind),
{
    match kind {
        SourceKind::Iss => PersistTarget::IssFetchLog,
        SourceKind::Osdr => PersistTarget::OsdrCatalog,
        _ => PersistTarget::SpaceCache,
    }
}

/// The tag of an upstream in the payload log.
pub fn source_tag_text(kind: SourceKind) -> (tag: &'static str)
    ensures
        tag@ == source_tag(kind),
{
    match kind {
        SourceKind::Iss => "iss",
        SourceKind::Osdr => "osdr",
        SourceKind::Apod => "apod",
        SourceKind::Neo => "neo",
        SourceKind::DonkiFlr => "donki_flr",
        SourceKind::DonkiCme => "donki_cme",
        SourceKind::SpaceX => "spacex",
    }
}

fn plan(kind: SourceKind, request: FetchRequest, origin: &str) -> (p: FetchStorePlan)
    ensures
        p.stores(kind, origin@),
        p.request == request,
{
    FetchStorePlan {
        kind,
        request,
        cache: cache_policy(kind),
        target: persist_target(kind),
        origin: origin.to_owned(),
    }
}

/// The message of the error that tells of a payload that could not be put
/// into text: `what` names the payload, `detail` says what went wrong.
pub open spec fn serialize_failure_text(what: Seq<char>, detail: Seq<char>) -> Seq<char> {
    "Failed to serialize "@ + what + " data: "@ + detail
}

/// The text under which the fast store keeps a payload, given how putting the
/// payload into text went: the text, or an internal error that tells of the
/// failure.
pub fn cache_text_from(serialized: Result<String, String>, what: &str) -> (r: Result<
    String,
    ApiError,
>)
    ensures
        match serialized {
            Ok(text) => r == Ok::<String, ApiError>(text),
            Err(detail) => r matches Err(e) && e.says(
                INTERNAL_ERROR@,
                serialize_failure_text(what@, detail@),
            ),
        },
{
    match serialized {
        Ok(text) => Ok(text),
        Err(detail) => {
            let mut message = "Failed to serialize ".to_owned();
            message.append(what);
            message.append(" data: ");
            message.append(detail.as_str());
            Err(ApiError::internal(message.as_str()))
        },
    }
}

/// The text under which the fast store keeps `payload`: the payload written
/// out as compact JSON. Where the payload cannot be written, an internal
/// error tells so, naming the payload by `what`.
pub fn cache_text(payload: &serde_json::Value, what: &str) -> (r: Result<String, ApiError>)
    ensures
        match json_text(*payload) {
            Some(text) => r matches Ok(written) && written@ == text,
            None => r matches Err(e) && e.code@ == INTERNAL_ERROR@ && is_trace_id(e.trace_id@)
                && exists|detail: Seq<char>|
                e.message@ == #[trigger] serialize_failure_text(what@, detail),
        },
{
    let serialized = match serialize(payload) {
        Ok(text) => Ok(text),
        Err(error) => Err(error_text(&error)),
    };
    let ghost detail = if serialized is Err {
        serialized->Err_0@
    } else {
        Seq::<char>::empty()
    };
    let r = cache_text_from(serialized, what);
    proof {
        if r is Err {
            assert(r->Err_0.message@ == serialize_failure_text(what@, detail));
        }
    }
    r
}

/// What the fast store gave, with the text under the key read as a payload:
/// a hit is the document that the text denotes, and a text that is no JSON
/// document counts as unreadable.
pub fn decode_lookup(cached: CacheLookup<String>) -> (r: CacheLookup<serde_json::Value>)
    ensures
        match cached {
            CacheLookup::Hit(text) => match json_document(text@) {
                Some(document) => r == CacheLookup::Hit(document),
                None => r is Unreadable,
            },
            CacheLookup::Miss => r is Miss,
            CacheLookup::Unreadable => r is Unreadable,
            CacheLookup::Failed => r is Failed,
        },
{
    match cached {
        CacheLookup::Hit(text) => match parse(text.as_str()) {
            Ok(payload) => CacheLookup::Hit(payload),
            Err(_) => CacheLookup::Unreadable,
        },
        CacheLookup::Miss => CacheLookup::Miss,
        CacheLookup::Unreadable => CacheLookup::Unreadable,
        CacheLookup::Failed => CacheLookup::Failed,
    }
}

pub struct IssService;

impl IssService {
    /// The fetch-and-store of the position: asked at the configured URL, kept
    /// in the fast store for a minute, appended to the position log.
    pub fn fetch_and_store(config: &Config) -> (p: FetchStorePlan)
        ensures
            p.stores(SourceKind::Iss, config.iss_url@),
            p.request.is(config.iss_url@, Seq::empty()),
    {
        let client = IssClient::new();
        let request = client.fetch_position(config.iss_url.as_str());
        plan(SourceKind::Iss, request, config.iss_url.as_str())
    }

    /// The position that a hit in the fast store stands for. The fast store
    /// keeps the payload only: the row has no identifier, and `now` for its
    /// time.
    pub open spec fn cached_log(payload: serde_json::Value, now: Timestamp, log: IssFetchLog) -> bool {
        &&& log.id == 0
        &&& log.fetched_at == now
        &&& log.source_url@ == CACHED_SOURCE_URL@
        &&& log.payload == payload
    }

    /// Reads the latest position, first step: a payload found in the fast
    /// store is served at once, and the position log is not asked. Anything
    /// else sends the read on to the position log.
    pub fn get_last(cached: CacheLookup<serde_json::Value>, now: Timestamp) -> (step: GetStep<
        IssFetchLog,
    >)
        ensures
            match cached {
                CacheLookup::Hit(payload) => step matches GetStep::Serve(log) && Self::cached_log(
                    payload,
                    now,
                    log,
                ),
                CacheLookup::Miss => step == (GetStep::<IssFetchLog>::AskDurable {
                    report: false,
                }),
                CacheLookup::Unreadable => step == (GetStep::<IssFetchLog>::AskDurable {
                    report: true,
                }),
                CacheLookup::Failed => step == (GetStep::<IssFetchLog>::AskDurable {
                    report: true,
                }),
            },
    {
        let lookup = match cached {
            CacheLookup::Hit(payload) => CacheLookup::Hit(
                IssFetchLog {
                    id: 0,
                    fetched_at: now,
                    source_url: CACHED_SOURCE_URL.to_owned(),
                    payload,
                },
            ),
            CacheLookup::Miss => CacheLookup::Miss,
            CacheLookup::Unreadable => CacheLookup::Unreadable,
            CacheLookup::Failed => CacheLookup::Failed,
        };
        CacheAside::after_fast_read(lookup)
    }

    /// Reads the latest position, second step: what the position log gave.
    /// An empty log is no failure: the read then gives nothing.
    pub fn get_last_stored(read: DurableRead<IssFetchLog>) -> (r: Result<
        Option<IssFetchLog>,
        ApiError,
    >)
        ensures
            match read {
                DurableRead::Found(log) => r == Ok::<Option<IssFetchLog>, ApiError>(Some(log)),
                DurableRead::Empty => r == Ok::<Option<IssFetchLog>, ApiError>(None),
                DurableRead::Failed(detail) => r matches Err(e) && e.says(
                    DATABASE_ERROR@,
                    detail@,
                ),
            },
    {
        CacheAside::after_durable_read(read)
    }
}

/// The two dates of a request, each written `YYYY-MM-DD`.
#[derive(Clone, Debug)]
pub struct DateWindow {
    pub start: String,
    pub end: String,
}

/// The window from day `start` to day `end`, both as day numbers, where both
/// are dates that fit.
pub open spec fn window_texts(start: int, end: int) -> Option<(Seq<char>, Seq<char>)> {
    if i32::MIN <= start && end <= i32::MAX && iso_date_text(start) is Some && iso_date_text(
        end,
    ) is Some {
        Some((iso_date_text(start)->Some_0, iso_date_text(end)->Some_0))
    } else {
        None
    }
}

/// The query of a request over a window of dates.
pub open spec fn window_query(
    api_key: Seq<char>,
    start_name: Seq<char>,
    end_name: Seq<char>,
    window: (Seq<char>, Seq<char>),
) -> Seq<(Seq<char>, Seq<char>)> {
    seq![("api_key"@, api_key), (start_name, window.0), (end_name, window.1)]
}

fn date_window(today: i32, back: i32, ahead: i32) -> (r: Option<DateWindow>)
    requires
        0 <= back <= 1000,
        0 <= ahead <= 1000,
    ensures
        match r {
            Some(w) => window_texts(today - back, today + ahead) == Some((w.start@, w.end@)),
            None => window_texts(today - back, today + ahead) is None,
        },
{
    if today < i32::MIN + back || today > i32::MAX - ahead {
        return None;
    }
    let start = match iso_date(today - back) {
        Some(text) => text,
        None => {
            return None;
        },
    };
    let end = match iso_date(today + ahead) {
        Some(text) => text,
        None => {
            return None;
        },
    };
    Some(DateWindow { start, end })
}

/// What is asked of the upstream `kind` on day `today` under `config`: the
/// URL and the query. `None` where the dates of the request do not fit the
/// calendar.
pub open spec fn planned_request(kind: SourceKind, config: Config, today: int) -> Option<
    (Seq<char>, Seq<(Seq<char>, Seq<char>)>),
> {
    match kind {
        SourceKind::Iss => Some((config.iss_url@, Seq::empty())),
        SourceKind::Osdr => Some((config.nasa_osdr_url@, seq![("api_key"@, config.nasa_api_key@)])),
        SourceKind::Apod => Some((APOD_URL@, seq![("api_key"@, config.nasa_api_key@)])),
        SourceKind::Neo => match window_texts(today, today + NEO_WINDOW_DAYS) {
            Some(window) => Some(
                (
                    NEO_FEED_URL@,
                    window_query(config.nasa_api_key@, "start_date"@, "end_date"@, window),
                ),
            ),
            None => None,
        },
        SourceKind::DonkiFlr => match window_texts(today - DONKI_WINDOW_DAYS, today) {
            Some(window) => Some(
                (
                    DONKI_FLR_URL@,
                    window_query(config.nasa_api_key@, "startDate"@, "endDate"@, window),
                ),
            ),
            None => None,
        },
        SourceKind::DonkiCme => match window_texts(today - DONKI_WINDOW_DAYS, today) {
            Some(window) => Some(
                (
                    DONKI_CME_URL@,
                    window_query(config.nasa_api_key@, "startDate"@, "endDate"@, window),
                ),
            ),
            None => None,
        },
        SourceKind::SpaceX => Some((SPACEX_NEXT_LAUNCH_URL@, Seq::empty())),
    }
}

/// What the durable row of a payload of `kind` says of where it came from.
pub open spec fn planned_origin(kind: SourceKind, config: Config) -> Seq<char> {
    match kind {
        SourceKind::Iss => config.iss_url@,
        _ => source_tag(kind),
    }
}

pub struct NasaService;

impl NasaService {
    /// The fetch-and-store of the dataset catalog: asked at the configured
    /// URL, the whole answer kept in the fast store for ten minutes, the
    /// entries written to the catalog by upsert.
    pub fn fetch_and_store_osdr(config: &Config) -> (p: FetchStorePlan)
        ensures
            p.stores(SourceKind::Osdr, source_tag(SourceKind::Osdr)),
            p.request.is(config.nasa_osdr_url@, seq![("api_key"@, config.nasa_api_key@)]),
    {
        let client = NasaClient::new();
        let request = client.fetch_osdr(
            config.nasa_osdr_url.as_str(),
            config.nasa_api_key.as_str(),
        );
        plan(SourceKind::Osdr, request, source_tag_text(SourceKind::Osdr))
    }

    /// The fetch-and-store of the picture of the day.
    pub fn fetch_apod(config: &Config) -> (p: FetchStorePlan)
        ensures
            p.stores(SourceKind::Apod, source_tag(SourceKind::Apod)),
            p.request.is(APOD_URL@, seq![("api_key"@, config.nasa_api_key@)]),
    {
        let client = NasaClient::new();
        let request = client.fetch_apod(config.nasa_api_key.as_str());
        plan(SourceKind::Apod, request, source_tag_text(SourceKind::Apod))
    }

    /// The fetch-and-store of the near-earth objects of the week that starts
    /// on day `today`. `None` where the week's dates do not fit the calendar.
    pub fn fetch_neo(config: &Config, today: i32) -> (r: Option<FetchStorePlan>)
        ensures
            r is Some <==> window_texts(today as int, today + NEO_WINDOW_DAYS) is Some,
            r matches Some(p) ==> {
                &&& p.stores(SourceKind::Neo, source_tag(SourceKind::Neo))
                &&& p.request.is(
                    NEO_FEED_URL@,
                    window_query(
                        config.nasa_api_key@,
                        "start_date"@,
                        "end_date"@,
                        window_texts(today as int, today + NEO_WINDOW_DAYS)->Some_0,
                    ),
                )
            },
    {
        match date_window(today, 0, NEO_WINDOW_DAYS) {
            Some(window) => {
                let client = NasaClient::new();
                let request = client.fetch_neo_feed(
                    config.nasa_api_key.as_str(),
                    window.start.as_str(),
                    window.end.as_str(),
                );
                Some(plan(SourceKind::Neo, request, source_tag_text(SourceKind::Neo)))
            },
            None => None,
        }
    }

    /// The fetch-and-store of the solar flares of the thirty days that end on
    /// day `today`. `None` where the dates do not fit the calendar.
    pub fn fetch_donki_flr(config: &Config, today: i32) -> (r: Option<FetchStorePlan>)
        ensures
            r is Some <==> window_texts(today - DONKI_WINDOW_DAYS, today as int) is Some,
            r matches Some(p) ==> {
                &&& p.stores(SourceKind::DonkiFlr, source_tag(SourceKind::DonkiFlr))
                &&& p.request.is(
                    DONKI_FLR_URL@,
                    window_query(
                        config.nasa_api_key@,
                        "startDate"@,
                        "endDate"@,
                        window_texts(today - DONKI_WINDOW_DAYS, today as int)->Some_0,
                    ),
                )
            },
    {
        match date_window(today, DONKI_WINDOW_DAYS, 0) {
            Some(window) => {
                let client = NasaClient::new();
                let request = client.fetch_donki_flr(
                    config.nasa_api_key.as_str(),
                    window.start.as_str(),
                    window.end.as_str(),
                );
                Some(plan(SourceKind::DonkiFlr, request, source_tag_text(SourceKind::DonkiFlr)))
            },
            None => None,
        }
    }

    /// The fetch-and-store of the coronal mass ejections of the thirty days
    /// that end on day `today`. `None` where the dates do not fit the
    /// calendar.
    pub fn fetch_donki_cme(config: &Config, today: i32) -> (r: Option<FetchStorePlan>)
        ensures
            r is Some <==> window_texts(today - DONKI_WINDOW_DAYS, today as int) is Some,
            r matches Some(p) ==> {
                &&& p.stores(SourceKind::DonkiCme, source_tag(SourceKind::DonkiCme))
                &&& p.request.is(
                    DONKI_CME_URL@,
                    window_query(
                        config.nasa_api_key@,
                        "startDate"@,
                        "endDate"@,
                        window_texts(today - DONKI_WINDOW_DAYS, today as int)->Some_0,
                    ),
                )
            },
    {
        match date_window(today, DONKI_WINDOW_DAYS, 0) {
            Some(window) => {
                let client = NasaClient::new();
                let request = client.fetch_donki_cme(
                    config.nasa_api_key.as_str(),
                    window.start.as_str(),
                    window.end.as_str(),
                );
                Some(plan(SourceKind::DonkiCme, request, source_tag_text(SourceKind::DonkiCme)))
            },
            None => None,
        }
    }

    /// The fetch-and-store of the next launch.
    pub fn fetch_spacex(config: &Config) -> (p: FetchStorePlan)
        ensures
            p.stores(SourceKind::SpaceX, source_tag(SourceKind::SpaceX)),
            p.request.is(SPACEX_NEXT_LAUNCH_URL@, Seq::empty()),
    {
        let client = SpaceXClient::new();
        let request = client.fetch_next_launch();
        plan(SourceKind::SpaceX, request, source_tag_text(SourceKind::SpaceX))
    }
}

/// The fetch-and-store of the upstream `kind` on day `today`. `None` where the
/// dates of the request do not fit the calendar.
pub fn plan_for(kind: SourceKind, config: &Config, today: i32) -> (r: Option<FetchStorePlan>)
    ensures
        r is Some <==> planned_request(kind, *config, today as int) is Some,
        r matches Some(p) ==> {
            &&& p.stores(kind, planned_origin(kind, *config))
            &&& p.request.is(
                planned_request(kind, *config, today as int)->Some_0.0,
                planned_request(kind, *config, today as int)->Some_0.1,
            )
        },
{
    match kind {
        SourceKind::Iss => Some(IssService::fetch_and_store(config)),
        SourceKind::Osdr => Some(NasaService::fetch_and_store_osdr(config)),
        SourceKind::Apod => Some(NasaService::fetch_apod(config)),
        SourceKind::Neo => NasaService::fetch_neo(config, today),
        SourceKind::DonkiFlr => NasaService::fetch_donki_flr(config, today),
        SourceKind::DonkiCme => NasaService::fetch_donki_cme(config, today),
        SourceKind::SpaceX => Some(NasaService::fetch_spacex(config)),
    }
}

} // verus!
