//! What the read interface decides before and after it asks the stores:
//! which page, which upstreams, and how the latest payloads are summed up.

use vstd::prelude::*;
use crate::domain::{IssFetchLog, OsdrItem, SpaceCache};
use crate::errors::{ApiError, NOT_FOUND, VALIDATION_ERROR};
use crate::sync_task::SourceKind;

verus! {

pub const MIN_PAGE_LIMIT: i64 = 1;

pub const MAX_PAGE_LIMIT: i64 = 100;

pub const DEFAULT_PAGE_LIMIT: i64 = 10;

pub const INVALID_LIMIT: &'static str = "Invalid parameters: limit must be between 1 and 100";

pub const NO_POSITION: &'static str = "No ISS position data available";

/// The upstreams that a refresh takes where the caller names none.
pub const DEFAULT_REFRESH_SOURCES: &'static str = "apod,neo,donki_flr,donki_cme,spacex";

/// Number of upstreams in a summary.
pub const SUMMARY_SOURCES: usize = 5;

/// How many rows of the catalog a caller asks for.
#[derive(Clone, Copy, Debug, PartialEq, Eq, Structural)]
pub struct PaginationParams {
    pub limit: Option<i64>,
}

/// A page of the catalog.
#[derive(Debug)]
pub struct OsdrListResponse {
    pub items: Vec<OsdrItem>,
    pub total: i64,
    pub limit: i64,
}

/// Which upstreams a caller wants refreshed: names set apart by commas.
#[derive(Clone, Debug)]
pub struct RefreshQuery {
    pub sources: Option<String>,
}

/// One name of a refresh.
#[derive(Clone, Debug)]
pub enum RefreshTarget {
    /// The name of an upstream that can be refreshed.
    Known(SourceKind),
    /// Any other name.
    Unknown(String),
}

/// The latest payload of each upstream, where there is one.
#[derive(Debug)]
pub struct SpaceSummary {
    pub sources: Vec<(String, Option<SpaceCache>)>,
    /// Number of upstreams with a payload.
    pub total: usize,
}

/// The answer to a caller who asks for the latest position, from what the read
/// gave: the position, or, where the read gave none, an error that says that
/// nothing was found.
pub fn last_iss(found: Option<IssFetchLog>) -> (r: Result<IssFetchLog, ApiError>)
    ensures
        match found {
            Some(log) => r == Ok::<IssFetchLog, ApiError>(log),
            None => r matches Err(e) && e.says(NOT_FOUND@, NO_POSITION@),
        },
{
    match found {
        Some(log) => Ok(log),
        None => Err(ApiError::not_found(NO_POSITION)),
    }
}

/// Whether a limit, where one is given, is within bounds.
pub open spec fn limit_in_bounds(limit: Option<i64>) -> bool {
    match limit {
        Some(n) => MIN_PAGE_LIMIT <= n <= MAX_PAGE_LIMIT,
        None => true,
    }
}

impl PaginationParams {
    /// Refuses a limit below 1 or above 100.
    pub fn validate(&self) -> (r: Result<(), ApiError>)
        ensures
            match r {
                Ok(_) => limit_in_bounds(self.limit),
                Err(e) => !limit_in_bounds(self.limit) && e.says(
                    VALIDATION_ERROR@,
                    INVALID_LIMIT@,
                ),
            },
    {
        match self.limit {
            Some(n) => {
                if n < MIN_PAGE_LIMIT || n > MAX_PAGE_LIMIT {
                    Err(ApiError::validation(INVALID_LIMIT))
                } else {
                    Ok(())
                }
            },
            None => Ok(()),
        }
    }

    /// The limit to use: the one given, or ten.
    pub fn effective_limit(&self) -> (n: i64)
        ensures
            n == (match self.limit {
                Some(n) => n,
                None => DEFAULT_PAGE_LIMIT,
            }),
    {
        match self.limit {
            Some(n) => n,
            None => DEFAULT_PAGE_LIMIT,
        }
    }
}

/// Whether a character has Unicode's property White_Space.
pub open spec fn is_white_space(c: char) -> bool {
    let n = c as u32;
    ||| 0x09 <= n <= 0x0D
    ||| n == 0x20
    ||| n == 0x85
    ||| n == 0xA0
    ||| n == 0x1680
    ||| 0x2000 <= n <= 0x200A
    ||| n == 0x2028
    ||| n == 0x2029
    ||| n == 0x202F
    ||| n == 0x205F
    ||| n == 0x3000
}

/// `text` without the white space at its start.
pub open spec fn trim_start(text: Seq<char>) -> Seq<char>
    decreases text.len(),
{
    if text.len() > 0 && is_white_space(text[0]) {
        trim_start(text.skip(1))
    } else {
        text
    }
}

/// `text` without the white space at its end.
pub open spec fn trim_end(text: Seq<char>) -> Seq<char>
    decreases text.len(),
{
    if text.len() > 0 && is_white_space(text.last()) {
        trim_end(text.drop_last())
    } else {
        text
    }
}

/// `text` without the white space at its start and at its end.
pub open spec fn trim(text: Seq<char>) -> Seq<char> {
    trim_end(trim_start(text))
}

/// Place of the first comma in `text`, or the length of `text` where it has
/// none.
pub open spec fn first_comma(text: Seq<char>) -> int
    decreases text.len(),
{
    if text.len() == 0 || text[0] == ',' {
        0
    } else {
        1 + first_comma(text.skip(1))
    }
}

/// The pieces of `text` between its commas, in order. A text without a comma
/// is one piece, and so is the empty text.
pub open spec fn split_commas(text: Seq<char>) -> Seq<Seq<char>>
    decreases text.len(),
{
    let i = first_comma(text);
    if 0 <= i < text.len() {
        seq![text.take(i)] + split_commas(text.skip(i + 1))
    } else {
        seq![text]
    }
}

/// The texts that a vector of strings holds.
pub open spec fn texts(parts: Seq<String>) -> Seq<Seq<char>> {
    Seq::new(parts.len(), |i: int| parts[i]@)
}

/// The upstream that `name` names in a refresh, if it names one.
pub open spec fn refreshable(name: Seq<char>) -> Option<SourceKind> {
    if name == "apod"@ {
        Some(SourceKind::Apod)
    } else if name == "neo"@ {
        Some(SourceKind::Neo)
    } else if name == "donki_flr"@ {
        Some(SourceKind::DonkiFlr)
    } else if name == "donki_cme"@ {
        Some(SourceKind::DonkiCme)
    } else if name == "spacex"@ {
        Some(SourceKind::SpaceX)
    } else {
        None
    }
}

/// Whether `target` is what the name `name` stands for in a refresh.
pub open spec fn target_of_name(target: RefreshTarget, name: Seq<char>) -> bool {
    match refreshable(name) {
        Some(kind) => target == RefreshTarget::Known(kind),
        None => target matches RefreshTarget::Unknown(text) && text@ == name,
    }
}

proof fn lemma_first_comma(text: Seq<char>, j: int)
    requires
        0 <= j <= text.len(),
        forall|k: int| 0 <= k < j ==> text[k] != ',',
        j < text.len() ==> text[j] == ',',
    ensures
        first_comma(text) == j,
    decreases j,
{
    if j > 0 {
        let rest = text.skip(1);
        assert forall|k: int| 0 <= k < j - 1 implies rest[k] != ',' by {
            assert(rest[k] == text[k + 1]);
        }
        lemma_first_comma(rest, j - 1);
    }
}

proof fn lemma_trim_start(text: Seq<char>, a: int)
    requires
        0 <= a <= text.len(),
        forall|k: int| 0 <= k < a ==> is_white_space(text[k]),
        a < text.len() ==> !is_white_space(text[a]),
    ensures
        trim_start(text) == text.skip(a),
    decreases a,
{
    if a > 0 {
        let rest = text.skip(1);
        assert forall|k: int| 0 <= k < a - 1 implies is_white_space(rest[k]) by {
            assert(rest[k] == text[k + 1]);
        }
        lemma_trim_start(rest, a - 1);
        assert(rest.skip(a - 1) =~= text.skip(a));
    } else {
        assert(text.skip(0) =~= text);
    }
}

proof fn lemma_trim_end(text: Seq<char>, b: int)
    requires
        0 <= b <= text.len(),
        forall|k: int| b <= k < text.len() ==> is_white_space(text[k]),
        b > 0 ==> !is_white_space(text[b - 1]),
    ensures
        trim_end(text) == text.take(b),
    decreases text.len() - b,
{
    if b < text.len() {
        let front = text.drop_last();
        lemma_trim_end(front, b);
        assert(front.take(b) =~= text.take(b));
    } else {
        assert(text.take(b) =~= text);
    }
}

/// Whether a character has Unicode's property White_Space.
fn white_space(c: char) -> (r: bool)
    ensures
        r == is_white_space(c),
{
    let n: u32 = c as u32;
    (0x09 <= n && n <= 0x0D) || n == 0x20 || n == 0x85 || n == 0xA0 || n == 0x1680 || (0x2000 <= n
        && n <= 0x200A) || n == 0x2028 || n == 0x2029 || n == 0x202F || n == 0x205F || n == 0x3000
}

/// The pieces of a text between its commas, as the standard library's
/// `str::split` gives them for a comma: in order, one piece more than there
/// are commas.
fn split_at_commas(text: &str) -> (parts: Vec<String>)
    ensures
        texts(parts@) == split_commas(text@),
{
    let n: usize = text.unicode_len();
    let mut parts: Vec<String> = Vec::new();
    let mut start: usize = 0;
    let mut i: usize = 0;
    proof {
        assert(text@.skip(0) =~= text@);
        assert(texts(parts@) =~= Seq::<Seq<char>>::empty());
    }
    while i < n
        invariant
            start <= i <= n,
            n == text@.len(),
            split_commas(text@) == texts(parts@) + split_commas(text@.skip(start as int)),
            forall|k: int| start <= k < i ==> text@[k] != ',',
        decreases n - i,
    {
        if text.get_char(i) == ',' {
            let piece = text.substring_char(start, i).to_owned();
            let ghost rest = text@.skip(start as int);
            let ghost before = texts(parts@);
            proof {
                assert forall|k: int| 0 <= k < i - start implies rest[k] != ',' by {
                    assert(rest[k] == text@[start + k]);
                }
                lemma_first_comma(rest, i - start);
                assert(rest.take(i - start) =~= text@.subrange(start as int, i as int));
                assert(rest.skip(i - start + 1) =~= text@.skip(i + 1));
            }
            parts.push(piece);
            proof {
                assert(texts(parts@) =~= before.push(piece@));
                assert(before + (seq![piece@] + split_commas(text@.skip(i + 1))) =~= before.push(
                    piece@,
                ) + split_commas(text@.skip(i + 1)));
            }
            start = i + 1;
        }
        i += 1;
    }
    let piece = text.substring_char(start, n).to_owned();
    let ghost rest = text@.skip(start as int);
    let ghost before = texts(parts@);
    proof {
        assert forall|k: int| 0 <= k < rest.len() implies rest[k] != ',' by {
            assert(rest[k] == text@[start + k]);
        }
        lemma_first_comma(rest, rest.len() as int);
        assert(rest =~= text@.subrange(start as int, n as int));
    }
    parts.push(piece);
    proof {
        assert(texts(parts@) =~= before.push(piece@));
        assert(before + seq![piece@] =~= before.push(piece@));
    }
    parts
}

/// A text without the white space at its start and at its end, as the
/// standard library's `str::trim` gives it.
fn trimmed(text: &str) -> (r: String)
    ensures
        r@ == trim(text@),
{
    let n: usize = text.unicode_len();
    let mut a: usize = 0;
    while a < n && white_space(text.get_char(a))
        invariant
            a <= n,
            n == text@.len(),
            forall|k: int| 0 <= k < a ==> is_white_space(text@[k]),
        decreases n - a,
    {
        a += 1;
    }
    let mut b: usize = n;
    while b > a && white_space(text.get_char(b - 1))
        invariant
            a <= b <= n,
            n == text@.len(),
            forall|k: int| b <= k < n ==> is_white_space(text@[k]),
        decreases b,
    {
        b -= 1;
    }
    proof {
        lemma_trim_start(text@, a as int);
        let kept = text@.skip(a as int);
        assert forall|k: int| b - a <= k < kept.len() implies is_white_space(kept[k]) by {
            assert(kept[k] == text@[a + k]);
        }
        if b > a {
            assert(kept[b - a - 1] == text@[b - 1]);
        }
        lemma_trim_end(kept, b - a);
        assert(kept.take(b - a) =~= text@.subrange(a as int, b as int));
    }
    text.substring_char(a, b).to_owned()
}

fn same_text(a: &String, b: &str) -> (r: bool)
    ensures
        r == (a@ == b@),
{
    let other: String = b.to_owned();
    *a == other
}

/// What a name stands for in a refresh.
pub fn refresh_target(name: String) -> (target: RefreshTarget)
    ensures
        target_of_name(target, name@),
{
    if same_text(&name, "apod") {
        RefreshTarget::Known(SourceKind::Apod)
    } else if same_text(&name, "neo") {
        RefreshTarget::Known(SourceKind::Neo)
    } else if same_text(&name, "donki_flr") {
        RefreshTarget::Known(SourceKind::DonkiFlr)
    } else if same_text(&name, "donki_cme") {
        RefreshTarget::Known(SourceKind::DonkiCme)
    } else if same_text(&name, "spacex") {
        RefreshTarget::Known(SourceKind::SpaceX)
    } else {
        RefreshTarget::Unknown(name)
    }
}

impl RefreshQuery {
    /// The names that the query gives, as text: the caller's, or every
    /// upstream that can be refreshed.
    pub open spec fn names_text(self) -> Seq<char> {
        match self.sources {
            Some(text) => text@,
            None => DEFAULT_REFRESH_SOURCES@,
        }
    }

    /// The upstreams to refresh, in the order given: the names between the
    /// commas, each without the white space around it.
    pub fn targets(&self) -> (targets: Vec<RefreshTarget>)
        ensures
            targets@.len() == split_commas(self.names_text()).len(),
            forall|i: int|
                0 <= i < targets@.len() ==> target_of_name(
                    #[trigger] targets@[i],
                    trim(split_commas(self.names_text())[i]),
                ),
    {
        let parts = match &self.sources {
            Some(text) => split_at_commas(text.as_str()),
            None => split_at_commas(DEFAULT_REFRESH_SOURCES),
        };
        let ghost pieces = split_commas(self.names_text());
        let n: usize = parts.len();
        assert(texts(parts@).len() == n);
        let mut targets: Vec<RefreshTarget> = Vec::new();
        let mut i: usize = 0;
        while i < n
            invariant
                n == parts@.len(),
                i <= n,
                texts(parts@) == pieces,
                targets@.len() == i,
                forall|k: int|
                    0 <= k < i ==> target_of_name(#[trigger] targets@[k], trim(pieces[k])),
            decreases n - i,
        {
            assert(texts(parts@)[i as int] == parts@[i as int]@);
            let name = trimmed(parts[i].as_str());
            targets.push(refresh_target(name));
            i += 1;
        }
        targets
    }
}

/// The tags of the upstreams in a summary, in order.
pub open spec fn summary_tags() -> Seq<Seq<char>> {
    seq!["apod"@, "neo"@, "donki_flr"@, "donki_cme"@, "spacex"@]
}

/// Whether row `i` is the first row of `rows` with the tag `tag`.
pub open spec fn first_with_tag(rows: Seq<SpaceCache>, tag: Seq<char>, i: int) -> bool {
    &&& 0 <= i < rows.len()
    &&& rows[i].source@ == tag
    &&& forall|k: int| 0 <= k < i ==> rows[k].source@ != tag
}

/// Whether `entry` tells of the first row with the tag `tag`: a copy of the
/// row, or `None` where no row has the tag.
pub open spec fn tells_of(entry: (String, Option<SpaceCache>), rows: Seq<SpaceCache>, tag: Seq<char>) -> bool {
    &&& entry.0@ == tag
    &&& match entry.1 {
        Some(row) => exists|i: int| #[trigger] first_with_tag(rows, tag, i) && row == rows[i],
        None => forall|i: int| 0 <= i < rows.len() ==> rows[i].source@ != tag,
    }
}

fn find_tagged(rows: &Vec<SpaceCache>, tag: &str) -> (entry: (String, Option<SpaceCache>))
    ensures
        tells_of(entry, rows@, tag@),
{
    let wanted: String = tag.to_owned();
    let n: usize = rows.len();
    let mut i: usize = 0;
    while i < n
        invariant
            n == rows@.len(),
            i <= n,
            wanted@ == tag@,
            forall|k: int| 0 <= k < i ==> rows@[k].source@ != tag@,
        decreases n - i,
    {
        if rows[i].source == wanted {
            let row = SpaceCache {
                id: rows[i].id,
                source: rows[i].source.clone(),
                fetched_at: rows[i].fetched_at,
                payload: rows[i].payload.clone(),
            };
            assert(first_with_tag(rows@, tag@, i as int) && row == rows@[i as int]);
            return (wanted, Some(row));
        }
        i += 1;
    }
    (wanted, None)
}

/// The summary of the latest rows `all_latest`: for each upstream of the
/// summary its row, where there is one, and the number of rows in all.
pub fn space_summary(all_latest: &Vec<SpaceCache>) -> (summary: SpaceSummary)
    ensures
        summary.total == all_latest@.len(),
        summary.sources@.len() == SUMMARY_SOURCES,
        forall|i: int|
            0 <= i < summary.sources@.len() ==> tells_of(
                #[trigger] summary.sources@[i],
                all_latest@,
                summary_tags()[i],
            ),
{
    let mut sources: Vec<(String, Option<SpaceCache>)> = Vec::new();
    sources.push(find_tagged(all_latest, "apod"));
    sources.push(find_tagged(all_latest, "neo"));
    sources.push(find_tagged(all_latest, "donki_flr"));
    sources.push(find_tagged(all_latest, "donki_cme"));
    sources.push(find_tagged(all_latest, "spacex"));
    SpaceSummary { sources, total: all_latest.len() }
}

} // verus!
