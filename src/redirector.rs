//! The redirector's resolution of a short code: cache, then database, then
//! not found.
//!
//! Every answer is JSON: `{short_url, alias, long_url}` with status 200 when
//! the code resolves (from the cache, with no alias, or from its row), and
//! `{error, message}` with 404 or 500 otherwise. A database hit is written
//! through to the cache for an hour.

use vstd::prelude::*;
use vstd::string::*;

use crate::bus::{set_ex, write_view, CacheWrite, KvEntry, CACHE_TTL_SECONDS};
use crate::mint::{base_code, lemma_collision_resolved, long_url_bytes, minted_for, sha256_of};
use crate::shortener::UrlMappingModel;
use crate::views::opt_str;

verus! {

/// A resolved code.
pub struct UrlResponse {
    pub short_url: String,
    pub alias: Option<String>,
    pub long_url: String,
}

/// The redirector's answer.
pub enum Resolution {
    /// 200 with the mapping.
    Url(UrlResponse),
    /// An error status with `{error, message}`.
    Error { status: u16, error: String, message: String },
}

/// `r` answers with this mapping.
pub open spec fn answers_url(r: Resolution, short_url: Seq<char>, alias: Option<Seq<char>>, long_url: Seq<char>) -> bool {
    r matches Resolution::Url(u) && u.short_url@ == short_url && opt_str(u.alias) == alias && u.long_url@
        == long_url
}

/// `r` answers with this error.
pub open spec fn answers_error(r: Resolution, status: u16, error: Seq<char>, message: Seq<char>) -> bool {
    r matches Resolution::Error { status: s, error: e, message: m } && s == status && e@ == error && m@ == message
}

/// Where resolution stands after the cache was asked.
pub enum ResolveStep {
    Answer(Resolution),
    QueryDatabase,
}

/// The answer owed for what the cache held: the cached URL under the code,
/// or a trip to the database.
pub open spec fn cache_step_ok(code: Seq<char>, cached: Option<Seq<char>>, step: ResolveStep) -> bool {
    match cached {
        Some(u) => step matches ResolveStep::Answer(r) && answers_url(r, code, None, u),
        None => step is QueryDatabase,
    }
}

/// First step: answer from the cache when it holds the code.
pub fn resolve_from_cache(code: &str, cached: Option<String>) -> (step: ResolveStep)
    ensures
        cache_step_ok(code@, opt_str(cached), step),
{
    match cached {
        Some(long_url) => ResolveStep::Answer(
            Resolution::Url(UrlResponse { short_url: String::from_str(code), alias: None, long_url }),
        ),
        None => ResolveStep::QueryDatabase,
    }
}

/// What the database gave for a code.
pub enum DbLookup {
    Found(UrlMappingModel),
    Missing,
    Failed,
}

/// The text of a not-found answer.
pub open spec fn not_found_message(code: Seq<char>) -> Seq<char> {
    "No URL found for short code: "@ + code
}

/// The answer and cache write owed for what the database gave.
pub open spec fn database_step_ok(code: Seq<char>, lookup: DbLookup, r: Resolution, write: Option<CacheWrite>) -> bool {
    match lookup {
        DbLookup::Found(row) => {
            &&& answers_url(r, row.short_url@, opt_str(row.alias), row.long_url@)
            &&& write_view(write) == Some((row.short_url@, row.long_url@))
            &&& write matches Some(w) && w.ttl_seconds == CACHE_TTL_SECONDS
        },
        DbLookup::Missing => answers_error(r, 404, "Not Found"@, not_found_message(code)) && write is None,
        DbLookup::Failed => answers_error(
            r,
            500,
            "Internal Server Error"@,
            "An error occurred while processing your request."@,
        ) && write is None,
    }
}

/// Second step, on a cache miss: answer from the database, and plan the
/// write-through of a hit.
pub fn resolve_from_database(code: &str, lookup: DbLookup) -> (answer: (Resolution, Option<CacheWrite>))
    ensures
        database_step_ok(code@, lookup, answer.0, answer.1),
{
    match lookup {
        DbLookup::Found(row) => {
            let write = CacheWrite {
                key: row.short_url.clone(),
                value: row.long_url.clone(),
                ttl_seconds: CACHE_TTL_SECONDS,
            };
            (Resolution::Url(UrlResponse { short_url: row.short_url, alias: row.alias, long_url: row.long_url }), Some(write))
        },
        DbLookup::Missing => {
            let mut message = String::from_str("No URL found for short code: ");
            message.append(code);
            (Resolution::Error { status: 404, error: String::from_str("Not Found"), message }, None)
        },
        DbLookup::Failed => (
            Resolution::Error {
                status: 500,
                error: String::from_str("Internal Server Error"),
                message: String::from_str("An error occurred while processing your request."),
            },
            None,
        ),
    }
}

/// The live value the cache holds for `key` at `now`.
pub open spec fn cache_get(store: Map<Seq<char>, KvEntry>, key: Seq<char>, now: int) -> Option<Seq<char>> {
    if store.contains_key(key) && store[key].expires_at > now {
        Some(store[key].value)
    } else {
        None
    }
}

/// A GET of `code` at `now` against the rows (code to long URL) and the
/// cache: the long URL answered, if any, and the cache afterwards.
pub open spec fn resolve(rows: Map<Seq<char>, Seq<char>>, store: Map<Seq<char>, KvEntry>, code: Seq<char>, now: int) -> (
    Option<Seq<char>>,
    Map<Seq<char>, KvEntry>,
) {
    match cache_get(store, code, now) {
        Some(u) => (Some(u), store),
        None => if rows.contains_key(code) {
            (Some(rows[code]), set_ex(store, code, rows[code], CACHE_TTL_SECONDS as int, now))
        } else {
            (None, store)
        },
    }
}

/// The cache agrees with the rows: every cached code is a row, with its
/// long URL.
pub open spec fn cache_agrees(rows: Map<Seq<char>, Seq<char>>, store: Map<Seq<char>, KvEntry>) -> bool {
    forall|k: Seq<char>| #[trigger] store.contains_key(k) ==> rows.contains_key(k) && store[k].value == rows[k]
}

/// The long URL an answer carries, if any.
pub open spec fn answered_url(r: Resolution) -> Option<Seq<char>> {
    match r {
        Resolution::Url(body) => Some(body.long_url@),
        Resolution::Error { .. } => None,
    }
}

/// The long URL a first step answers with, if it answers.
pub open spec fn step_url(step: ResolveStep) -> Option<Seq<char>> {
    match step {
        ResolveStep::Answer(r) => answered_url(r),
        ResolveStep::QueryDatabase => None,
    }
}

/// The two steps of a GET keep to `resolve`: a live cache entry is
/// answered from the cache; otherwise a row is answered from the database
/// and written through for an hour.
pub proof fn lemma_steps_follow_resolve(
    rows: Map<Seq<char>, Seq<char>>,
    store: Map<Seq<char>, KvEntry>,
    code: Seq<char>,
    now: int,
    step: ResolveStep,
    row: UrlMappingModel,
    r: Resolution,
    write: Option<CacheWrite>,
)
    requires
        cache_step_ok(code, cache_get(store, code, now), step),
        rows.contains_key(code) ==> row.short_url@ == code && row.long_url@ == rows[code],
        rows.contains_key(code) ==> database_step_ok(code, DbLookup::Found(row), r, write),
    ensures
        cache_get(store, code, now) is Some ==> step_url(step) == resolve(rows, store, code, now).0,
        cache_get(store, code, now) is None && rows.contains_key(code) ==> {
            &&& step is QueryDatabase
            &&& answered_url(r) == resolve(rows, store, code, now).0
            &&& write_view(write) == Some((code, rows[code]))
            &&& resolve(rows, store, code, now).1 == set_ex(store, code, rows[code], CACHE_TTL_SECONDS as int, now)
        },
{
}

/// Round trip: once a long URL is stored under the code minted for it, a
/// GET of that code answers with the long URL (reading the row once, when
/// the cache agreed with the rows before), and a GET within the hour after
/// answers with it from the cache.
pub proof fn lemma_round_trip(
    rows: Map<Seq<char>, Seq<char>>,
    store: Map<Seq<char>, KvEntry>,
    long_url: Seq<char>,
    code: Seq<char>,
    first: int,
    second: int,
)
    requires
        cache_agrees(rows, store),
        minted_for(long_url, rows.dom(), code),
        first <= second < first + CACHE_TTL_SECONDS,
    ensures
        cache_get(store, code, first) is None,
        resolve(rows.insert(code, long_url), store, code, first).0 == Some(long_url),
        cache_get(resolve(rows.insert(code, long_url), store, code, first).1, code, second) == Some(long_url),
        resolve(
            rows.insert(code, long_url),
            resolve(rows.insert(code, long_url), store, code, first).1,
            code,
            second,
        ).0 == Some(long_url),
{
    let base = crate::mint::base_code(crate::mint::sha256_of(crate::mint::long_url_bytes(long_url)));
    let k = choose|k: nat|
        {
            &&& code == #[trigger] crate::mint::candidate(base, k)
            &&& !rows.dom().contains(code)
            &&& forall|j: nat| j < k ==> rows.dom().contains(#[trigger] crate::mint::candidate(base, j))
        };
    assert(!store.contains_key(code));
}

/// Round trip after a collision: when the code a long URL would first get
/// is already a row, the code minted instead differs from it, and once
/// stored it resolves to the long URL, first from its row and then from the
/// cache.
pub proof fn lemma_collision_round_trip(
    rows: Map<Seq<char>, Seq<char>>,
    store: Map<Seq<char>, KvEntry>,
    long_url: Seq<char>,
    code: Seq<char>,
    first: int,
    second: int,
)
    requires
        cache_agrees(rows, store),
        rows.contains_key(base_code(sha256_of(long_url_bytes(long_url)))),
        minted_for(long_url, rows.dom(), code),
        first <= second < first + CACHE_TTL_SECONDS,
    ensures
        code != base_code(sha256_of(long_url_bytes(long_url))),
        !rows.contains_key(code),
        resolve(rows.insert(code, long_url), store, code, first).0 == Some(long_url),
        resolve(
            rows.insert(code, long_url),
            resolve(rows.insert(code, long_url), store, code, first).1,
            code,
            second,
        ).0 == Some(long_url),
{
    lemma_collision_resolved(long_url, rows.dom(), code);
    lemma_round_trip(rows, store, long_url, code, first, second);
}

} // verus!
