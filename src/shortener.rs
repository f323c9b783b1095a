//! The shortener service's own logic: validating a request, building the
//! row to insert, and shaping rows into responses.
//!
//! Times are whole seconds since the Unix epoch.

use vstd::prelude::*;
use vstd::string::*;

use crate::mint::{
    base_code, candidate, codes_of, generate_short_code, long_url_bytes, minted_for, nth_candidate, sha256_of,
    MAX_INSERT_ATTEMPTS,
};
use crate::views::opt_str;

verus! {

/// Whether a string parses as an absolute URL.
pub uninterp spec fn parses_as_url(s: Seq<char>) -> bool;

/// Relies on `url::Url::parse`: whether the text parses as an absolute URL.
#[verifier::external_body]
fn url_parses(s: &str) -> (ok: bool)
    ensures
        ok == parses_as_url(s@),
{
    url::Url::parse(s).is_ok()
}

/// Whether `url` is an absolute URL.
pub fn is_valid_url(url: &str) -> (valid: bool)
    ensures
        valid == parses_as_url(url@),
{
    url_parses(url)
}

/// How long a mapping lives when its request names no expiry: thirty days.
pub const DEFAULT_LIFETIME_SECONDS: i64 = 2_592_000;

/// `t` plus the default lifetime, clamped to `i64`.
pub open spec fn default_expiry(t: i64) -> i64 {
    if t > i64::MAX - DEFAULT_LIFETIME_SECONDS {
        i64::MAX
    } else {
        (t + DEFAULT_LIFETIME_SECONDS) as i64
    }
}

/// Computes `t` plus the default lifetime, clamped to `i64`.
pub fn default_expiry_of(t: i64) -> (expiry: i64)
    ensures
        expiry == default_expiry(t),
{
    if t > i64::MAX - DEFAULT_LIFETIME_SECONDS {
        i64::MAX
    } else {
        t + DEFAULT_LIFETIME_SECONDS
    }
}

/// A row of `url_mapping`.
pub struct UrlMappingModel {
    pub short_url: String,
    pub alias: Option<String>,
    pub long_url: String,
    pub creation_date: i64,
    pub expiration_date: Option<i64>,
    pub user_id: Option<i32>,
    pub click_count: i32,
}

/// The body of `POST /shorten`.
pub struct ShortenRequest {
    pub long_url: String,
    pub custom_alias: Option<String>,
    pub expiration_time: Option<i64>,
    pub user_id: Option<i32>,
}

/// Why a shortening request was refused.
#[derive(PartialEq, Eq, Structural, Debug)]
pub enum ShortenError {
    /// The long URL is not an absolute URL.
    InvalidUrl,
}

/// `row` is the new row for `request` under `short_code`, created at `now`:
/// the request's alias and owner, its expiry or thirty days on, no clicks.
pub open spec fn is_new_row(request: ShortenRequest, short_code: Seq<char>, now: i64, row: UrlMappingModel) -> bool {
    &&& row.short_url@ == short_code
    &&& opt_str(row.alias) == opt_str(request.custom_alias)
    &&& row.long_url@ == request.long_url@
    &&& row.creation_date == now
    &&& row.expiration_date == Some(
        match request.expiration_time {
            Some(t) => t,
            None => default_expiry(now),
        },
    )
    &&& row.user_id == request.user_id
    &&& row.click_count == 0
}

/// Builds the row for `request` under `short_code`, created at `now`.
pub fn mapping_for(request: &ShortenRequest, short_code: String, now: i64) -> (row: UrlMappingModel)
    ensures
        is_new_row(*request, short_code@, now, row),
{
    let expiry = match request.expiration_time {
        Some(t) => t,
        None => default_expiry_of(now),
    };
    let alias = match &request.custom_alias {
        Some(a) => Some(a.clone()),
        None => None,
    };
    UrlMappingModel {
        short_url: short_code,
        alias,
        long_url: request.long_url.clone(),
        creation_date: now,
        expiration_date: Some(expiry),
        user_id: request.user_id,
        click_count: 0,
    }
}

/// Plans a shortening at time `now`: refuses a long URL that is not
/// absolute, otherwise mints a code that `existing_short_codes` lacks and
/// builds the row to insert.
pub fn plan_shorten(request: &ShortenRequest, existing_short_codes: &Vec<String>, now: i64) -> (planned: Result<
    UrlMappingModel,
    ShortenError,
>)
    ensures
        !parses_as_url(request.long_url@) ==> planned == Err::<UrlMappingModel, ShortenError>(
            ShortenError::InvalidUrl,
        ),
        parses_as_url(request.long_url@) ==> (planned matches Ok(row) && minted_for(
            request.long_url@,
            codes_of(existing_short_codes@),
            row.short_url@,
        ) && is_new_row(*request, row.short_url@, now, row)),
{
    if !is_valid_url(request.long_url.as_str()) {
        return Err(ShortenError::InvalidUrl);
    }
    let code = generate_short_code(request.long_url.as_str(), existing_short_codes);
    Ok(mapping_for(request, code, now))
}

/// Plans insert attempt `attempt` (counted from 0) of a shortening at time
/// `now`: refuses a long URL that is not absolute; once the attempts are
/// used up gives `None`; otherwise builds the row under the attempt's
/// candidate code. The caller inserts it and, on a conflict with a taken
/// code, plans the next attempt.
pub fn plan_shorten_attempt(request: &ShortenRequest, attempt: u32, now: i64) -> (planned: Result<
    Option<UrlMappingModel>,
    ShortenError,
>)
    ensures
        !parses_as_url(request.long_url@) ==> planned == Err::<Option<UrlMappingModel>, ShortenError>(
            ShortenError::InvalidUrl,
        ),
        parses_as_url(request.long_url@) && attempt >= MAX_INSERT_ATTEMPTS ==> planned matches Ok(None),
        parses_as_url(request.long_url@) && attempt < MAX_INSERT_ATTEMPTS ==> (planned matches Ok(Some(row))
            && row.short_url@ == candidate(base_code(sha256_of(long_url_bytes(request.long_url@))), attempt as nat)
            && is_new_row(*request, row.short_url@, now, row)),
{
    if !is_valid_url(request.long_url.as_str()) {
        return Err(ShortenError::InvalidUrl);
    }
    match nth_candidate(request.long_url.as_str(), attempt) {
        None => Ok(None),
        Some(code) => Ok(Some(mapping_for(request, code, now))),
    }
}

/// Where the redirector serves a code.
pub open spec fn redirector_url_of(code: Seq<char>) -> Seq<char> {
    "http://localhost:8081/"@ + code
}

/// Where the shortener names a code in its listings.
pub open spec fn listing_url_of(code: Seq<char>) -> Seq<char> {
    "http://localhost:8080/"@ + code
}

fn prefixed(prefix: &str, code: &String) -> (url: String)
    ensures
        url@ == prefix@ + code@,
{
    let mut url = String::from_str(prefix);
    url.append(code.as_str());
    url
}

/// The shortener's answer for a new mapping.
pub struct ShortenResponse {
    pub short_code: String,
    pub short_url: String,
    pub expiration_time: i64,
    pub created_at: i64,
}

/// The expiry a row stands for: its own, or thirty days after creation.
pub open spec fn expiry_of_row(row: UrlMappingModel) -> i64 {
    match row.expiration_date {
        Some(t) => t,
        None => default_expiry(row.creation_date),
    }
}

/// The answer to `POST /shorten` for the row just inserted: its code, where
/// the redirector serves it, and its creation and expiry.
pub fn created_response(row: &UrlMappingModel) -> (response: ShortenResponse)
    ensures
        response.short_code@ == row.short_url@,
        response.short_url@ == redirector_url_of(row.short_url@),
        response.created_at == row.creation_date,
        response.expiration_time == expiry_of_row(*row),
{
    let expiration_time = match row.expiration_date {
        Some(t) => t,
        None => default_expiry_of(row.creation_date),
    };
    ShortenResponse {
        short_code: row.short_url.clone(),
        short_url: prefixed("http://localhost:8081/", &row.short_url),
        expiration_time,
        created_at: row.creation_date,
    }
}

/// A row shaped as a shortening answer: the short URL names the alias when
/// there is one, else the code.
pub open spec fn response_of_row(row: UrlMappingModel) -> ShortenResponseView {
    ShortenResponseView {
        short_code: row.short_url@,
        short_url: listing_url_of(
            match row.alias {
                Some(a) => a@,
                None => row.short_url@,
            },
        ),
        expiration_time: expiry_of_row(row),
        created_at: row.creation_date,
    }
}

/// A shortening answer, as values.
pub struct ShortenResponseView {
    pub short_code: Seq<char>,
    pub short_url: Seq<char>,
    pub expiration_time: i64,
    pub created_at: i64,
}

impl View for ShortenResponse {
    type V = ShortenResponseView;

    open spec fn view(&self) -> ShortenResponseView {
        ShortenResponseView {
            short_code: self.short_code@,
            short_url: self.short_url@,
            expiration_time: self.expiration_time,
            created_at: self.created_at,
        }
    }
}

impl From<UrlMappingModel> for ShortenResponse {
    fn from(mapping: UrlMappingModel) -> (response: ShortenResponse)
        ensures
            response@ == response_of_row(mapping),
    {
        let target = match &mapping.alias {
            Some(a) => a.clone(),
            None => mapping.short_url.clone(),
        };
        let expiration_time = match mapping.expiration_date {
            Some(t) => t,
            None => default_expiry_of(mapping.creation_date),
        };
        ShortenResponse {
            short_code: mapping.short_url,
            short_url: prefixed("http://localhost:8080/", &target),
            expiration_time,
            created_at: mapping.creation_date,
        }
    }
}

impl vstd::std_specs::convert::FromSpecImpl<UrlMappingModel> for ShortenResponse {
    open spec fn obeys_from_spec() -> bool {
        false
    }

    open spec fn from_spec(mapping: UrlMappingModel) -> ShortenResponse {
        arbitrary()
    }
}

/// One mapping in a user's listing.
pub struct UrlInfoResponse {
    pub short_code: String,
    pub short_url: String,
    pub long_url: String,
    pub alias: Option<String>,
    pub creation_date: i64,
    pub expiration_date: Option<i64>,
    pub click_count: i32,
}

/// A row shaped as a listing entry.
pub open spec fn info_of_row(row: UrlMappingModel, info: UrlInfoResponse) -> bool {
    &&& info.short_code@ == row.short_url@
    &&& info.short_url@ == listing_url_of(row.short_url@)
    &&& info.long_url@ == row.long_url@
    &&& opt_str(info.alias) == opt_str(row.alias)
    &&& info.creation_date == row.creation_date
    &&& info.expiration_date == row.expiration_date
    &&& info.click_count == row.click_count
}

impl From<UrlMappingModel> for UrlInfoResponse {
    fn from(mapping: UrlMappingModel) -> (info: UrlInfoResponse)
        ensures
            info_of_row(mapping, info),
    {
        let short_url = prefixed("http://localhost:8080/", &mapping.short_url);
        UrlInfoResponse {
            short_code: mapping.short_url,
            short_url,
            long_url: mapping.long_url,
            alias: mapping.alias,
            creation_date: mapping.creation_date,
            expiration_date: mapping.expiration_date,
            click_count: mapping.click_count,
        }
    }
}

impl vstd::std_specs::convert::FromSpecImpl<UrlMappingModel> for UrlInfoResponse {
    open spec fn obeys_from_spec() -> bool {
        false
    }

    open spec fn from_spec(mapping: UrlMappingModel) -> UrlInfoResponse {
        arbitrary()
    }
}

/// A user's listing: each of their rows, in order, as an entry.
pub fn listing_for(rows: Vec<UrlMappingModel>) -> (listing: Vec<UrlInfoResponse>)
    ensures
        listing@.len() == rows@.len(),
        forall|i: int| 0 <= i < rows@.len() ==> info_of_row(#[trigger] rows@[i], listing@[i]),
{
    let ghost all = rows@;
    let mut rest = rows;
    let mut listing: Vec<UrlInfoResponse> = Vec::new();
    while rest.len() > 0
        invariant
            listing@.len() + rest@.len() == all.len(),
            forall|i: int| 0 <= i < listing@.len() ==> info_of_row(#[trigger] all[i], listing@[i]),
            rest@ == all.subrange(listing@.len() as int, all.len() as int),
        decreases rest@.len(),
    {
        let row = rest.remove(0);
        listing.push(UrlInfoResponse::from(row));
    }
    listing
}

/// An account to create.
pub struct NewUser {
    pub email: String,
    pub password_hash: String,
}

/// The accounts seeded into an empty store.
pub fn seed_users() -> (users: Vec<NewUser>)
    ensures
        users@.len() == 2,
        users@[0].email@ == "alice@example.com"@,
        users@[0].password_hash@ == "hashedpassword1"@,
        users@[1].email@ == "bob@example.com"@,
        users@[1].password_hash@ == "hashedpassword2"@,
{
    let mut users: Vec<NewUser> = Vec::new();
    users.push(
        NewUser {
            email: String::from_str("alice@example.com"),
            password_hash: String::from_str("hashedpassword1"),
        },
    );
    users.push(
        NewUser { email: String::from_str("bob@example.com"), password_hash: String::from_str("hashedpassword2") },
    );
    users
}

/// `row` is a seeded mapping with these parts, created at `now`, with no
/// expiry and no clicks.
pub open spec fn is_seed_row(
    row: UrlMappingModel,
    code: Seq<char>,
    alias: Option<Seq<char>>,
    long_url: Seq<char>,
    user_id: Option<i32>,
    now: i64,
) -> bool {
    &&& row.short_url@ == code
    &&& opt_str(row.alias) == alias
    &&& row.long_url@ == long_url
    &&& row.creation_date == now
    &&& row.expiration_date is None
    &&& row.user_id == user_id
    &&& row.click_count == 0
}

/// The mappings seeded into an empty store at time `now`.
pub fn seed_mappings(now: i64) -> (rows: Vec<UrlMappingModel>)
    ensures
        rows@.len() == 3,
        is_seed_row(rows@[0], "abc123"@, Some("example"@), "https://example.com"@, Some(1i32), now),
        is_seed_row(rows@[1], "xyz789"@, Some("rust"@), "https://rust-lang.org"@, Some(2i32), now),
        is_seed_row(rows@[2], "free456"@, None, "https://opensource.org"@, None, now),
{
    let mut rows: Vec<UrlMappingModel> = Vec::new();
    rows.push(
        UrlMappingModel {
            short_url: String::from_str("abc123"),
            alias: Some(String::from_str("example")),
            long_url: String::from_str("https://example.com"),
            creation_date: now,
            expiration_date: None,
            user_id: Some(1),
            click_count: 0,
        },
    );
    rows.push(
        UrlMappingModel {
            short_url: String::from_str("xyz789"),
            alias: Some(String::from_str("rust")),
            long_url: String::from_str("https://rust-lang.org"),
            creation_date: now,
            expiration_date: None,
            user_id: Some(2),
            click_count: 0,
        },
    );
    rows.push(
        UrlMappingModel {
            short_url: String::from_str("free456"),
            alias: None,
            long_url: String::from_str("https://opensource.org"),
            creation_date: now,
            expiration_date: None,
            user_id: None,
            click_count: 0,
        },
    );
    rows
}

} // verus!
