//! The `url_queue` protocol between shortener and redirector, and the cache
//! writes it drives.
//!
//! A message is the UTF-8 text `{short_code}:{long_url}`. Short codes are
//! Base62 and hold no colon, so the code is the text before the first colon
//! and the long URL is all that follows it (a URL has colons of its own). A
//! message that is not UTF-8 or has no colon is malformed: it is
//! acknowledged and dropped. Every well-formed message becomes one write of
//! `short_code -> long_url` with a TTL of one hour.

use vstd::prelude::*;
use vstd::string::*;
use vstd::utf8::{decode_utf8, valid_utf8};

verus! {

/// The name of the durable queue that carries create-events.
pub const QUEUE_NAME: &'static str = "url_queue";

/// How long a cache entry lives, in seconds.
pub const CACHE_TTL_SECONDS: u64 = 3600;

/// The message that announces `short_code -> long_url`.
pub open spec fn payload_of(short_code: Seq<char>, long_url: Seq<char>) -> Seq<char> {
    short_code + seq![':'] + long_url
}

/// Formats the message that announces `short_code -> long_url`.
pub fn bus_payload(short_code: &str, long_url: &str) -> (payload: String)
    ensures
        payload@ == payload_of(short_code@, long_url@),
{
    let colon = ":";
    proof {
        reveal_strlit(":");
    }
    let mut payload = String::from_str(short_code);
    payload.append(colon);
    payload.append(long_url);
    assert(colon@ =~= seq![':']);
    payload
}

/// `i` is the position of the first colon of `s`.
pub open spec fn is_first_colon(s: Seq<char>, i: int) -> bool {
    &&& 0 <= i < s.len()
    &&& s[i] == ':'
    &&& forall|j: int| 0 <= j < i ==> s[j] != ':'
}

/// A message split at its first colon; `None` when it has none.
pub open spec fn split_message(s: Seq<char>) -> Option<(Seq<char>, Seq<char>)> {
    if exists|i: int| is_first_colon(s, i) {
        let i = choose|i: int| is_first_colon(s, i);
        Some((s.subrange(0, i), s.subrange(i + 1, s.len() as int)))
    } else {
        None
    }
}

proof fn lemma_first_colon_unique(s: Seq<char>, i: int, k: int)
    requires
        is_first_colon(s, i),
        is_first_colon(s, k),
    ensures
        i == k,
{
    if i < k {
        assert(s[i] != ':');
    } else if k < i {
        assert(s[k] != ':');
    }
}

/// The view of a split message.
pub open spec fn pair_view(p: Option<(String, String)>) -> Option<(Seq<char>, Seq<char>)> {
    match p {
        Some((a, b)) => Some((a@, b@)),
        None => None,
    }
}

/// Splits a message into short code and long URL at its first colon.
pub fn parse_bus_message(msg: &str) -> (parts: Option<(String, String)>)
    ensures
        pair_view(parts) == split_message(msg@),
{
    let n = msg.unicode_len();
    let mut i: usize = 0;
    while i < n
        invariant
            n == msg@.len(),
            i <= n,
            forall|j: int| 0 <= j < i ==> msg@[j] != ':',
        decreases n - i,
    {
        if msg.get_char(i) == ':' {
            proof {
                assert(is_first_colon(msg@, i as int));
                let k = choose|k: int| is_first_colon(msg@, k);
                lemma_first_colon_unique(msg@, i as int, k);
            }
            let code = String::from_str(msg.substring_char(0, i));
            let url = String::from_str(msg.substring_char(i + 1, n));
            return Some((code, url));
        }
        i = i + 1;
    }
    assert(!exists|k: int| is_first_colon(msg@, k));
    None
}

/// A message formatted from a colon-free short code splits back into its
/// short code and long URL.
pub proof fn lemma_payload_round_trip(short_code: Seq<char>, long_url: Seq<char>)
    requires
        forall|j: int| 0 <= j < short_code.len() ==> short_code[j] != ':',
    ensures
        split_message(payload_of(short_code, long_url)) == Some((short_code, long_url)),
{
    let s = payload_of(short_code, long_url);
    let i = short_code.len() as int;
    assert(is_first_colon(s, i));
    let k = choose|k: int| is_first_colon(s, k);
    lemma_first_colon_unique(s, i, k);
    assert(s.subrange(0, i) =~= short_code);
    assert(s.subrange(i + 1, s.len() as int) =~= long_url);
}

/// Relies on `String::from_utf8`: the text, exactly when the bytes are valid
/// UTF-8.
#[verifier::external_body]
fn utf8_text(bytes: Vec<u8>) -> (text: Option<String>)
    ensures
        match text {
            Some(t) => valid_utf8(bytes@) && t@ == decode_utf8(bytes@),
            None => !valid_utf8(bytes@),
        },
{
    String::from_utf8(bytes).ok()
}

/// A write of `key -> value` that expires after `ttl_seconds`.
pub struct CacheWrite {
    pub key: String,
    pub value: String,
    pub ttl_seconds: u64,
}

/// The write a delivery's bytes call for: its code and URL, when the bytes
/// are a well-formed message.
pub open spec fn delivery_write(data: Seq<u8>) -> Option<(Seq<char>, Seq<char>)> {
    if valid_utf8(data) {
        split_message(decode_utf8(data))
    } else {
        None
    }
}

/// The view of a planned write: key and value.
pub open spec fn write_view(w: Option<CacheWrite>) -> Option<(Seq<char>, Seq<char>)> {
    match w {
        Some(c) => Some((c.key@, c.value@)),
        None => None,
    }
}

/// Decides what a delivery on the queue does to the cache. The delivery is
/// acknowledged whatever this returns; `None` drops it.
pub fn on_bus_delivery(data: Vec<u8>) -> (write: Option<CacheWrite>)
    ensures
        write_view(write) == delivery_write(data@),
        write matches Some(w) ==> w.ttl_seconds == CACHE_TTL_SECONDS,
{
    match utf8_text(data) {
        None => None,
        Some(text) => match parse_bus_message(text.as_str()) {
            Some((key, value)) => Some(CacheWrite { key, value, ttl_seconds: CACHE_TTL_SECONDS }),
            None => None,
        },
    }
}

/// A key-value cache entry: a value and the time it expires.
pub struct KvEntry {
    pub value: Seq<char>,
    pub expires_at: int,
}

/// The cache after `SETEX key ttl value` at time `now`.
pub open spec fn set_ex(
    store: Map<Seq<char>, KvEntry>,
    key: Seq<char>,
    value: Seq<char>,
    ttl: int,
    now: int,
) -> Map<Seq<char>, KvEntry> {
    store.insert(key, KvEntry { value, expires_at: now + ttl })
}

/// The cache after a delivery of `data` at time `now`.
pub open spec fn after_delivery(store: Map<Seq<char>, KvEntry>, data: Seq<u8>, now: int) -> Map<
    Seq<char>,
    KvEntry,
> {
    match delivery_write(data) {
        Some((key, value)) => set_ex(store, key, value, CACHE_TTL_SECONDS as int, now),
        None => store,
    }
}

/// What the cache maps each key to, leaving expiry aside.
pub open spec fn values_of(store: Map<Seq<char>, KvEntry>) -> Map<Seq<char>, Seq<char>> {
    Map::new(|k: Seq<char>| store.contains_key(k), |k: Seq<char>| store[k].value)
}

/// Cache warming is idempotent: a message delivered twice leaves the cache
/// as one delivery does; at the same instant exactly so, and at any two
/// instants with the same values.
pub proof fn lemma_warming_idempotent(store: Map<Seq<char>, KvEntry>, data: Seq<u8>, first: int, second: int)
    ensures
        after_delivery(after_delivery(store, data, first), data, first) == after_delivery(store, data, first),
        values_of(after_delivery(after_delivery(store, data, first), data, second)) == values_of(
            after_delivery(store, data, first),
        ),
{
    let once = after_delivery(store, data, first);
    match delivery_write(data) {
        Some((key, value)) => {
            assert(after_delivery(once, data, first) =~= once);
            assert(values_of(after_delivery(once, data, second)) =~= values_of(once));
        },
        None => {
            assert(values_of(after_delivery(once, data, second)) =~= values_of(once));
        },
    }
}

} // verus!
