//! Deterministic short-code minting with collision resolution.
//!
//! A long URL is hashed with SHA-256; the first six bytes of the digest are
//! folded into an integer whose Base62 numeral is the first candidate code.
//! While a candidate is already taken, the Base62 numeral of a counter
//! (1, 2, ...) is appended to it.

use sha2::Digest;
use vstd::prelude::*;

use crate::base62::{base62_encode, base62_of, is_base62, lemma_base62_of_is_base62, lemma_concat_is_base62};

verus! {

/// The SHA-256 digest of a byte string.
pub uninterp spec fn sha256_of(data: Seq<u8>) -> Seq<u8>;

/// Relies on `sha2::Sha256::digest`: the digest depends on the bytes alone
/// and is 32 bytes long (`Sha256` has output size `U32`).
#[verifier::external_body]
fn sha256(data: &[u8]) -> (digest: Vec<u8>)
    ensures
        digest@ == sha256_of(data@),
        digest@.len() == 32,
{
    sha2::Sha256::digest(data).to_vec()
}

/// The fold of the first six digest bytes: bytes 0..4 read as a big-endian
/// 32-bit number, plus bytes 4..6 read as the upper half of a big-endian
/// 32-bit number.
pub open spec fn fold_digest(d: Seq<u8>) -> nat
    recommends
        d.len() >= 6,
{
    ((d[0] as nat) * 0x100_0000 + (d[1] as nat) * 0x1_0000 + (d[2] as nat) * 0x100 + (d[3] as nat))
        + ((d[4] as nat) * 0x100_0000 + (d[5] as nat) * 0x1_0000)
}

/// The first candidate code for a digest.
pub open spec fn base_code(d: Seq<u8>) -> Seq<char>
    recommends
        d.len() >= 6,
{
    base62_of(fold_digest(d))
}

/// The `k`-th candidate: the base code followed by the numerals of 1..=k.
pub open spec fn candidate(base: Seq<char>, k: nat) -> Seq<char>
    decreases k,
{
    if k == 0 {
        base
    } else {
        candidate(base, (k - 1) as nat) + base62_of(k)
    }
}

/// The codes held by a list of strings.
pub open spec fn codes_of(existing: Seq<String>) -> Set<Seq<char>> {
    existing.map_values(|s: String| s@).to_set()
}

/// `code` is the first candidate built on `base` that `existing` lacks.
pub open spec fn is_minted(base: Seq<char>, existing: Set<Seq<char>>, code: Seq<char>) -> bool {
    exists|k: nat|
        {
            &&& code == #[trigger] candidate(base, k)
            &&& !existing.contains(code)
            &&& forall|j: nat| j < k ==> existing.contains(#[trigger] candidate(base, j))
        }
}

/// The code minted for a long URL, given the codes already taken.
pub open spec fn minted_for(long_url: Seq<char>, existing: Set<Seq<char>>, code: Seq<char>) -> bool {
    is_minted(base_code(sha256_of(long_url_bytes(long_url))), existing, code)
}

/// The UTF-8 bytes of a string.
pub open spec fn long_url_bytes(s: Seq<char>) -> Seq<u8> {
    vstd::utf8::encode_utf8(s)
}

/// Each candidate is longer than the one before.
proof fn lemma_candidate_grows(base: Seq<char>, k: nat)
    ensures
        candidate(base, k).len() < candidate(base, k + 1).len(),
{
    lemma_base62_of_is_base62(k + 1);
}

/// Every candidate built on a Base62 base is a Base62 string.
proof fn lemma_candidate_is_base62(base: Seq<char>, k: nat)
    requires
        is_base62(base),
    ensures
        is_base62(candidate(base, k)),
    decreases k,
{
    if k > 0 {
        lemma_candidate_is_base62(base, (k - 1) as nat);
        lemma_base62_of_is_base62(k);
        lemma_concat_is_base62(candidate(base, (k - 1) as nat), base62_of(k));
    }
}

/// At most one code is minted for a base and a set of taken codes.
proof fn lemma_minted_unique(base: Seq<char>, existing: Set<Seq<char>>, a: Seq<char>, b: Seq<char>)
    requires
        is_minted(base, existing, a),
        is_minted(base, existing, b),
    ensures
        a == b,
{
    let ka = choose|k: nat|
        {
            &&& a == #[trigger] candidate(base, k)
            &&& !existing.contains(a)
            &&& forall|j: nat| j < k ==> existing.contains(#[trigger] candidate(base, j))
        };
    let kb = choose|k: nat|
        {
            &&& b == #[trigger] candidate(base, k)
            &&& !existing.contains(b)
            &&& forall|j: nat| j < k ==> existing.contains(#[trigger] candidate(base, j))
        };
    if ka < kb {
        assert(existing.contains(candidate(base, ka)));
    } else if kb < ka {
        assert(existing.contains(candidate(base, kb)));
    }
}

/// Minting is deterministic: with no code taken, every mint of the same long
/// URL gives the same code, the Base62 numeral of the folded digest.
pub proof fn lemma_mint_deterministic(long_url: Seq<char>, first: Seq<char>, second: Seq<char>)
    requires
        minted_for(long_url, Set::empty(), first),
        minted_for(long_url, Set::empty(), second),
    ensures
        first == second,
        first == base_code(sha256_of(long_url_bytes(long_url))),
{
    let base = base_code(sha256_of(long_url_bytes(long_url)));
    lemma_minted_unique(base, Set::empty(), first, second);
    assert(is_minted(base, Set::empty(), base)) by {
        assert(base == candidate(base, 0));
    }
    lemma_minted_unique(base, Set::empty(), first, base);
}

/// Collisions are resolved: when the code a long URL would first get is
/// already taken, the minted code is a Base62 string that is not taken
/// (and so differs from that first code).
pub proof fn lemma_collision_resolved(long_url: Seq<char>, existing: Set<Seq<char>>, code: Seq<char>)
    requires
        existing.contains(base_code(sha256_of(long_url_bytes(long_url)))),
        minted_for(long_url, existing, code),
    ensures
        !existing.contains(code),
        is_base62(code),
        code != base_code(sha256_of(long_url_bytes(long_url))),
{
    let base = base_code(sha256_of(long_url_bytes(long_url)));
    let k = choose|k: nat|
        {
            &&& code == #[trigger] candidate(base, k)
            &&& !existing.contains(code)
            &&& forall|j: nat| j < k ==> existing.contains(#[trigger] candidate(base, j))
        };
    lemma_base62_of_is_base62(fold_digest(sha256_of(long_url_bytes(long_url))));
    lemma_candidate_is_base62(base, k);
}

/// Whether `code` occurs among `existing`.
fn contains_code(existing: &Vec<String>, code: &String) -> (found: bool)
    ensures
        found == codes_of(existing@).contains(code@),
{
    let ghost views = existing@.map_values(|s: String| s@);
    let mut i: usize = 0;
    while i < existing.len()
        invariant
            i <= existing.len(),
            views == existing@.map_values(|s: String| s@),
            forall|j: int| 0 <= j < i ==> views[j] != code@,
        decreases existing.len() - i,
    {
        if existing[i] == *code {
            assert(views[i as int] == code@);
            assert(views.contains(code@));
            return true;
        }
        i = i + 1;
    }
    assert(!views.contains(code@));
    false
}

/// Folds the first six bytes of a digest.
fn fold_of(digest: &[u8]) -> (num: u64)
    requires
        digest@.len() >= 6,
    ensures
        num == fold_digest(digest@),
{
    ((digest[0] as u64) * 0x100_0000 + (digest[1] as u64) * 0x1_0000 + (digest[2] as u64) * 0x100
        + (digest[3] as u64)) + ((digest[4] as u64) * 0x100_0000 + (digest[5] as u64) * 0x1_0000)
}

/// How many codes an insert is tried with before shortening gives up.
pub const MAX_INSERT_ATTEMPTS: u32 = 8;

/// The code for insert attempt `attempt` (counted from 0) on a digest: the
/// `attempt`-th candidate built on the digest's base code.
pub fn candidate_from_digest(digest: &[u8], attempt: u32) -> (code: String)
    requires
        digest@.len() >= 6,
    ensures
        code@ == candidate(base_code(digest@), attempt as nat),
{
    let ghost base = base_code(digest@);
    let mut code = base62_encode(fold_of(digest));
    let mut k: u32 = 0;
    while k < attempt
        invariant
            k <= attempt,
            code@ == candidate(base, k as nat),
        decreases attempt - k,
    {
        k = k + 1;
        let suffix = base62_encode(k as u64);
        code.append(suffix.as_str());
    }
    code
}

/// The code for insert attempt `attempt` (counted from 0) on `long_url`:
/// the `attempt`-th candidate, or `None` once the attempts are used up.
/// Retrying the insert with the next attempt after each conflict mints, in
/// the store, the code that a scan of the taken codes would.
pub fn nth_candidate(long_url: &str, attempt: u32) -> (code: Option<String>)
    ensures
        attempt < MAX_INSERT_ATTEMPTS ==> (code matches Some(c) && c@ == candidate(
            base_code(sha256_of(long_url_bytes(long_url@))),
            attempt as nat,
        )),
        attempt >= MAX_INSERT_ATTEMPTS ==> code is None,
{
    if attempt >= MAX_INSERT_ATTEMPTS {
        return None;
    }
    let digest = sha256(long_url.as_bytes());
    Some(candidate_from_digest(&digest, attempt))
}

/// Minting by retrying on conflicts agrees with minting by scanning: when
/// the candidates of the attempts before `attempt` were all taken and its
/// own is free, its candidate is the code minted for the long URL.
pub proof fn lemma_retry_agrees_with_scan(long_url: Seq<char>, existing: Set<Seq<char>>, attempt: nat)
    requires
        forall|j: nat|
            j < attempt ==> existing.contains(
                #[trigger] candidate(base_code(sha256_of(long_url_bytes(long_url))), j),
            ),
        !existing.contains(candidate(base_code(sha256_of(long_url_bytes(long_url))), attempt)),
    ensures
        minted_for(long_url, existing, candidate(base_code(sha256_of(long_url_bytes(long_url))), attempt)),
{
}

/// Mints the short code for a digest: the first candidate built on the
/// digest's base code that `existing_short_codes` lacks.
pub fn short_code_from_digest(digest: &[u8], existing_short_codes: &Vec<String>) -> (code: String)
    requires
        digest@.len() >= 6,
    ensures
        is_minted(base_code(digest@), codes_of(existing_short_codes@), code@),
{
    let num = fold_of(digest);
    let ghost base = base_code(digest@);
    let ghost existing = codes_of(existing_short_codes@);
    let mut code = base62_encode(num);
    let mut k: u64 = 0;
    let ghost mut seen: Set<Seq<char>> = Set::empty();
    let count: usize = existing_short_codes.len();
    proof {
        existing_short_codes@.map_values(|s: String| s@).lemma_cardinality_of_set();
    }
    while contains_code(existing_short_codes, &code)
        invariant
            code@ == candidate(base, k as nat),
            existing == codes_of(existing_short_codes@),
            existing.len() <= count,
            count == existing_short_codes@.len(),
            existing.finite(),
            seen.finite(),
            seen.len() == k,
            seen.subset_of(existing),
            forall|s: Seq<char>| seen.contains(s) ==> s.len() < code@.len(),
            forall|j: nat| j < k ==> existing.contains(#[trigger] candidate(base, j)),
        decreases existing.len() - seen.len(),
    {
        proof {
            assert(!seen.contains(code@));
            seen = seen.insert(code@);
            vstd::set_lib::lemma_len_subset(seen, existing);
            assert(seen.len() == k + 1);
            lemma_candidate_grows(base, k as nat);
        }
        let ghost old_code = code@;
        let ghost old_k = k;
        k = k + 1;
        let suffix = base62_encode(k);
        code.append(suffix.as_str());
        assert(code@ == candidate(base, k as nat));
        assert forall|j: nat| j < k implies existing.contains(#[trigger] candidate(base, j)) by {
            if j == old_k {
                assert(candidate(base, j) == old_code);
            }
        }
    }
    code
}

/// Mints the short code for `long_url`: SHA-256 of its UTF-8 bytes, folded
/// and Base62-encoded, then extended with a counter numeral until it is not
/// among `existing_short_codes`.
pub fn generate_short_code(long_url: &str, existing_short_codes: &Vec<String>) -> (code: String)
    ensures
        minted_for(long_url@, codes_of(existing_short_codes@), code@),
{
    let digest = sha256(long_url.as_bytes());
    short_code_from_digest(&digest, existing_short_codes)
}

} // verus!
