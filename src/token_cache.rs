//! The gateway's process-local token cache: token string to
//! `(user_id, expires_at, is_valid)`.
//!
//! A lookup yields an entry only while `expires_at > now` and the entry is
//! valid. Invalidation marks an entry invalid without removing it; a sweep
//! removes every entry that is expired or invalid.

use vstd::prelude::*;
use vstd::string::*;

use crate::clock::now_seconds;

verus! {

/// A cached token's identity and lifetime. `expires_at` is in seconds since
/// the Unix epoch.
pub struct TokenInfo {
    pub user_id: String,
    pub expires_at: i64,
    pub is_valid: bool,
}

/// What a cached entry holds, as values.
pub struct TokenRecord {
    pub user_id: Seq<char>,
    pub expires_at: i64,
    pub is_valid: bool,
}

impl View for TokenInfo {
    type V = TokenRecord;

    open spec fn view(&self) -> TokenRecord {
        TokenRecord { user_id: self.user_id@, expires_at: self.expires_at, is_valid: self.is_valid }
    }
}

/// The entries' views, when present.
pub open spec fn info_view(r: Option<TokenInfo>) -> Option<TokenRecord> {
    match r {
        Some(info) => Some(info@),
        None => None,
    }
}

/// An entry that a lookup at time `now` hands out.
pub open spec fn is_live(rec: TokenRecord, now: int) -> bool {
    rec.expires_at > now && rec.is_valid
}

/// What a lookup of `token` at time `now` yields.
pub open spec fn lookup(m: Map<Seq<char>, TokenRecord>, token: Seq<char>, now: int) -> Option<TokenRecord> {
    if m.contains_key(token) && is_live(m[token], now) {
        Some(m[token])
    } else {
        None
    }
}

/// The cache after storing a fresh, valid entry for `token`.
pub open spec fn stored(
    m: Map<Seq<char>, TokenRecord>,
    token: Seq<char>,
    user_id: Seq<char>,
    expires_at: i64,
) -> Map<Seq<char>, TokenRecord> {
    m.insert(token, TokenRecord { user_id, expires_at, is_valid: true })
}

/// The cache after invalidating `token`: its entry, if any, is kept and
/// marked invalid.
pub open spec fn invalidated(m: Map<Seq<char>, TokenRecord>, token: Seq<char>) -> Map<Seq<char>, TokenRecord> {
    if m.contains_key(token) {
        m.insert(token, TokenRecord { is_valid: false, ..m[token] })
    } else {
        m
    }
}

/// The cache after a sweep at time `now`: only live entries remain.
pub open spec fn swept(m: Map<Seq<char>, TokenRecord>, now: int) -> Map<Seq<char>, TokenRecord> {
    m.restrict(Set::new(|t: Seq<char>| m.contains_key(t) && is_live(m[t], now)))
}

/// A change made to the cache, as a value.
pub enum TokenOp {
    Store { token: Seq<char>, user_id: Seq<char>, expires_at: i64 },
    Invalidate { token: Seq<char> },
    Sweep { now: int },
}

/// The cache after one change.
pub open spec fn apply_op(m: Map<Seq<char>, TokenRecord>, op: TokenOp) -> Map<Seq<char>, TokenRecord> {
    match op {
        TokenOp::Store { token, user_id, expires_at } => stored(m, token, user_id, expires_at),
        TokenOp::Invalidate { token } => invalidated(m, token),
        TokenOp::Sweep { now } => swept(m, now),
    }
}

/// The cache after a series of changes, first to last.
pub open spec fn apply_ops(m: Map<Seq<char>, TokenRecord>, ops: Seq<TokenOp>) -> Map<Seq<char>, TokenRecord>
    decreases ops.len(),
{
    if ops.len() == 0 {
        m
    } else {
        apply_ops(apply_op(m, ops[0]), ops.drop_first())
    }
}

/// A change that stores an entry for `token`.
pub open spec fn stores(op: TokenOp, token: Seq<char>) -> bool {
    op matches TokenOp::Store { token: t, .. } && t == token
}

/// `token` has no valid entry.
pub open spec fn revoked(m: Map<Seq<char>, TokenRecord>, token: Seq<char>) -> bool {
    m.contains_key(token) ==> !m[token].is_valid
}

proof fn lemma_revoked_stays(m: Map<Seq<char>, TokenRecord>, token: Seq<char>, ops: Seq<TokenOp>)
    requires
        revoked(m, token),
        forall|i: int| 0 <= i < ops.len() ==> !stores(#[trigger] ops[i], token),
    ensures
        revoked(apply_ops(m, ops), token),
    decreases ops.len(),
{
    if ops.len() > 0 {
        assert(!stores(ops[0], token));
        let next = apply_op(m, ops[0]);
        assert(revoked(next, token));
        let rest = ops.drop_first();
        assert forall|i: int| 0 <= i < rest.len() implies !stores(#[trigger] rest[i], token) by {
            assert(rest[i] == ops[i + 1]);
        }
        lemma_revoked_stays(next, token, rest);
    }
}

/// Once a token is invalidated, no lookup of it yields an entry, whatever
/// stores of other tokens, invalidations and sweeps follow, until an entry is
/// stored for it again.
pub proof fn lemma_invalidation_monotonic(
    m: Map<Seq<char>, TokenRecord>,
    token: Seq<char>,
    ops: Seq<TokenOp>,
    now: int,
)
    requires
        forall|i: int| 0 <= i < ops.len() ==> !stores(#[trigger] ops[i], token),
    ensures
        lookup(apply_ops(invalidated(m, token), ops), token, now) is None,
{
    lemma_revoked_stays(invalidated(m, token), token, ops);
}

/// A lookup at or after an entry's expiry yields nothing, valid or not.
pub proof fn lemma_expired_is_absent(m: Map<Seq<char>, TokenRecord>, token: Seq<char>, now: int)
    requires
        m.contains_key(token),
        m[token].expires_at <= now,
    ensures
        lookup(m, token, now) is None,
{
}

struct TokenSlot {
    token: String,
    info: TokenInfo,
}

/// The token cache. Its view maps each cached token to its entry.
pub struct TokenCache {
    slots: Vec<TokenSlot>,
    model: Ghost<Map<Seq<char>, TokenRecord>>,
}

impl View for TokenCache {
    type V = Map<Seq<char>, TokenRecord>;

    closed spec fn view(&self) -> Map<Seq<char>, TokenRecord> {
        self.model@
    }
}

impl TokenCache {
    /// The slots hold each token once, and exactly the entries of the view.
    pub closed spec fn wf(&self) -> bool {
        &&& forall|i: int, j: int|
            0 <= i < j < self.slots@.len() ==> (#[trigger] self.slots@[i]).token@ != (#[trigger] self.slots@[j]).token@
        &&& forall|i: int|
            0 <= i < self.slots@.len() ==> self.model@.contains_key((#[trigger] self.slots@[i]).token@)
                && self.model@[self.slots@[i].token@] == self.slots@[i].info@
        &&& forall|t: Seq<char>|
            #[trigger] self.model@.contains_key(t) ==> exists|i: int|
                0 <= i < self.slots@.len() && (#[trigger] self.slots@[i]).token@ == t
    }

    /// An empty cache.
    pub fn new() -> (cache: Self)
        ensures
            cache.wf(),
            cache@ == Map::<Seq<char>, TokenRecord>::empty(),
    {
        TokenCache { slots: Vec::new(), model: Ghost(Map::empty()) }
    }

    /// The slot that holds `token`, if any.
    fn position(&self, token: &String) -> (pos: Option<usize>)
        requires
            self.wf(),
        ensures
            match pos {
                Some(i) => i < self.slots@.len() && self.slots@[i as int].token@ == token@,
                None => !self@.contains_key(token@),
            },
    {
        let mut i: usize = 0;
        while i < self.slots.len()
            invariant
                self.wf(),
                i <= self.slots@.len(),
                forall|j: int| 0 <= j < i ==> self.slots@[j].token@ != token@,
            decreases self.slots@.len() - i,
        {
            if self.slots[i].token == *token {
                return Some(i);
            }
            i = i + 1;
        }
        None
    }

    /// Stores a valid entry for `token`, replacing any entry it had.
    pub fn store_token(&mut self, token: &str, user_id: String, expires_at: i64)
        requires
            old(self).wf(),
        ensures
            final(self).wf(),
            final(self)@ == stored(old(self)@, token@, user_id@, expires_at),
    {
        let key = String::from_str(token);
        let info = TokenInfo { user_id, expires_at, is_valid: true };
        let ghost next = stored(self@, token@, info.user_id@, expires_at);
        match self.position(&key) {
            Some(i) => {
                self.slots.set(i, TokenSlot { token: key, info });
                self.model = Ghost(next);
                assert forall|t: Seq<char>| #[trigger] self.model@.contains_key(t) implies exists|j: int|
                    0 <= j < self.slots@.len() && #[trigger] self.slots@[j].token@ == t by {
                    if t != token@ {
                        let j = choose|j: int| 0 <= j < old(self).slots@.len() && #[trigger] old(self).slots@[j].token@ == t;
                        assert(self.slots@[j].token@ == t);
                    } else {
                        assert(self.slots@[i as int].token@ == t);
                    }
                }
            },
            None => {
                self.slots.push(TokenSlot { token: key, info });
                self.model = Ghost(next);
                let ghost last = self.slots@.len() - 1;
                assert forall|t: Seq<char>| #[trigger] self.model@.contains_key(t) implies exists|j: int|
                    0 <= j < self.slots@.len() && #[trigger] self.slots@[j].token@ == t by {
                    if t != token@ {
                        let j = choose|j: int| 0 <= j < old(self).slots@.len() && #[trigger] old(self).slots@[j].token@ == t;
                        assert(self.slots@[j].token@ == t);
                    } else {
                        assert(self.slots@[last].token@ == t);
                    }
                }
            },
        }
    }

    /// The entry for `token` if it is valid and has not expired at `now`.
    pub fn get_token_at(&self, token: &str, now: i64) -> (found: Option<TokenInfo>)
        requires
            self.wf(),
        ensures
            info_view(found) == lookup(self@, token@, now as int),
    {
        let key = String::from_str(token);
        match self.position(&key) {
            Some(i) => {
                let info = &self.slots[i].info;
                assert(self@[token@] == info@);
                if info.expires_at > now && info.is_valid {
                    Some(TokenInfo { user_id: info.user_id.clone(), expires_at: info.expires_at, is_valid: info.is_valid })
                } else {
                    None
                }
            },
            None => None,
        }
    }

    /// The entry for `token` if it is valid and has not expired now. Whatever
    /// the time, an entry handed out is the cached one and is valid.
    pub fn get_token(&self, token: &str) -> (found: Option<TokenInfo>)
        requires
            self.wf(),
        ensures
            exists|now: i64| info_view(found) == #[trigger] lookup(self@, token@, now as int),
            found matches Some(info) ==> self@.contains_key(token@) && info@ == self@[token@] && info.is_valid,
    {
        let now = now_seconds();
        self.get_token_at(token, now)
    }

    /// Marks the entry for `token` invalid; a token not cached is ignored.
    pub fn invalidate_token(&mut self, token: &str)
        requires
            old(self).wf(),
        ensures
            final(self).wf(),
            final(self)@ == invalidated(old(self)@, token@),
    {
        let key = String::from_str(token);
        match self.position(&key) {
            Some(i) => {
                let ghost next = invalidated(self@, token@);
                let old_info = &self.slots[i].info;
                let info = TokenInfo { user_id: old_info.user_id.clone(), expires_at: old_info.expires_at, is_valid: false };
                self.slots.set(i, TokenSlot { token: key, info });
                self.model = Ghost(next);
                assert forall|t: Seq<char>| #[trigger] self.model@.contains_key(t) implies exists|j: int|
                    0 <= j < self.slots@.len() && #[trigger] self.slots@[j].token@ == t by {
                    let j = choose|j: int| 0 <= j < old(self).slots@.len() && #[trigger] old(self).slots@[j].token@ == t;
                    assert(self.slots@[j].token@ == t);
                }
            },
            None => {},
        }
    }

    /// Removes every entry that is invalid or has expired at `now`.
    pub fn clean_expired_at(&mut self, now: i64)
        requires
            old(self).wf(),
        ensures
            final(self).wf(),
            final(self)@ == swept(old(self)@, now as int),
    {
        let ghost before = self@;
        let ghost target = swept(before, now as int);
        let mut kept: Vec<TokenSlot> = Vec::new();
        let mut rest: Vec<TokenSlot> = Vec::new();
        std::mem::swap(&mut rest, &mut self.slots);
        let ghost all = rest@;
        let ghost mut src: Seq<int> = Seq::empty();
        let mut i: usize = 0;
        while i < rest.len()
            invariant
                rest@ == all,
                i <= all.len(),
                forall|a: int, b: int| 0 <= a < b < all.len() ==> (#[trigger] all[a]).token@ != (#[trigger] all[b]).token@,
                forall|a: int|
                    0 <= a < all.len() ==> before.contains_key((#[trigger] all[a]).token@)
                        && before[all[a].token@] == all[a].info@,
                forall|t: Seq<char>|
                    #[trigger] before.contains_key(t) ==> exists|a: int| 0 <= a < all.len() && (#[trigger] all[a]).token@ == t,
                src.len() == kept@.len(),
                forall|a: int, b: int| 0 <= a < b < src.len() ==> #[trigger] src[a] < #[trigger] src[b],
                forall|a: int|
                    0 <= a < src.len() ==> 0 <= #[trigger] src[a] < i && kept@[a] == all[src[a]]
                        && is_live(all[src[a]].info@, now as int),
                forall|b: int|
                    0 <= b < i && is_live((#[trigger] all[b]).info@, now as int) ==> exists|a: int|
                        0 <= a < src.len() && #[trigger] src[a] == b,
            decreases all.len() - i,
        {
            if rest[i].info.expires_at > now && rest[i].info.is_valid {
                let slot = TokenSlot {
                    token: rest[i].token.clone(),
                    info: TokenInfo {
                        user_id: rest[i].info.user_id.clone(),
                        expires_at: rest[i].info.expires_at,
                        is_valid: rest[i].info.is_valid,
                    },
                };
                let ghost old_src = src;
                kept.push(slot);
                proof {
                    src = src.push(i as int);
                    assert forall|b: int|
                        0 <= b < i + 1 && is_live((#[trigger] all[b]).info@, now as int) implies exists|a: int|
                        0 <= a < src.len() && #[trigger] src[a] == b by {
                        if b == i {
                            assert(src[src.len() - 1] == b);
                        } else {
                            let a = choose|a: int| 0 <= a < old_src.len() && #[trigger] old_src[a] == b;
                            assert(src[a] == b);
                        }
                    }
                }
            }
            i = i + 1;
        }
        proof {
            assert forall|a: int, b: int| 0 <= a < b < kept@.len() implies
                (#[trigger] kept@[a]).token@ != (#[trigger] kept@[b]).token@ by {
                assert(src[a] < src[b]);
                assert(all[src[a]].token@ != all[src[b]].token@);
            }
            assert forall|a: int| 0 <= a < kept@.len() implies target.contains_key((#[trigger] kept@[a]).token@)
                && target[kept@[a].token@] == kept@[a].info@ by {
                assert(kept@[a] == all[src[a]]);
                assert(before.contains_key(all[src[a]].token@));
            }
        }
        self.slots = kept;
        self.model = Ghost(target);
        assert forall|t: Seq<char>| #[trigger] self.model@.contains_key(t) implies exists|i: int|
            0 <= i < self.slots@.len() && (#[trigger] self.slots@[i]).token@ == t by {
            let b = choose|b: int| 0 <= b < all.len() && (#[trigger] all[b]).token@ == t;
            assert(is_live(all[b].info@, now as int));
            let a = choose|a: int| 0 <= a < src.len() && #[trigger] src[a] == b;
            assert(self.slots@[a].token@ == t);
        }
    }

    /// Removes every entry that is invalid or has expired now.
    pub fn clean_expired(&mut self)
        requires
            old(self).wf(),
        ensures
            final(self).wf(),
            exists|now: i64| final(self)@ == #[trigger] swept(old(self)@, now as int),
    {
        let now = now_seconds();
        self.clean_expired_at(now);
    }
}

} // verus!
