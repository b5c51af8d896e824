//! Tiered authentication and rate-limiting gateway.
//!
//! The gateway owns the registry of hashed API keys.  Every validated request
//! is charged against a rolling per-minute window; the window resets exactly
//! once every 60 seconds per key, never partially.  Authentication and
//! authorization failures are surfaced before any business logic runs.

use vstd::prelude::*;
use crate::errors::ControlPlaneError;
use crate::hashing::{hex_of, sha256_of, sha256_digest, hex_encode};
use crate::strutil::{str_eq, str_eq_ignore_ascii_case, strip_bearer, has_bearer_prefix};
use crate::tier::{Tier, TierConfig, tier_of_name, is_config_of};
use crate::MAX_TIME_MS;

verus! {

/// Length of the rolling rate-limit window, in milliseconds.
pub const RATE_WINDOW_MS: i64 = 60_000;

/// The stored record of one registered API key.
#[derive(Clone, Debug)]
pub struct ApiKeyEntry {
    /// SHA-256 hash of the raw key, hex encoded.
    pub key_hash: String,
    /// Tier name as given at registration.
    pub tier: String,
    /// Configuration of that tier.
    pub tier_config: TierConfig,
    /// Organization id.
    pub org_id: String,
    /// Expiration time (None = never expires).
    pub expires_at_ms: Option<i64>,
    /// Rate limit (requests per minute, 0 = unlimited).
    pub rate_limit: u32,
    /// Requests counted against the current window.
    pub request_count: u32,
    /// Start of the current rate window.
    pub window_start_ms: i64,
    /// Enabled flag.
    pub enabled: bool,
    /// Current concurrent allocation count.
    pub current_allocations: u32,
    /// Cumulative allocated bytes.
    pub allocated_memory_bytes: u64,
}

/// The hash under which a raw API key is stored: hex of its SHA-256 digest.
pub open spec fn spec_key_hash(key: Seq<char>) -> Seq<char> {
    hex_of(sha256_of(vstd::utf8::encode_utf8(key)))
}

/// A copy of a tier configuration, field for field.
pub fn clone_config(c: &TierConfig) -> (r: TierConfig)
    ensures
        config_views_eq(*c, r),
{
    TierConfig {
        name: c.name.clone(),
        amplification_factor: c.amplification_factor,
        max_allocation_tb: c.max_allocation_tb,
        rate_limit: c.rate_limit,
        max_concurrent_allocations: c.max_concurrent_allocations,
        priority: c.priority,
    }
}

/// View-level equality of two tier configurations.
pub open spec fn config_views_eq(a: TierConfig, b: TierConfig) -> bool {
    &&& a.name@ == b.name@
    &&& a.amplification_factor == b.amplification_factor
    &&& a.max_allocation_tb == b.max_allocation_tb
    &&& a.rate_limit == b.rate_limit
    &&& a.max_concurrent_allocations == b.max_concurrent_allocations
    &&& a.priority == b.priority
}

/// View-level equality of everything in two entries except the rate counter
/// and window start.
pub open spec fn entry_same_identity(a: ApiKeyEntry, b: ApiKeyEntry) -> bool {
    &&& a.key_hash@ == b.key_hash@
    &&& a.tier@ == b.tier@
    &&& config_views_eq(a.tier_config, b.tier_config)
    &&& a.org_id@ == b.org_id@
    &&& a.expires_at_ms == b.expires_at_ms
    &&& a.rate_limit == b.rate_limit
    &&& a.enabled == b.enabled
    &&& a.current_allocations == b.current_allocations
    &&& a.allocated_memory_bytes == b.allocated_memory_bytes
}

/// View-level equality of two entries in everything but the allocation
/// counters.
pub open spec fn entry_same_views_except_allocations(a: ApiKeyEntry, b: ApiKeyEntry) -> bool {
    &&& a.key_hash@ == b.key_hash@
    &&& a.tier@ == b.tier@
    &&& config_views_eq(a.tier_config, b.tier_config)
    &&& a.org_id@ == b.org_id@
    &&& a.expires_at_ms == b.expires_at_ms
    &&& a.rate_limit == b.rate_limit
    &&& a.enabled == b.enabled
    &&& a.request_count == b.request_count
    &&& a.window_start_ms == b.window_start_ms
}

/// View-level equality of two entries.
pub open spec fn entry_views_eq(a: ApiKeyEntry, b: ApiKeyEntry) -> bool {
    &&& entry_same_identity(a, b)
    &&& a.request_count == b.request_count
    &&& a.window_start_ms == b.window_start_ms
}

/// Whether the rolling window has elapsed and must reset.
pub open spec fn window_rolls(e: ApiKeyEntry, now_ms: i64) -> bool {
    now_ms - e.window_start_ms >= RATE_WINDOW_MS
}

/// The request count charged against the window that contains `now_ms`.
pub open spec fn effective_count(e: ApiKeyEntry, now_ms: i64) -> u32 {
    if window_rolls(e, now_ms) { 0 } else { e.request_count }
}

/// Whether the key is past its expiry at `now_ms`.
pub open spec fn entry_expired(e: ApiKeyEntry, now_ms: i64) -> bool {
    match e.expires_at_ms {
        Some(t) => now_ms > t,
        None => false,
    }
}

/// Whether a request at `now_ms` must be refused for rate.  A limit of 0
/// means unlimited and never refuses.
pub open spec fn entry_rate_limited(e: ApiKeyEntry, now_ms: i64) -> bool {
    e.rate_limit > 0 && effective_count(e, now_ms) >= e.rate_limit
}

/// Maximum cumulative bytes the entry's tier admits.
pub open spec fn spec_max_bytes(c: TierConfig) -> int {
    c.max_allocation_tb * 0x100_0000_0000
}

/// A single entry is well formed: its tier configuration is the one its tier
/// name designates, its timestamps are representable, and its cumulative
/// allocation is within the tier cap.
pub open spec fn entry_wf(e: ApiKeyEntry) -> bool {
    &&& is_config_of(e.tier_config, tier_of_name(e.tier@))
    &&& e.rate_limit == e.tier_config.rate_limit
    &&& 0 <= e.window_start_ms <= MAX_TIME_MS
    &&& e.allocated_memory_bytes <= spec_max_bytes(e.tier_config)
}

/// Whether some stored entry carries the hash `h`.
pub open spec fn has_key(keys: Seq<ApiKeyEntry>, h: Seq<char>) -> bool {
    exists|i: int| 0 <= i < keys.len() && (#[trigger] keys[i].key_hash@) == h
}

/// The index of the stored entry carrying the hash `h`.
pub open spec fn key_index(keys: Seq<ApiKeyEntry>, h: Seq<char>) -> int {
    choose|i: int| 0 <= i < keys.len() && (#[trigger] keys[i].key_hash@) == h
}

/// The authentication gateway.
pub struct AuthManager {
    /// Registered keys; hashes are pairwise distinct.
    pub keys: Vec<ApiKeyEntry>,
    /// Whether authentication is enforced.  When disabled, validation always
    /// succeeds with a synthesized maximal-privilege entry (documented bypass
    /// for non-production use).
    pub auth_enabled: bool,
}

impl AuthManager {
    /// The gateway's invariant: pairwise-distinct key hashes, each entry well
    /// formed.
    pub open spec fn wf(self) -> bool {
        &&& forall|i: int, j: int|
            0 <= i < j < self.keys@.len()
                ==> (#[trigger] self.keys@[i].key_hash@) != (#[trigger] self.keys@[j].key_hash@)
        &&& forall|i: int| 0 <= i < self.keys@.len() ==> entry_wf(#[trigger] self.keys@[i])
    }

    /// Create a gateway with no registered keys.
    pub fn new(auth_enabled: bool) -> (r: AuthManager)
        ensures
            r.wf(),
            r.keys@.len() == 0,
            r.auth_enabled == auth_enabled,
    {
        AuthManager { keys: Vec::new(), auth_enabled }
    }

    /// Whether authentication is enforced.
    pub fn is_auth_enabled(&self) -> (r: bool)
        ensures
            r == self.auth_enabled,
    {
        self.auth_enabled
    }

    /// Hash a raw API key for storage and lookup.
    ///
    /// Relies on the SHA-256 and hex wrappers; the result is the lowercase
    /// hex of the key's SHA-256 digest.
    pub fn hash_key(key: &str) -> (r: String)
        ensures
            r@ == spec_key_hash(key@),
    {
        let bytes = key.as_bytes_vec();
        let digest = sha256_digest(bytes.as_slice());
        hex_encode(digest.as_slice())
    }

    /// Find the stored entry for a key hash, if any.
    fn find_index(&self, key_hash: &str) -> (r: Option<usize>)
        requires
            self.wf(),
        ensures
            match r {
                Some(i) => {
                    &&& i < self.keys@.len()
                    &&& self.keys@[i as int].key_hash@ == key_hash@
                    &&& has_key(self.keys@, key_hash@)
                    &&& key_index(self.keys@, key_hash@) == i
                },
                None => !has_key(self.keys@, key_hash@),
            },
    {
        let n = self.keys.len();
        let mut i: usize = 0;
        while i < n
            invariant
                self.wf(),
                n == self.keys@.len(),
                i <= n,
                forall|j: int| 0 <= j < i ==> (#[trigger] self.keys@[j].key_hash@) != key_hash@,
            decreases n - i,
        {
            if str_eq(self.keys[i].key_hash.as_str(), key_hash) {
                proof {
                    assert(has_key(self.keys@, key_hash@));
                    let k = key_index(self.keys@, key_hash@);
                    assert(self.keys@[k].key_hash@ == key_hash@);
                    assert(k == i);
                }
                return Some(i);
            }
            i = i + 1;
        }
        None
    }

    /// A freshly registered entry: the named tier and organization, the
    /// tier's full configuration, zeroed counters, never expiring.
    pub open spec fn fresh_entry(
        e: ApiKeyEntry,
        h: Seq<char>,
        tier: Seq<char>,
        org_id: Seq<char>,
        now_ms: i64,
    ) -> bool {
        &&& e.key_hash@ == h
        &&& e.tier@ == tier
        &&& is_config_of(e.tier_config, tier_of_name(tier))
        &&& e.org_id@ == org_id
        &&& e.expires_at_ms is None
        &&& e.rate_limit == e.tier_config.rate_limit
        &&& e.request_count == 0
        &&& e.window_start_ms == now_ms
        &&& e.enabled
        &&& e.current_allocations == 0
        &&& e.allocated_memory_bytes == 0
    }

    /// Register a raw key under a tier and organization.  Re-registration of
    /// the same key silently overwrites the old record.
    pub fn register_key(&mut self, api_key: &str, tier: &str, org_id: &str, now_ms: i64)
        requires
            old(self).wf(),
            0 <= now_ms <= MAX_TIME_MS,
        ensures
            final(self).wf(),
            final(self).auth_enabled == old(self).auth_enabled,
            has_key(final(self).keys@, spec_key_hash(api_key@)),
            ({
                let h = spec_key_hash(api_key@);
                Self::fresh_entry(
                    final(self).keys@[key_index(final(self).keys@, h)],
                    h,
                    tier@,
                    org_id@,
                    now_ms,
                )
            }),
            // Other keys are untouched; at most one slot changes.
            if has_key(old(self).keys@, spec_key_hash(api_key@)) {
                &&& final(self).keys@.len() == old(self).keys@.len()
                &&& forall|j: int|
                    0 <= j < old(self).keys@.len()
                        && j != key_index(old(self).keys@, spec_key_hash(api_key@))
                        ==> final(self).keys@[j] == old(self).keys@[j]
            } else {
                &&& final(self).keys@.len() == old(self).keys@.len() + 1
                &&& forall|j: int|
                    0 <= j < old(self).keys@.len() ==> final(self).keys@[j] == old(self).keys@[j]
            },
    {
        let key_hash = Self::hash_key(api_key);
        let tier_config = TierConfig::from_name(tier);
        let rate_limit = tier_config.rate_limit;
        let entry = ApiKeyEntry {
            key_hash,
            tier: tier.to_owned(),
            tier_config,
            org_id: org_id.to_owned(),
            expires_at_ms: None,
            rate_limit,
            request_count: 0,
            window_start_ms: now_ms,
            enabled: true,
            current_allocations: 0,
            allocated_memory_bytes: 0,
        };
        match self.find_index(entry.key_hash.as_str()) {
            Some(i) => {
                proof {
                    assert(entry_wf(entry));
                }
                self.keys.set(i, entry);
                proof {
                    let h = spec_key_hash(api_key@);
                    let k = key_index(self.keys@, h);
                    assert(self.keys@[i as int].key_hash@ == h);
                    assert(has_key(self.keys@, h));
                    assert(self.keys@[k].key_hash@ == h);
                    assert(k == i);
                }
            },
            None => {
                proof {
                    assert(entry_wf(entry));
                }
                let ghost oldlen = self.keys@.len() as int;
                self.keys.push(entry);
                proof {
                    let h = spec_key_hash(api_key@);
                    assert(self.keys@[oldlen].key_hash@ == h);
                    assert(has_key(self.keys@, h));
                    let k = key_index(self.keys@, h);
                    assert(self.keys@[k].key_hash@ == h);
                    assert(k == oldlen);
                }
            },
        }
    }

    /// In a well-formed store, the slot holding hash `h` is exactly where
    /// `key_index` points.
    proof fn lemma_key_index_stable(m: AuthManager, h: Seq<char>, i: int)
        requires
            m.wf(),
            0 <= i < m.keys@.len(),
            m.keys@[i].key_hash@ == h,
        ensures
            has_key(m.keys@, h),
            key_index(m.keys@, h) == i,
    {
        assert(has_key(m.keys@, h));
        let k = key_index(m.keys@, h);
        assert(m.keys@[k].key_hash@ == h);
    }

    /// Registering a key with a different hash leaves the slot `i` as it
    /// was: a registration touches at most the slot of its own hash.
    proof fn lemma_slot_preserved(pre: AuthManager, post: AuthManager, h_new: Seq<char>, i: int)
        requires
            pre.wf(),
            0 <= i < pre.keys@.len(),
            pre.keys@[i].key_hash@ != h_new,
            if has_key(pre.keys@, h_new) {
                &&& post.keys@.len() == pre.keys@.len()
                &&& forall|j: int|
                    0 <= j < pre.keys@.len() && j != key_index(pre.keys@, h_new)
                        ==> post.keys@[j] == pre.keys@[j]
            } else {
                &&& post.keys@.len() == pre.keys@.len() + 1
                &&& forall|j: int|
                    0 <= j < pre.keys@.len() ==> post.keys@[j] == pre.keys@[j]
            },
        ensures
            0 <= i < post.keys@.len(),
            post.keys@[i] == pre.keys@[i],
    {
        if has_key(pre.keys@, h_new) {
            let k = key_index(pre.keys@, h_new);
            assert(pre.keys@[k].key_hash@ == h_new);
            assert(k != i);
        }
    }

    /// Register the five built-in keys used for acceptance testing, one per
    /// tier plus a legacy enterprise key.  Each key's stored entry names its
    /// own tier and organization with zeroed counters; the clause for the
    /// first four is guarded by the (cryptographically certain) pairwise
    /// distinctness of the five key hashes, since a later registration of a
    /// colliding hash would overwrite the slot.
    pub fn register_default_keys(&mut self, now_ms: i64)
        requires
            old(self).wf(),
            0 <= now_ms <= MAX_TIME_MS,
        ensures
            final(self).wf(),
            final(self).auth_enabled == old(self).auth_enabled,
            has_key(final(self).keys@, spec_key_hash("cf_free_test123"@)),
            has_key(final(self).keys@, spec_key_hash("cf_starter_test123"@)),
            has_key(final(self).keys@, spec_key_hash("cf_pro_test123"@)),
            has_key(final(self).keys@, spec_key_hash("cf_ent_test123"@)),
            has_key(final(self).keys@, spec_key_hash("test-key-123"@)),
            ({
                let h5 = spec_key_hash("test-key-123"@);
                Self::fresh_entry(
                    final(self).keys@[key_index(final(self).keys@, h5)],
                    h5,
                    "enterprise"@,
                    "legacy-test-org"@,
                    now_ms,
                )
            }),
            ({
                let h1 = spec_key_hash("cf_free_test123"@);
                let h2 = spec_key_hash("cf_starter_test123"@);
                let h3 = spec_key_hash("cf_pro_test123"@);
                let h4 = spec_key_hash("cf_ent_test123"@);
                let h5 = spec_key_hash("test-key-123"@);
                (h1 != h2 && h1 != h3 && h1 != h4 && h1 != h5 && h2 != h3 && h2 != h4 && h2 != h5
                    && h3 != h4 && h3 != h5 && h4 != h5) ==> {
                    &&& Self::fresh_entry(
                        final(self).keys@[key_index(final(self).keys@, h1)],
                        h1,
                        "free"@,
                        "test-free-org"@,
                        now_ms,
                    )
                    &&& Self::fresh_entry(
                        final(self).keys@[key_index(final(self).keys@, h2)],
                        h2,
                        "starter"@,
                        "test-starter-org"@,
                        now_ms,
                    )
                    &&& Self::fresh_entry(
                        final(self).keys@[key_index(final(self).keys@, h3)],
                        h3,
                        "pro"@,
                        "test-pro-org"@,
                        now_ms,
                    )
                    &&& Self::fresh_entry(
                        final(self).keys@[key_index(final(self).keys@, h4)],
                        h4,
                        "enterprise"@,
                        "test-enterprise-org"@,
                        now_ms,
                    )
                }
            }),
    {
        let ghost h1 = spec_key_hash("cf_free_test123"@);
        let ghost h2 = spec_key_hash("cf_starter_test123"@);
        let ghost h3 = spec_key_hash("cf_pro_test123"@);
        let ghost h4 = spec_key_hash("cf_ent_test123"@);
        let ghost h5 = spec_key_hash("test-key-123"@);
        self.register_key("cf_free_test123", "free", "test-free-org", now_ms);
        let ghost g1 = *self;
        self.register_key("cf_starter_test123", "starter", "test-starter-org", now_ms);
        let ghost g2 = *self;
        self.register_key("cf_pro_test123", "pro", "test-pro-org", now_ms);
        let ghost g3 = *self;
        self.register_key("cf_ent_test123", "enterprise", "test-enterprise-org", now_ms);
        let ghost g4 = *self;
        self.register_key("test-key-123", "enterprise", "legacy-test-org", now_ms);
        proof {
            if h1 != h2 && h1 != h3 && h1 != h4 && h1 != h5 && h2 != h3 && h2 != h4 && h2 != h5
                && h3 != h4 && h3 != h5 && h4 != h5 {
                let i1 = key_index(g1.keys@, h1);
                Self::lemma_slot_preserved(g1, g2, h2, i1);
                Self::lemma_key_index_stable(g2, h1, i1);
                Self::lemma_slot_preserved(g2, g3, h3, i1);
                Self::lemma_key_index_stable(g3, h1, i1);
                Self::lemma_slot_preserved(g3, g4, h4, i1);
                Self::lemma_key_index_stable(g4, h1, i1);
                Self::lemma_slot_preserved(g4, *self, h5, i1);
                Self::lemma_key_index_stable(*self, h1, i1);
                let i2 = key_index(g2.keys@, h2);
                Self::lemma_slot_preserved(g2, g3, h3, i2);
                Self::lemma_key_index_stable(g3, h2, i2);
                Self::lemma_slot_preserved(g3, g4, h4, i2);
                Self::lemma_key_index_stable(g4, h2, i2);
                Self::lemma_slot_preserved(g4, *self, h5, i2);
                Self::lemma_key_index_stable(*self, h2, i2);
                let i3 = key_index(g3.keys@, h3);
                Self::lemma_slot_preserved(g3, g4, h4, i3);
                Self::lemma_key_index_stable(g4, h3, i3);
                Self::lemma_slot_preserved(g4, *self, h5, i3);
                Self::lemma_key_index_stable(*self, h3, i3);
                let i4 = key_index(g4.keys@, h4);
                Self::lemma_slot_preserved(g4, *self, h5, i4);
                Self::lemma_key_index_stable(*self, h4, i4);
            }
        }
    }

    /// The synthesized maximal-privilege entry handed out while
    /// authentication is disabled.
    pub open spec fn is_bypass_entry(e: ApiKeyEntry, now_ms: i64) -> bool {
        &&& e.key_hash@ == "disabled"@
        &&& e.tier@ == "enterprise"@
        &&& is_config_of(e.tier_config, Tier::Enterprise)
        &&& e.org_id@ == "default"@
        &&& e.expires_at_ms is None
        &&& e.rate_limit == 0
        &&& e.request_count == 0
        &&& e.window_start_ms == now_ms
        &&& e.enabled
        &&& e.current_allocations == 0
        &&& e.allocated_memory_bytes == 0
    }

    /// The exact outcome `validate_key` owes for a stored entry `e` at
    /// `now_ms`: the error if one is owed, else `None` (success owed).
    pub open spec fn owed_refusal(e: ApiKeyEntry, now_ms: i64) -> Option<ControlPlaneError> {
        if !e.enabled {
            Some(ControlPlaneError::PermissionDenied)
        } else if entry_expired(e, now_ms) {
            Some(ControlPlaneError::PermissionDenied)
        } else if entry_rate_limited(e, now_ms) {
            Some(ControlPlaneError::ResourceExhausted)
        } else {
            None
        }
    }

    /// The stored entry after a successful validation at `now_ms`: the
    /// window is reset once if 60 seconds have elapsed, and the counter is
    /// charged one request (saturating at the counter's width).
    pub open spec fn charged(e: ApiKeyEntry, now_ms: i64) -> ApiKeyEntry {
        ApiKeyEntry {
            request_count: if effective_count(e, now_ms) < u32::MAX {
                (effective_count(e, now_ms) + 1) as u32
            } else {
                u32::MAX
            },
            window_start_ms: if window_rolls(e, now_ms) { now_ms } else { e.window_start_ms },
            ..e
        }
    }

    /// Validate a raw API key and charge the request against its rate
    /// window.
    ///
    /// Fails `PermissionDenied` if the key is disabled or expired,
    /// `ResourceExhausted` if the window's count has reached the tier's
    /// limit (a limit of 0 never refuses), `Unauthenticated` if the key is
    /// not registered.  On success the stored counter is incremented and a
    /// snapshot of the charged entry is returned.  When authentication is
    /// globally disabled every call succeeds with a synthesized
    /// maximal-privilege entry and the store is untouched.
    pub fn validate_key(&mut self, api_key: &str, now_ms: i64) -> (r: Result<
        ApiKeyEntry,
        ControlPlaneError,
    >)
        requires
            old(self).wf(),
            0 <= now_ms <= MAX_TIME_MS,
        ensures
            final(self).wf(),
            final(self).auth_enabled == old(self).auth_enabled,
            final(self).keys@.len() == old(self).keys@.len(),
            !old(self).auth_enabled ==> {
                &&& final(self).keys@ == old(self).keys@
                &&& r is Ok
                &&& Self::is_bypass_entry(r->Ok_0, now_ms)
            },
            old(self).auth_enabled ==> {
                let h = spec_key_hash(api_key@);
                if !has_key(old(self).keys@, h) {
                    &&& r == Err::<ApiKeyEntry, ControlPlaneError>(
                        ControlPlaneError::Unauthenticated,
                    )
                    &&& final(self).keys@ == old(self).keys@
                } else {
                    let i = key_index(old(self).keys@, h);
                    let e = old(self).keys@[i];
                    match Self::owed_refusal(e, now_ms) {
                        Some(err) => {
                            &&& r == Err::<ApiKeyEntry, ControlPlaneError>(err)
                            &&& final(self).keys@ == old(self).keys@
                        },
                        None => {
                            &&& r is Ok
                            &&& entry_views_eq(r->Ok_0, Self::charged(e, now_ms))
                            &&& entry_views_eq(final(self).keys@[i], Self::charged(e, now_ms))
                            &&& forall|j: int|
                                0 <= j < old(self).keys@.len() && j != i
                                    ==> final(self).keys@[j] == old(self).keys@[j]
                        },
                    }
                }
            },
    {
        if !self.auth_enabled {
            return Ok(ApiKeyEntry {
                key_hash: "disabled".to_owned(),
                tier: "enterprise".to_owned(),
                tier_config: TierConfig::enterprise(),
                org_id: "default".to_owned(),
                expires_at_ms: None,
                rate_limit: 0,
                request_count: 0,
                window_start_ms: now_ms,
                enabled: true,
                current_allocations: 0,
                allocated_memory_bytes: 0,
            });
        }
        let key_hash = Self::hash_key(api_key);
        let idx = match self.find_index(key_hash.as_str()) {
            Some(i) => i,
            None => {
                return Err(ControlPlaneError::Unauthenticated);
            },
        };
        if !self.keys[idx].enabled {
            return Err(ControlPlaneError::PermissionDenied);
        }
        match self.keys[idx].expires_at_ms {
            Some(t) => {
                if now_ms > t {
                    return Err(ControlPlaneError::PermissionDenied);
                }
            },
            None => {},
        }
        let rolls = now_ms - self.keys[idx].window_start_ms >= RATE_WINDOW_MS;
        let count0: u32 = if rolls {
            0
        } else {
            self.keys[idx].request_count
        };
        let limit = self.keys[idx].rate_limit;
        if limit > 0 && count0 >= limit {
            return Err(ControlPlaneError::ResourceExhausted);
        }
        let new_count: u32 = if count0 < u32::MAX {
            count0 + 1
        } else {
            u32::MAX
        };
        let new_window: i64 = if rolls {
            now_ms
        } else {
            self.keys[idx].window_start_ms
        };
        let updated = ApiKeyEntry {
            key_hash: self.keys[idx].key_hash.clone(),
            tier: self.keys[idx].tier.clone(),
            tier_config: clone_config(&self.keys[idx].tier_config),
            org_id: self.keys[idx].org_id.clone(),
            expires_at_ms: self.keys[idx].expires_at_ms,
            rate_limit: self.keys[idx].rate_limit,
            request_count: new_count,
            window_start_ms: new_window,
            enabled: self.keys[idx].enabled,
            current_allocations: self.keys[idx].current_allocations,
            allocated_memory_bytes: self.keys[idx].allocated_memory_bytes,
        };
        let snapshot = ApiKeyEntry {
            key_hash: updated.key_hash.clone(),
            tier: updated.tier.clone(),
            tier_config: clone_config(&updated.tier_config),
            org_id: updated.org_id.clone(),
            expires_at_ms: updated.expires_at_ms,
            rate_limit: updated.rate_limit,
            request_count: updated.request_count,
            window_start_ms: updated.window_start_ms,
            enabled: updated.enabled,
            current_allocations: updated.current_allocations,
            allocated_memory_bytes: updated.allocated_memory_bytes,
        };
        self.keys.set(idx, updated);
        Ok(snapshot)
    }

    /// Maximum cumulative bytes a well-formed tier configuration admits fits
    /// in a `u64`.
    proof fn lemma_max_bytes_bounded(c: TierConfig, t: Tier)
        requires
            is_config_of(c, t),
        ensures
            spec_max_bytes(c) <= 574 * 0x100_0000_0000,
    {
    }

    /// Check whether an allocation of `requested_bytes` is admitted for the
    /// key's tier, after validating the key (which charges its rate window).
    ///
    /// Fails `ResourceExhausted` when the tier's concurrent-allocation cap
    /// is already reached or the cumulative-byte cap would be exceeded.
    /// The check itself books nothing: the store is exactly as `validate_key`
    /// leaves it, and in particular no allocation counter changes.
    pub fn check_allocation_allowed(
        &mut self,
        api_key: &str,
        requested_bytes: u64,
        now_ms: i64,
    ) -> (r: Result<(), ControlPlaneError>)
        requires
            old(self).wf(),
            0 <= now_ms <= MAX_TIME_MS,
        ensures
            final(self).wf(),
            final(self).auth_enabled == old(self).auth_enabled,
            final(self).keys@.len() == old(self).keys@.len(),
            // The store is as `validate_key` leaves it: untouched on the
            // bypass and on every refusal, and on success only the rate
            // counter and window of the validated entry change.
            ({
                let h = spec_key_hash(api_key@);
                let i = key_index(old(self).keys@, h);
                let e = old(self).keys@[i];
                if !old(self).auth_enabled {
                    final(self).keys@ == old(self).keys@
                } else if !has_key(old(self).keys@, h) {
                    final(self).keys@ == old(self).keys@
                } else {
                    match Self::owed_refusal(e, now_ms) {
                        Some(_) => final(self).keys@ == old(self).keys@,
                        None => {
                            &&& entry_views_eq(final(self).keys@[i], Self::charged(e, now_ms))
                            &&& forall|j: int|
                                0 <= j < old(self).keys@.len() && j != i
                                    ==> final(self).keys@[j] == old(self).keys@[j]
                        },
                    }
                }
            }),
            ({
                let h = spec_key_hash(api_key@);
                let i = key_index(old(self).keys@, h);
                let e = old(self).keys@[i];
                if !old(self).auth_enabled {
                    r == if requested_bytes > 574 * 0x100_0000_0000u64 {
                        Err::<(), ControlPlaneError>(ControlPlaneError::ResourceExhausted)
                    } else {
                        Ok::<(), ControlPlaneError>(())
                    }
                } else if !has_key(old(self).keys@, h) {
                    r == Err::<(), ControlPlaneError>(ControlPlaneError::Unauthenticated)
                } else {
                    match Self::owed_refusal(e, now_ms) {
                        Some(err) => r == Err::<(), ControlPlaneError>(err),
                        None => r == if e.current_allocations
                            >= e.tier_config.max_concurrent_allocations {
                            Err::<(), ControlPlaneError>(ControlPlaneError::ResourceExhausted)
                        } else if e.allocated_memory_bytes + requested_bytes > spec_max_bytes(
                            e.tier_config,
                        ) {
                            Err::<(), ControlPlaneError>(ControlPlaneError::ResourceExhausted)
                        } else {
                            Ok::<(), ControlPlaneError>(())
                        },
                    }
                }
            }),
    {
        let entry = match self.validate_key(api_key, now_ms) {
            Ok(e) => e,
            Err(err) => {
                return Err(err);
            },
        };
        if entry.current_allocations >= entry.tier_config.max_concurrent_allocations {
            return Err(ControlPlaneError::ResourceExhausted);
        }
        proof {
            if self.auth_enabled {
                let h = spec_key_hash(api_key@);
                let i = key_index(old(self).keys@, h);
                Self::lemma_max_bytes_bounded(
                    old(self).keys@[i].tier_config,
                    tier_of_name(old(self).keys@[i].tier@),
                );
            }
        }
        let max_bytes: u64 = entry.tier_config.max_allocation_tb * 0x100_0000_0000u64;
        if requested_bytes > max_bytes - entry.allocated_memory_bytes {
            return Err(ControlPlaneError::ResourceExhausted);
        }
        Ok(())
    }

    /// A stored entry after an admitted allocation: one more concurrent
    /// allocation, `bytes` more cumulative bytes.
    pub open spec fn after_admission(e: ApiKeyEntry, bytes: u64) -> ApiKeyEntry {
        ApiKeyEntry {
            current_allocations: (e.current_allocations + 1) as u32,
            allocated_memory_bytes: (e.allocated_memory_bytes + bytes) as u64,
            ..e
        }
    }

    /// Admit an allocation: validate the key (charging its rate window),
    /// check the tier's caps, and on success book the allocation against
    /// the stored entry.
    pub fn admit_allocation(&mut self, api_key: &str, requested_bytes: u64, now_ms: i64) -> (r:
        Result<(), ControlPlaneError>)
        requires
            old(self).wf(),
            0 <= now_ms <= MAX_TIME_MS,
        ensures
            final(self).wf(),
            final(self).auth_enabled == old(self).auth_enabled,
            final(self).keys@.len() == old(self).keys@.len(),
            ({
                let h = spec_key_hash(api_key@);
                let i = key_index(old(self).keys@, h);
                let e = old(self).keys@[i];
                if !old(self).auth_enabled {
                    r == if requested_bytes > 574 * 0x100_0000_0000u64 {
                        Err::<(), ControlPlaneError>(ControlPlaneError::ResourceExhausted)
                    } else {
                        Ok::<(), ControlPlaneError>(())
                    }
                } else if !has_key(old(self).keys@, h) {
                    r == Err::<(), ControlPlaneError>(ControlPlaneError::Unauthenticated)
                } else {
                    match Self::owed_refusal(e, now_ms) {
                        Some(err) => r == Err::<(), ControlPlaneError>(err),
                        None => if e.current_allocations
                            >= e.tier_config.max_concurrent_allocations {
                            r == Err::<(), ControlPlaneError>(ControlPlaneError::ResourceExhausted)
                        } else if e.allocated_memory_bytes + requested_bytes > spec_max_bytes(
                            e.tier_config,
                        ) {
                            r == Err::<(), ControlPlaneError>(ControlPlaneError::ResourceExhausted)
                        } else {
                            &&& r == Ok::<(), ControlPlaneError>(())
                            &&& entry_views_eq(
                                final(self).keys@[i],
                                Self::after_admission(Self::charged(e, now_ms), requested_bytes),
                            )
                            &&& forall|j: int|
                                0 <= j < old(self).keys@.len() && j != i
                                    ==> final(self).keys@[j] == old(self).keys@[j]
                        },
                    }
                }
            }),
    {
        let entry = match self.validate_key(api_key, now_ms) {
            Ok(e) => e,
            Err(err) => {
                return Err(err);
            },
        };
        if entry.current_allocations >= entry.tier_config.max_concurrent_allocations {
            return Err(ControlPlaneError::ResourceExhausted);
        }
        proof {
            if self.auth_enabled {
                let h = spec_key_hash(api_key@);
                let i = key_index(old(self).keys@, h);
                Self::lemma_max_bytes_bounded(
                    old(self).keys@[i].tier_config,
                    tier_of_name(old(self).keys@[i].tier@),
                );
            }
        }
        let max_bytes: u64 = entry.tier_config.max_allocation_tb * 0x100_0000_0000u64;
        if requested_bytes > max_bytes - entry.allocated_memory_bytes {
            return Err(ControlPlaneError::ResourceExhausted);
        }
        if !self.auth_enabled {
            return Ok(());
        }
        let key_hash = Self::hash_key(api_key);
        let idx = match self.find_index(key_hash.as_str()) {
            Some(i) => i,
            None => {
                return Ok(());
            },
        };
        let booked = ApiKeyEntry {
            key_hash: self.keys[idx].key_hash.clone(),
            tier: self.keys[idx].tier.clone(),
            tier_config: clone_config(&self.keys[idx].tier_config),
            org_id: self.keys[idx].org_id.clone(),
            expires_at_ms: self.keys[idx].expires_at_ms,
            rate_limit: self.keys[idx].rate_limit,
            request_count: self.keys[idx].request_count,
            window_start_ms: self.keys[idx].window_start_ms,
            enabled: self.keys[idx].enabled,
            current_allocations: self.keys[idx].current_allocations + 1,
            allocated_memory_bytes: self.keys[idx].allocated_memory_bytes + requested_bytes,
        };
        self.keys.set(idx, booked);
        Ok(())
    }

    /// Release a booked allocation: one fewer concurrent allocation and
    /// `released_bytes` fewer cumulative bytes, both saturating at zero.
    /// Unknown keys are ignored.
    pub fn release_allocation(&mut self, api_key: &str, released_bytes: u64)
        requires
            old(self).wf(),
        ensures
            final(self).wf(),
            final(self).auth_enabled == old(self).auth_enabled,
            final(self).keys@.len() == old(self).keys@.len(),
            ({
                let h = spec_key_hash(api_key@);
                let i = key_index(old(self).keys@, h);
                let e = old(self).keys@[i];
                if !has_key(old(self).keys@, h) {
                    final(self).keys@ == old(self).keys@
                } else {
                    &&& final(self).keys@[i].current_allocations == if e.current_allocations > 0 {
                        e.current_allocations - 1
                    } else {
                        0int
                    }
                    &&& final(self).keys@[i].allocated_memory_bytes == if e.allocated_memory_bytes
                        > released_bytes {
                        (e.allocated_memory_bytes - released_bytes) as u64
                    } else {
                        0u64
                    }
                    &&& entry_same_views_except_allocations(final(self).keys@[i], e)
                    &&& forall|j: int|
                        0 <= j < old(self).keys@.len() && j != i
                            ==> final(self).keys@[j] == old(self).keys@[j]
                }
            }),
    {
        let key_hash = Self::hash_key(api_key);
        let idx = match self.find_index(key_hash.as_str()) {
            Some(i) => i,
            None => {
                return ;
            },
        };
        let released = ApiKeyEntry {
            key_hash: self.keys[idx].key_hash.clone(),
            tier: self.keys[idx].tier.clone(),
            tier_config: clone_config(&self.keys[idx].tier_config),
            org_id: self.keys[idx].org_id.clone(),
            expires_at_ms: self.keys[idx].expires_at_ms,
            rate_limit: self.keys[idx].rate_limit,
            request_count: self.keys[idx].request_count,
            window_start_ms: self.keys[idx].window_start_ms,
            enabled: self.keys[idx].enabled,
            current_allocations: if self.keys[idx].current_allocations > 0 {
                self.keys[idx].current_allocations - 1
            } else {
                0
            },
            allocated_memory_bytes: if self.keys[idx].allocated_memory_bytes > released_bytes {
                self.keys[idx].allocated_memory_bytes - released_bytes
            } else {
                0
            },
        };
        self.keys.set(idx, released);
    }

    /// The amplification factor the key's tier grants; the key is validated
    /// (and charged) first.
    pub fn get_amplification_factor(&mut self, api_key: &str, now_ms: i64) -> (r: Result<
        u64,
        ControlPlaneError,
    >)
        requires
            old(self).wf(),
            0 <= now_ms <= MAX_TIME_MS,
        ensures
            final(self).wf(),
            final(self).auth_enabled == old(self).auth_enabled,
            ({
                let h = spec_key_hash(api_key@);
                let i = key_index(old(self).keys@, h);
                let e = old(self).keys@[i];
                if !old(self).auth_enabled {
                    r == Ok::<u64, ControlPlaneError>(24500u64)
                } else if !has_key(old(self).keys@, h) {
                    r == Err::<u64, ControlPlaneError>(ControlPlaneError::Unauthenticated)
                } else {
                    match Self::owed_refusal(e, now_ms) {
                        Some(err) => r == Err::<u64, ControlPlaneError>(err),
                        None => r == Ok::<u64, ControlPlaneError>(e.tier_config.amplification_factor),
                    }
                }
            }),
    {
        let entry = match self.validate_key(api_key, now_ms) {
            Ok(e) => e,
            Err(err) => {
                return Err(err);
            },
        };
        Ok(entry.tier_config.amplification_factor)
    }

    /// Validate a key and additionally demand a minimum tier.
    ///
    /// A key whose tier ranks below `minimum` is refused with
    /// `PermissionDenied`; a key at or above it is accepted.  The tier is
    /// resolved from the stored record, never from the credential's text.
    pub fn require_min_tier(&mut self, api_key: &str, minimum: Tier, now_ms: i64) -> (r: Result<
        ApiKeyEntry,
        ControlPlaneError,
    >)
        requires
            old(self).wf(),
            0 <= now_ms <= MAX_TIME_MS,
        ensures
            final(self).wf(),
            final(self).auth_enabled == old(self).auth_enabled,
            ({
                let h = spec_key_hash(api_key@);
                let i = key_index(old(self).keys@, h);
                let e = old(self).keys@[i];
                if !old(self).auth_enabled {
                    r is Ok
                } else if !has_key(old(self).keys@, h) {
                    r == Err::<ApiKeyEntry, ControlPlaneError>(ControlPlaneError::Unauthenticated)
                } else {
                    match Self::owed_refusal(e, now_ms) {
                        Some(err) => r == Err::<ApiKeyEntry, ControlPlaneError>(err),
                        None => if tier_of_name(e.tier@).level_spec() >= minimum.level_spec() {
                            &&& r is Ok
                            &&& entry_views_eq(r->Ok_0, Self::charged(e, now_ms))
                        } else {
                            r == Err::<ApiKeyEntry, ControlPlaneError>(
                                ControlPlaneError::PermissionDenied,
                            )
                        },
                    }
                }
            }),
    {
        proof {
            crate::tier::lemma_tier_names_lowercase();
        }
        let entry = match self.validate_key(api_key, now_ms) {
            Ok(e) => e,
            Err(err) => {
                return Err(err);
            },
        };
        let key_tier = tier_from_name(entry.tier.as_str());
        if key_tier.level() >= minimum.level() {
            Ok(entry)
        } else {
            Err(ControlPlaneError::PermissionDenied)
        }
    }
}

/// The rate limit refuses exactly at the tier's limit: an enabled,
/// unexpired key whose window already carries at least `rate_limit`
/// requests (with a non-zero limit) is owed `ResourceExhausted`, so the
/// request after the N-th inside one window is always refused.
pub proof fn lemma_rate_limit_refusal(e: ApiKeyEntry, now_ms: i64)
    requires
        e.enabled,
        !entry_expired(e, now_ms),
        e.rate_limit > 0,
        effective_count(e, now_ms) >= e.rate_limit,
    ensures
        AuthManager::owed_refusal(e, now_ms) == Some(ControlPlaneError::ResourceExhausted),
{
}

/// Once 60 seconds have elapsed since the window started, the counter is
/// considered reset: an enabled, unexpired key is then never refused for
/// rate, whatever its stored count.
pub proof fn lemma_window_reset(e: ApiKeyEntry, now_ms: i64)
    requires
        e.enabled,
        !entry_expired(e, now_ms),
        window_rolls(e, now_ms),
    ensures
        AuthManager::owed_refusal(e, now_ms) is None,
{
}

/// The tier a name designates, as executable code, up to ASCII case;
/// unrecognized names fall back to the free tier.
pub fn tier_from_name(name: &str) -> (t: Tier)
    ensures
        t == tier_of_name(name@),
{
    proof {
        crate::tier::lemma_tier_names_lowercase();
    }
    if str_eq_ignore_ascii_case(name, "enterprise") {
        Tier::Enterprise
    } else if str_eq_ignore_ascii_case(name, "pro") {
        Tier::Pro
    } else if str_eq_ignore_ascii_case(name, "starter") {
        Tier::Starter
    } else {
        Tier::Free
    }
}

/// Extract the credential from the two supported headers: the dedicated
/// API-key header takes precedence; failing that, a bearer-scheme
/// authorization header is accepted with its prefix stripped.
pub fn extract_api_key(api_key_header: Option<&String>, authorization_header: Option<&String>) -> (r:
    Option<String>)
    ensures
        match api_key_header {
            Some(v) => r matches Some(k) && k@ == v@,
            None => match authorization_header {
                Some(a) => if has_bearer_prefix(a@) {
                    r matches Some(k) && k@ == a@.subrange(7, a@.len() as int)
                } else {
                    r is None
                },
                None => r is None,
            },
        },
{
    match api_key_header {
        Some(v) => Some((*v).clone()),
        None => match authorization_header {
            Some(a) => strip_bearer(a.as_str()),
            None => None,
        },
    }
}

/// What the interceptor's non-blocking lookup saw.
pub enum FastLookup {
    /// The store was readable and held the key.
    Hit(ApiKeyEntry),
    /// The store was readable and did not hold the key.
    Miss,
    /// The store's lock was contended; nothing was read.
    Contended,
}

/// The per-request interceptor decision.
///
/// With authentication disabled, every request passes.  A missing credential
/// is refused `Unauthenticated`.  On lock contention the request is allowed:
/// this fast path deliberately fails open for availability and is weaker
/// than the strict `validate_key` path used for business logic.
pub fn intercept_request(
    auth_enabled: bool,
    credential: Option<&String>,
    lookup: &FastLookup,
    now_ms: i64,
) -> (r: Result<(), ControlPlaneError>)
    ensures
        !auth_enabled ==> r is Ok,
        auth_enabled ==> match credential {
            None => r == Err::<(), ControlPlaneError>(ControlPlaneError::Unauthenticated),
            Some(_) => match lookup {
                FastLookup::Hit(e) => if !e.enabled || entry_expired(*e, now_ms) {
                    r == Err::<(), ControlPlaneError>(ControlPlaneError::PermissionDenied)
                } else {
                    r is Ok
                },
                FastLookup::Miss => r == Err::<(), ControlPlaneError>(
                    ControlPlaneError::Unauthenticated,
                ),
                FastLookup::Contended => r is Ok,
            },
        },
{
    if !auth_enabled {
        return Ok(());
    }
    if credential.is_none() {
        return Err(ControlPlaneError::Unauthenticated);
    }
    match lookup {
        FastLookup::Hit(e) => {
            if !e.enabled {
                return Err(ControlPlaneError::PermissionDenied);
            }
            match e.expires_at_ms {
                Some(t) => {
                    if now_ms > t {
                        return Err(ControlPlaneError::PermissionDenied);
                    }
                },
                None => {},
            }
            Ok(())
        },
        FastLookup::Miss => Err(ControlPlaneError::Unauthenticated),
        FastLookup::Contended => Ok(()),
    }
}

} // verus!
