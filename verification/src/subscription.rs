//! Subscription tiers for index access and prediction quotas.
//!
//! Customers are identified by a 128-bit id; each holds a tier that fixes
//! index access, monthly prediction quota and calibration rotation speed.

use vstd::prelude::*;
use crate::MAX_TIME_MS;

verus! {

/// Subscription tiers with corresponding amplification benefits.
#[derive(Clone, Copy, Debug, PartialEq, Eq, Structural)]
pub enum SubscriptionTier {
    /// Free trial: no index access, no benefit.
    Trial,
    /// Developer tier: cached index with a TTL.
    Developer,
    /// Professional tier: real-time index.
    Professional,
    /// Enterprise tier: custom models.
    Enterprise,
}

/// Index access levels.
#[derive(Clone, Copy, Debug, PartialEq, Eq, Structural)]
pub enum GFEFAccess {
    /// No index access.
    NoAccess,
    /// Cached index with a time-to-live in hours.
    Cached { ttl_hours: u32 },
    /// Real-time predictions.
    RealTime,
    /// Custom model index generation.
    CustomModels,
}

impl SubscriptionTier {
    /// The index access level this tier grants.
    pub fn gfef_access(&self) -> (r: GFEFAccess)
        ensures
            self is Trial ==> r == GFEFAccess::NoAccess,
            self is Developer ==> r == (GFEFAccess::Cached { ttl_hours: 24u32 }),
            self is Professional ==> r == GFEFAccess::RealTime,
            self is Enterprise ==> r == GFEFAccess::CustomModels,
    {
        match self {
            SubscriptionTier::Trial => GFEFAccess::NoAccess,
            SubscriptionTier::Developer => GFEFAccess::Cached { ttl_hours: 24 },
            SubscriptionTier::Professional => GFEFAccess::RealTime,
            SubscriptionTier::Enterprise => GFEFAccess::CustomModels,
        }
    }

    /// The monthly prediction quota this tier grants.
    pub open spec fn spec_monthly_predictions(self) -> u64 {
        match self {
            SubscriptionTier::Trial => 1000,
            SubscriptionTier::Developer => 100_000,
            SubscriptionTier::Professional => 1_000_000,
            SubscriptionTier::Enterprise => u64::MAX,
        }
    }

    /// The monthly prediction quota this tier grants.
    pub fn monthly_predictions(&self) -> (r: u64)
        ensures
            r == self.spec_monthly_predictions(),
    {
        match self {
            SubscriptionTier::Trial => 1000,
            SubscriptionTier::Developer => 100_000,
            SubscriptionTier::Professional => 1_000_000,
            SubscriptionTier::Enterprise => u64::MAX,
        }
    }

    /// How often this tier's calibration matrix rotates, in seconds
    /// (0 = no rotation).
    pub fn calibration_rotation_secs(&self) -> (r: u64)
        ensures
            self is Trial ==> r == 0,
            self is Developer ==> r == 3600,
            self is Professional ==> r == 60,
            self is Enterprise ==> r == 10,
    {
        match self {
            SubscriptionTier::Trial => 0,
            SubscriptionTier::Developer => 3600,
            SubscriptionTier::Professional => 60,
            SubscriptionTier::Enterprise => 10,
        }
    }
}

/// Failures answering a subscription lookup.
#[derive(Clone, Copy, Debug, PartialEq, Eq, Structural)]
pub enum SubscriptionError {
    /// Subscription not found.
    NotFound,
    /// Subscription expired.
    Expired,
    /// Prediction quota exceeded.
    QuotaExceeded,
}

/// Failures answering a prediction request.
#[derive(Clone, Debug)]
pub enum PredictionError {
    /// Invalid session token.
    InvalidSession,
    /// Model not found.
    ModelNotFound(String),
    /// Layer not found.
    LayerNotFound(u32),
    /// Subscription expired.
    SubscriptionExpired,
    /// Quota exceeded.
    QuotaExceeded,
    /// Internal error.
    Internal(String),
}

/// One customer's subscription record.
#[derive(Clone, Debug)]
pub struct Subscription {
    /// The customer's 128-bit id.
    pub customer_id: u128,
    /// The tier held.
    pub tier: SubscriptionTier,
    /// When the subscription was created.
    pub created_at_ms: i64,
    /// When it expires.
    pub expires_at_ms: i64,
    /// Predictions consumed so far.
    pub predictions_used: u64,
    /// The tier's prediction quota.
    pub predictions_quota: u64,
    /// Models registered under this subscription.
    pub models_registered: Vec<String>,
}

impl Subscription {
    /// A fresh 30-day subscription with the tier's quota and nothing used.
    pub fn new(customer_id: u128, tier: SubscriptionTier, now_ms: i64) -> (r: Subscription)
        requires
            0 <= now_ms,
            now_ms + 30 * 86_400_000 <= MAX_TIME_MS,
        ensures
            r.customer_id == customer_id,
            r.tier == tier,
            r.created_at_ms == now_ms,
            r.expires_at_ms == now_ms + 30 * 86_400_000,
            r.predictions_used == 0,
            r.predictions_quota == tier.spec_monthly_predictions(),
            r.models_registered@.len() == 0,
    {
        let quota = tier.monthly_predictions();
        Subscription {
            customer_id,
            tier,
            created_at_ms: now_ms,
            expires_at_ms: now_ms + 30 * 86_400_000,
            predictions_used: 0,
            predictions_quota: quota,
            models_registered: Vec::new(),
        }
    }

    /// Whether the subscription is active at `now_ms`.
    pub fn is_active(&self, now_ms: i64) -> (r: bool)
        ensures
            r <==> now_ms < self.expires_at_ms,
    {
        now_ms < self.expires_at_ms
    }

    /// Whether prediction quota remains.
    pub fn has_quota(&self) -> (r: bool)
        ensures
            r <==> self.predictions_used < self.predictions_quota,
    {
        self.predictions_used < self.predictions_quota
    }

    /// Consume one prediction from the quota; false when none remains.
    pub fn consume_prediction(&mut self) -> (r: bool)
        ensures
            r <==> old(self).predictions_used < old(self).predictions_quota,
            r ==> final(self).predictions_used == old(self).predictions_used + 1,
            !r ==> final(self).predictions_used == old(self).predictions_used,
            final(self).predictions_quota == old(self).predictions_quota,
            final(self).customer_id == old(self).customer_id,
            final(self).tier == old(self).tier,
            final(self).created_at_ms == old(self).created_at_ms,
            final(self).expires_at_ms == old(self).expires_at_ms,
            final(self).models_registered@ == old(self).models_registered@,
    {
        if self.predictions_used < self.predictions_quota {
            self.predictions_used = self.predictions_used + 1;
            true
        } else {
            false
        }
    }
}

/// Whether some record belongs to the customer `id`.
pub open spec fn has_customer(subs: Seq<Subscription>, id: u128) -> bool {
    exists|i: int| 0 <= i < subs.len() && (#[trigger] subs[i].customer_id) == id
}

/// The index of the record belonging to the customer `id`.
pub open spec fn customer_index(subs: Seq<Subscription>, id: u128) -> int {
    choose|i: int| 0 <= i < subs.len() && (#[trigger] subs[i].customer_id) == id
}

/// The store of customer subscriptions.
pub struct SubscriptionManager {
    /// One record per customer.
    pub subscriptions: Vec<Subscription>,
}

impl SubscriptionManager {
    /// Customers appear at most once.
    pub open spec fn wf(self) -> bool {
        forall|i: int, j: int|
            0 <= i < j < self.subscriptions@.len()
                ==> (#[trigger] self.subscriptions@[i].customer_id)
                    != (#[trigger] self.subscriptions@[j].customer_id)
    }

    /// An empty store.
    pub fn new() -> (r: SubscriptionManager)
        ensures
            r.wf(),
            r.subscriptions@.len() == 0,
    {
        SubscriptionManager { subscriptions: Vec::new() }
    }

    /// Find the index of a customer's record.
    fn find_customer(&self, customer_id: u128) -> (r: Option<usize>)
        requires
            self.wf(),
        ensures
            match r {
                Some(i) => {
                    &&& i < self.subscriptions@.len()
                    &&& self.subscriptions@[i as int].customer_id == customer_id
                    &&& has_customer(self.subscriptions@, customer_id)
                    &&& customer_index(self.subscriptions@, customer_id) == i
                },
                None => !has_customer(self.subscriptions@, customer_id),
            },
    {
        let n = self.subscriptions.len();
        let mut i: usize = 0;
        while i < n
            invariant
                self.wf(),
                n == self.subscriptions@.len(),
                i <= n,
                forall|j: int|
                    0 <= j < i ==> (#[trigger] self.subscriptions@[j].customer_id) != customer_id,
            decreases n - i,
        {
            if self.subscriptions[i].customer_id == customer_id {
                proof {
                    assert(has_customer(self.subscriptions@, customer_id));
                    let k = customer_index(self.subscriptions@, customer_id);
                    assert(self.subscriptions@[k].customer_id == customer_id);
                    assert(k == i);
                }
                return Some(i);
            }
            i = i + 1;
        }
        None
    }

    /// Create (or replace) a customer's subscription at the given tier.
    pub fn create_subscription(
        &mut self,
        customer_id: u128,
        tier: SubscriptionTier,
        now_ms: i64,
    ) -> (r: Subscription)
        requires
            old(self).wf(),
            0 <= now_ms,
            now_ms + 30 * 86_400_000 <= MAX_TIME_MS,
        ensures
            final(self).wf(),
            has_customer(final(self).subscriptions@, customer_id),
            ({
                let e = final(self).subscriptions@[customer_index(
                    final(self).subscriptions@,
                    customer_id,
                )];
                &&& e.customer_id == customer_id
                &&& e.tier == tier
                &&& e.created_at_ms == now_ms
                &&& e.expires_at_ms == now_ms + 30 * 86_400_000
                &&& e.predictions_used == 0
                &&& e.predictions_quota == tier.spec_monthly_predictions()
            }),
            r.customer_id == customer_id,
            r.tier == tier,
            r.predictions_used == 0,
    {
        let stored = Subscription::new(customer_id, tier, now_ms);
        let returned = Subscription::new(customer_id, tier, now_ms);
        match self.find_customer(customer_id) {
            Some(i) => {
                self.subscriptions.set(i, stored);
                proof {
                    let k = customer_index(self.subscriptions@, customer_id);
                    assert(self.subscriptions@[i as int].customer_id == customer_id);
                    assert(has_customer(self.subscriptions@, customer_id));
                    assert(self.subscriptions@[k].customer_id == customer_id);
                    assert(k == i);
                }
            },
            None => {
                let ghost oldlen = self.subscriptions@.len() as int;
                self.subscriptions.push(stored);
                proof {
                    assert(self.subscriptions@[oldlen].customer_id == customer_id);
                    assert(has_customer(self.subscriptions@, customer_id));
                    let k = customer_index(self.subscriptions@, customer_id);
                    assert(self.subscriptions@[k].customer_id == customer_id);
                    assert(k == oldlen);
                }
            },
        }
        returned
    }

    /// Whether a customer currently holds a record.
    pub fn get_subscription(&self, customer_id: u128) -> (r: Option<&Subscription>)
        requires
            self.wf(),
        ensures
            match r {
                Some(s) => {
                    &&& has_customer(self.subscriptions@, customer_id)
                    &&& *s == self.subscriptions@[customer_index(
                        self.subscriptions@,
                        customer_id,
                    )]
                },
                None => !has_customer(self.subscriptions@, customer_id),
            },
    {
        match self.find_customer(customer_id) {
            Some(i) => Some(&self.subscriptions[i]),
            None => None,
        }
    }

    /// Admit or refuse an access: `NotFound` for an unknown customer,
    /// `Expired` for a lapsed subscription, `QuotaExceeded` when no
    /// prediction quota remains, checked in exactly that order.
    pub fn validate_access(&self, customer_id: u128, now_ms: i64) -> (r: Result<
        &Subscription,
        SubscriptionError,
    >)
        requires
            self.wf(),
        ensures
            !has_customer(self.subscriptions@, customer_id) ==> r == Err::<
                &Subscription,
                SubscriptionError,
            >(SubscriptionError::NotFound),
            has_customer(self.subscriptions@, customer_id) ==> {
                let s = self.subscriptions@[customer_index(self.subscriptions@, customer_id)];
                if now_ms >= s.expires_at_ms {
                    r == Err::<&Subscription, SubscriptionError>(SubscriptionError::Expired)
                } else if s.predictions_used >= s.predictions_quota {
                    r == Err::<&Subscription, SubscriptionError>(SubscriptionError::QuotaExceeded)
                } else {
                    r matches Ok(sub) && *sub == s
                }
            },
    {
        let idx = match self.find_customer(customer_id) {
            Some(i) => i,
            None => {
                return Err(SubscriptionError::NotFound);
            },
        };
        let sub = &self.subscriptions[idx];
        if !sub.is_active(now_ms) {
            return Err(SubscriptionError::Expired);
        }
        if !sub.has_quota() {
            return Err(SubscriptionError::QuotaExceeded);
        }
        Ok(sub)
    }
}

} // verus!
