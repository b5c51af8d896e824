//! Tier configurations for the authentication gateway.
//!
//! Every API consumer belongs to a named tier; the tier fixes its memory
//! amplification factor, allocation caps, per-minute rate limit and priority.
//! The tiers form a total order: enterprise > pro > starter > free, and the
//! priority field is the tier's rank in that order.

use vstd::prelude::*;
use crate::strutil::{lower_of, str_eq_ignore_ascii_case};

verus! {

/// The four subscription tiers, lowest first.
#[derive(Clone, Copy, Debug, PartialEq, Eq, Structural)]
pub enum Tier {
    Free,
    Starter,
    Pro,
    Enterprise,
}

impl Tier {
    /// Rank of the tier in the total order; higher outranks lower.
    pub open spec fn level_spec(self) -> int {
        match self {
            Tier::Free => 1,
            Tier::Starter => 2,
            Tier::Pro => 3,
            Tier::Enterprise => 4,
        }
    }

    /// Rank of the tier in the total order; higher outranks lower.
    pub fn level(&self) -> (r: u8)
        ensures
            r == self.level_spec(),
    {
        match self {
            Tier::Free => 1,
            Tier::Starter => 2,
            Tier::Pro => 3,
            Tier::Enterprise => 4,
        }
    }

    /// The tier's canonical name.
    pub open spec fn name_spec(self) -> Seq<char> {
        match self {
            Tier::Free => "free"@,
            Tier::Starter => "starter"@,
            Tier::Pro => "pro"@,
            Tier::Enterprise => "enterprise"@,
        }
    }
}

/// The tier a name designates, up to ASCII case; unrecognized names fall
/// back to the free tier.
pub open spec fn tier_of_name(name: Seq<char>) -> Tier {
    if lower_of(name) == "enterprise"@ {
        Tier::Enterprise
    } else if lower_of(name) == "pro"@ {
        Tier::Pro
    } else if lower_of(name) == "starter"@ {
        Tier::Starter
    } else {
        Tier::Free
    }
}

/// The four canonical tier names are already lowercase, so lowering them
/// changes nothing.
pub proof fn lemma_tier_names_lowercase()
    ensures
        lower_of("enterprise"@) == "enterprise"@,
        lower_of("pro"@) == "pro"@,
        lower_of("starter"@) == "starter"@,
        lower_of("free"@) == "free"@,
{
    reveal_strlit("enterprise");
    reveal_strlit("pro");
    reveal_strlit("starter");
    reveal_strlit("free");
    assert(lower_of("enterprise"@) =~= "enterprise"@);
    assert(lower_of("pro"@) =~= "pro"@);
    assert(lower_of("starter"@) =~= "starter"@);
    assert(lower_of("free"@) =~= "free"@);
}

/// The tier hierarchy is a total order: every pair of tiers is comparable,
/// and enterprise > pro > starter > free.
pub proof fn lemma_tier_total_order()
    ensures
        Tier::Enterprise.level_spec() > Tier::Pro.level_spec(),
        Tier::Pro.level_spec() > Tier::Starter.level_spec(),
        Tier::Starter.level_spec() > Tier::Free.level_spec(),
        forall|a: Tier, b: Tier|
            a.level_spec() == b.level_spec() ==> a == b,
{
}

/// Configuration of one subscription tier.
#[derive(Clone, Debug)]
pub struct TierConfig {
    /// Tier name.
    pub name: String,
    /// Memory amplification factor.
    pub amplification_factor: u64,
    /// Maximum allocatable memory in TB.
    pub max_allocation_tb: u64,
    /// Rate limit (requests per minute, 0 = unlimited).
    pub rate_limit: u32,
    /// Maximum concurrent allocations.
    pub max_concurrent_allocations: u32,
    /// Priority level (higher = more priority).
    pub priority: u8,
}

/// The numeric configuration each tier carries.
pub open spec fn is_config_of(c: TierConfig, t: Tier) -> bool {
    &&& c.name@ == t.name_spec()
    &&& c.priority == t.level_spec()
    &&& match t {
        Tier::Free => {
            &&& c.amplification_factor == 100
            &&& c.max_allocation_tb == 2
            &&& c.rate_limit == 100
            &&& c.max_concurrent_allocations == 1
        },
        Tier::Starter => {
            &&& c.amplification_factor == 1000
            &&& c.max_allocation_tb == 24
            &&& c.rate_limit == 1000
            &&& c.max_concurrent_allocations == 5
        },
        Tier::Pro => {
            &&& c.amplification_factor == 10000
            &&& c.max_allocation_tb == 240
            &&& c.rate_limit == 10000
            &&& c.max_concurrent_allocations == 20
        },
        Tier::Enterprise => {
            &&& c.amplification_factor == 24500
            &&& c.max_allocation_tb == 574
            &&& c.rate_limit == 0
            &&& c.max_concurrent_allocations == 100
        },
    }
}

impl TierConfig {
    /// Free tier: 100x amplification, 2 TB, 100 requests per minute.
    pub fn free() -> (r: TierConfig)
        ensures
            is_config_of(r, Tier::Free),
    {
        TierConfig {
            name: "free".to_owned(),
            amplification_factor: 100,
            max_allocation_tb: 2,
            rate_limit: 100,
            max_concurrent_allocations: 1,
            priority: 1,
        }
    }

    /// Starter tier: 1,000x amplification, 24 TB, 1,000 requests per minute.
    pub fn starter() -> (r: TierConfig)
        ensures
            is_config_of(r, Tier::Starter),
    {
        TierConfig {
            name: "starter".to_owned(),
            amplification_factor: 1000,
            max_allocation_tb: 24,
            rate_limit: 1000,
            max_concurrent_allocations: 5,
            priority: 2,
        }
    }

    /// Pro tier: 10,000x amplification, 240 TB, 10,000 requests per minute.
    pub fn pro() -> (r: TierConfig)
        ensures
            is_config_of(r, Tier::Pro),
    {
        TierConfig {
            name: "pro".to_owned(),
            amplification_factor: 10000,
            max_allocation_tb: 240,
            rate_limit: 10000,
            max_concurrent_allocations: 20,
            priority: 3,
        }
    }

    /// Enterprise tier: 24,500x amplification, 574 TB, unlimited requests.
    pub fn enterprise() -> (r: TierConfig)
        ensures
            is_config_of(r, Tier::Enterprise),
    {
        TierConfig {
            name: "enterprise".to_owned(),
            amplification_factor: 24500,
            max_allocation_tb: 574,
            rate_limit: 0,
            max_concurrent_allocations: 100,
            priority: 4,
        }
    }

    /// The configuration a tier name designates, up to ASCII case;
    /// unrecognized names fall back to the free tier.
    pub fn from_name(name: &str) -> (r: TierConfig)
        ensures
            is_config_of(r, tier_of_name(name@)),
    {
        proof {
            lemma_tier_names_lowercase();
        }
        if str_eq_ignore_ascii_case(name, "enterprise") {
            TierConfig::enterprise()
        } else if str_eq_ignore_ascii_case(name, "pro") {
            TierConfig::pro()
        } else if str_eq_ignore_ascii_case(name, "starter") {
            TierConfig::starter()
        } else {
            TierConfig::free()
        }
    }
}

} // verus!
