use vstd::prelude::*;

use crate::config::{MintingAccount, STAGE_ALLOWLIST, STAGE_DISABLED, STAGE_PUBLIC};
use crate::error::MintError;

verus! {

/// The tier a request is priced and capped under.
#[derive(Clone, Copy, PartialEq, Eq, Structural, Debug)]
pub enum Tier {
    Primary,
    Secondary,
    Public,
}

impl Tier {
    /// The stage under which this tier may mint.
    pub open spec fn marker(self) -> i8 {
        match self {
            Tier::Public => STAGE_PUBLIC,
            _ => STAGE_ALLOWLIST,
        }
    }

    pub fn stage_marker(&self) -> (r: i8)
        ensures
            r == self.marker(),
    {
        match self {
            Tier::Public => STAGE_PUBLIC,
            _ => STAGE_ALLOWLIST,
        }
    }
}

/// A resolved tier with its unit price and per-user cap.
#[derive(Clone, Copy, PartialEq, Eq, Structural, Debug)]
pub struct Resolution {
    pub tier: Tier,
    pub price: u64,
    pub cap: u64,
}

/// The tier a user resolves to before any check: under the allowlist stage a
/// secondary member gets the secondary tier, else a primary member the primary
/// tier; everyone else gets the public tier.
pub open spec fn tentative(config: MintingAccount, primary: bool, secondary: bool) -> Resolution {
    if config.cur_stage == STAGE_ALLOWLIST && secondary {
        Resolution { tier: Tier::Secondary, price: config.wl_price, cap: config.wl_max }
    } else if config.cur_stage == STAGE_ALLOWLIST && primary {
        Resolution { tier: Tier::Primary, price: config.og_price, cap: config.og_max }
    } else {
        Resolution { tier: Tier::Public, price: config.public_price, cap: config.public_max }
    }
}

/// The resolver's decision for a user with `minted` units so far.
pub open spec fn eligibility(
    config: MintingAccount,
    primary: bool,
    secondary: bool,
    minted: u64,
) -> Result<Resolution, MintError> {
    if config.cur_stage < STAGE_DISABLED || config.cur_stage > STAGE_PUBLIC {
        Err(MintError::InvalidStage)
    } else if config.cur_stage == STAGE_DISABLED {
        Err(MintError::NotActive)
    } else {
        let t = tentative(config, primary, secondary);
        if config.cur_num >= config.max_supply || t.tier.marker() != config.cur_stage || minted
            >= t.cap {
            Err(MintError::NotAllowed)
        } else {
            Ok(t)
        }
    }
}

/// Picks the tier, price and cap; the secondary list is looked at last and
/// overrides the primary one.
pub fn resolve_tier(config: &MintingAccount, primary: bool, secondary: bool) -> (r: Resolution)
    ensures
        r == tentative(*config, primary, secondary),
{
    let mut r = Resolution { tier: Tier::Public, price: config.public_price, cap: config.public_max };
    if config.cur_stage == STAGE_ALLOWLIST {
        if primary {
            r = Resolution { tier: Tier::Primary, price: config.og_price, cap: config.og_max };
        }
        if secondary {
            r = Resolution { tier: Tier::Secondary, price: config.wl_price, cap: config.wl_max };
        }
    }
    r
}

/// Decides whether a user with the given memberships and `minted` units so far
/// may mint one more, and at which price and cap.
pub fn resolve(config: &MintingAccount, primary: bool, secondary: bool, minted: u64) -> (r: Result<
    Resolution,
    MintError,
>)
    ensures
        r == eligibility(*config, primary, secondary, minted),
        r is Ok ==> {
            &&& config.cur_num < config.max_supply
            &&& minted < r->Ok_0.cap
            &&& r->Ok_0.tier.marker() == config.cur_stage
        },
{
    if config.cur_stage < STAGE_DISABLED || config.cur_stage > STAGE_PUBLIC {
        return Err(MintError::InvalidStage);
    }
    if config.cur_stage == STAGE_DISABLED {
        return Err(MintError::NotActive);
    }
    let t = resolve_tier(config, primary, secondary);
    if config.max_supply <= config.cur_num || config.cur_stage != t.tier.stage_marker() || minted
        >= t.cap {
        return Err(MintError::NotAllowed);
    }
    Ok(t)
}

} // verus!
