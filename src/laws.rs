use vstd::prelude::*;

use crate::config::{MintingAccount, STAGE_ALLOWLIST, STAGE_DISABLED};
use crate::error::{MintError, RequestError};
use crate::mint::{is_primary, is_secondary, mint_check, mint_next, MintNFT};
use crate::resolver::{eligibility, tentative, Resolution, Tier};

verus! {

/// An accepted mint adds exactly one to the total, and the total stays
/// within the supply.
pub proof fn lemma_mint_counts_one(ctx: MintNFT)
    requires
        mint_check(ctx) is Ok,
    ensures
        mint_next(ctx).minting_account.cur_num == ctx.minting_account.cur_num + 1,
        mint_next(ctx).minting_account.max_supply == ctx.minting_account.max_supply,
        mint_next(ctx).minting_account.wf(),
        mint_next(ctx).minting_account == (MintingAccount {
            cur_num: (ctx.minting_account.cur_num + 1) as u64,
            ..ctx.minting_account
        }),
{
}

/// Any mint request, accepted or not, keeps the total within the supply.
pub proof fn lemma_mint_keeps_supply_bound(ctx: MintNFT)
    requires
        ctx.minting_account.wf(),
    ensures
        mint_next(ctx).minting_account.wf(),
{
}

/// After an accepted mint, the payer's count does not pass the cap of the
/// tier the unit was minted under.
pub proof fn lemma_user_count_within_cap(ctx: MintNFT)
    requires
        mint_check(ctx) is Ok,
    ensures
        mint_next(ctx).user_minting_counter_account.cur_num
            == ctx.user_minting_counter_account.cur_num + 1,
        mint_next(ctx).user_minting_counter_account.cur_num <= mint_check(ctx)->Ok_0.cap,
{
}

/// A rejected request changes nothing, so sending it again is rejected with
/// the same error.
pub proof fn lemma_rejection_repeats(ctx: MintNFT)
    requires
        mint_check(ctx) is Err,
    ensures
        mint_next(ctx) == ctx,
        mint_check(mint_next(ctx)) == mint_check(ctx),
        mint_check(mint_next(mint_next(ctx))) == mint_check(ctx),
{
}

/// Under the allowlist stage, a user on both lists resolves to the secondary
/// tier's price and cap, never the primary's.
pub proof fn lemma_secondary_wins(config: MintingAccount, primary: bool, minted: u64)
    requires
        config.cur_stage == STAGE_ALLOWLIST,
    ensures
        tentative(config, primary, true) == (Resolution {
            tier: Tier::Secondary,
            price: config.wl_price,
            cap: config.wl_max,
        }),
        eligibility(config, primary, true, minted) is Ok ==> eligibility(
            config,
            primary,
            true,
            minted,
        )->Ok_0 == tentative(config, primary, true),
{
}

/// Under the allowlist stage, a payer on both lists of an unfrozen
/// configuration pays the secondary price and is held to the secondary cap,
/// whatever the primary tier says.
pub proof fn lemma_secondary_wins_mint(ctx: MintNFT)
    requires
        ctx.minting_account.cur_stage == STAGE_ALLOWLIST,
        !ctx.minting_account.freeze_program,
        is_secondary(ctx),
    ensures
        ctx.user_minting_counter_account.cur_num >= ctx.minting_account.wl_max ==> mint_check(ctx)
            == Err::<Resolution, RequestError>(RequestError::Mint(MintError::NotAllowed)),
        mint_check(ctx) is Ok ==> mint_check(ctx)->Ok_0 == (Resolution {
            tier: Tier::Secondary,
            price: ctx.minting_account.wl_price,
            cap: ctx.minting_account.wl_max,
        }),
        mint_check(ctx) is Ok ==> mint_next(ctx).payer_lamports == ctx.payer_lamports
            - ctx.minting_account.wl_price,
{
}

/// A disabled stage refuses every request of an unfrozen configuration with
/// `NotActive`, whatever the memberships, counter and balance, and changes
/// nothing.
pub proof fn lemma_disabled_refuses(ctx: MintNFT)
    requires
        ctx.minting_account.cur_stage == STAGE_DISABLED,
        !ctx.minting_account.freeze_program,
    ensures
        mint_check(ctx) == Err::<Resolution, RequestError>(RequestError::Mint(MintError::NotActive)),
        mint_next(ctx) == ctx,
{
}

} // verus!
