use vstd::prelude::*;

use crate::error::{MintError, RequestError};
use crate::key::Key;

verus! {

/// Stage value: minting is switched off.
pub const STAGE_DISABLED: i8 = 0;

/// Stage value: only allowlisted users may mint.
pub const STAGE_ALLOWLIST: i8 = 1;

/// Stage value: anyone may mint at the public price.
pub const STAGE_PUBLIC: i8 = 2;

/// The single shared configuration record.
#[derive(Debug)]
pub struct MintingAccount {
    pub admin_key: Key,
    pub authorized_creator: Key,
    pub max_supply: u64,
    pub og_max: u64,
    pub wl_max: u64,
    pub public_max: u64,
    pub og_price: u64,
    pub wl_price: u64,
    pub public_price: u64,
    /// Units minted so far over all users.
    pub cur_num: u64,
    pub freeze_program: bool,
    pub cur_stage: i8,
    pub base_uri: String,
}

impl MintingAccount {
    /// The total never passes the supply.
    pub open spec fn wf(&self) -> bool {
        self.cur_num <= self.max_supply
    }
}

/// The outcome of the administrator check for `caller`.
pub open spec fn admin_gate(admin: Key, caller: Key) -> Result<(), RequestError> {
    if admin == caller {
        Ok(())
    } else {
        Err(RequestError::Mint(MintError::NotAllowed))
    }
}

/// A setter's argument: zero keeps the current value.
pub open spec fn keep_if_zero(new: u64, cur: u64) -> u64 {
    if new > 0 {
        new
    } else {
        cur
    }
}

/// Whether `s` names one of the three legal stages.
pub open spec fn legal_stage(s: i8) -> bool {
    STAGE_DISABLED <= s <= STAGE_PUBLIC
}

/// Refuses everyone but the configured administrator.
pub fn is_admin(minting_account: &MintingAccount, signer: &Key) -> (r: Result<(), RequestError>)
    ensures
        r == admin_gate(minting_account.admin_key, *signer),
{
    if minting_account.admin_key != *signer {
        return Err(RequestError::Mint(MintError::NotAllowed));
    }
    Ok(())
}

/// The accounts of `initialize`: the configuration slot, empty until created,
/// and the signer who becomes the administrator.
pub struct Initialize {
    pub minting_account: Option<MintingAccount>,
    pub initializer: Key,
}

/// The accounts of the administrative setters.
pub struct CommonSt {
    pub minting_account: MintingAccount,
    pub admin: Key,
}

/// Creates the configuration with nothing minted and the stage disabled.
pub fn initialize(
    ctx: &mut Initialize,
    authorized_creator: Key,
    max_supply: u64,
    og_max: u64,
    wl_max: u64,
    public_max: u64,
    og_price: u64,
    wl_price: u64,
    public_price: u64,
) -> (r: Result<(), RequestError>)
    ensures
        r == (if old(ctx).minting_account is Some {
            Err::<(), RequestError>(RequestError::AccountInUse)
        } else {
            Ok(())
        }),
        r is Err ==> *final(ctx) == *old(ctx),
        r is Ok ==> {
            &&& final(ctx).initializer == old(ctx).initializer
            &&& final(ctx).minting_account is Some
            &&& {
                let a = final(ctx).minting_account->Some_0;
                &&& a.admin_key == old(ctx).initializer
                &&& a.authorized_creator == authorized_creator
                &&& a.max_supply == max_supply
                &&& a.og_max == og_max
                &&& a.wl_max == wl_max
                &&& a.public_max == public_max
                &&& a.og_price == og_price
                &&& a.wl_price == wl_price
                &&& a.public_price == public_price
                &&& a.cur_num == 0
                &&& a.cur_stage == STAGE_DISABLED
                &&& !a.freeze_program
                &&& a.base_uri@ == Seq::<char>::empty()
                &&& a.wf()
            }
        },
{
    if ctx.minting_account.is_some() {
        return Err(RequestError::AccountInUse);
    }
    ctx.minting_account = Some(
        MintingAccount {
            admin_key: ctx.initializer,
            authorized_creator,
            max_supply,
            og_max,
            wl_max,
            public_max,
            og_price,
            wl_price,
            public_price,
            cur_num: 0,
            freeze_program: false,
            cur_stage: STAGE_DISABLED,
            base_uri: String::new(),
        },
    );
    Ok(())
}

/// Overwrites each price whose argument is not zero.
pub fn update_price(
    ctx: &mut CommonSt,
    new_og_price: u64,
    new_wl_price: u64,
    new_public_price: u64,
) -> (r: Result<(), RequestError>)
    ensures
        r == admin_gate(old(ctx).minting_account.admin_key, old(ctx).admin),
        r is Err ==> *final(ctx) == *old(ctx),
        r is Ok ==> *final(ctx) == (CommonSt {
            minting_account: MintingAccount {
                og_price: keep_if_zero(new_og_price, old(ctx).minting_account.og_price),
                wl_price: keep_if_zero(new_wl_price, old(ctx).minting_account.wl_price),
                public_price: keep_if_zero(new_public_price, old(ctx).minting_account.public_price),
                ..old(ctx).minting_account
            },
            ..*old(ctx)
        }),
{
    is_admin(&ctx.minting_account, &ctx.admin)?;
    if new_og_price > 0 {
        ctx.minting_account.og_price = new_og_price;
    }
    if new_wl_price > 0 {
        ctx.minting_account.wl_price = new_wl_price;
    }
    if new_public_price > 0 {
        ctx.minting_account.public_price = new_public_price;
    }
    Ok(())
}

/// Overwrites each per-user cap whose argument is not zero.
pub fn update_amount(
    ctx: &mut CommonSt,
    new_og_amount: u64,
    new_wl_amount: u64,
    new_public_amount: u64,
) -> (r: Result<(), RequestError>)
    ensures
        r == admin_gate(old(ctx).minting_account.admin_key, old(ctx).admin),
        r is Err ==> *final(ctx) == *old(ctx),
        r is Ok ==> *final(ctx) == (CommonSt {
            minting_account: MintingAccount {
                og_max: keep_if_zero(new_og_amount, old(ctx).minting_account.og_max),
                wl_max: keep_if_zero(new_wl_amount, old(ctx).minting_account.wl_max),
                public_max: keep_if_zero(new_public_amount, old(ctx).minting_account.public_max),
                ..old(ctx).minting_account
            },
            ..*old(ctx)
        }),
{
    is_admin(&ctx.minting_account, &ctx.admin)?;
    if new_og_amount > 0 {
        ctx.minting_account.og_max = new_og_amount;
    }
    if new_wl_amount > 0 {
        ctx.minting_account.wl_max = new_wl_amount;
    }
    if new_public_amount > 0 {
        ctx.minting_account.public_max = new_public_amount;
    }
    Ok(())
}

/// Moves to `new_stage` when it is one of the three legal stages; any other
/// value is ignored without an error.
pub fn set_stage(ctx: &mut CommonSt, new_stage: i8) -> (r: Result<(), RequestError>)
    ensures
        r == admin_gate(old(ctx).minting_account.admin_key, old(ctx).admin),
        r is Err || !legal_stage(new_stage) ==> *final(ctx) == *old(ctx),
        r is Ok && legal_stage(new_stage) ==> *final(ctx) == (CommonSt {
            minting_account: MintingAccount { cur_stage: new_stage, ..old(ctx).minting_account },
            ..*old(ctx)
        }),
{
    is_admin(&ctx.minting_account, &ctx.admin)?;
    if new_stage > -1 && new_stage < 3 {
        ctx.minting_account.cur_stage = new_stage;
    }
    Ok(())
}

/// Replaces the base path of the metadata locations.
pub fn set_uri(ctx: &mut CommonSt, new_uri: String) -> (r: Result<(), RequestError>)
    ensures
        r == admin_gate(old(ctx).minting_account.admin_key, old(ctx).admin),
        r is Err ==> *final(ctx) == *old(ctx),
        r is Ok ==> *final(ctx) == (CommonSt {
            minting_account: MintingAccount { base_uri: new_uri, ..old(ctx).minting_account },
            ..*old(ctx)
        }),
{
    is_admin(&ctx.minting_account, &ctx.admin)?;
    ctx.minting_account.base_uri = new_uri;
    Ok(())
}

} // verus!
