use vstd::prelude::*;

use crate::config::{admin_gate, is_admin, MintingAccount};
use crate::error::RequestError;
use crate::key::Key;

verus! {

/// A membership record of the secondary allowlist. Its existence is the proof
/// of membership.
#[derive(Clone, Copy, Debug)]
pub struct WhiteList {
    pub user: Key,
    /// The configuration the entry belongs to.
    pub minting_account: Key,
    /// The administrator who granted the entry; only they may remove it.
    pub initializer: Key,
    pub count: u64,
}

/// A membership record of the primary allowlist.
#[derive(Clone, Copy, Debug)]
pub struct OriginalList {
    pub user: Key,
    pub minting_account: Key,
    pub initializer: Key,
    pub count: u64,
}

/// Whether `entry` proves that `user` is on the secondary list of the
/// configuration `config`.
pub open spec fn wl_member(entry: Option<WhiteList>, config: Key, user: Key) -> bool {
    &&& entry is Some
    &&& entry->Some_0.user == user
    &&& entry->Some_0.minting_account == config
    &&& entry->Some_0.count == 1
}

/// Whether `entry` proves that `user` is on the primary list of the
/// configuration `config`.
pub open spec fn og_member(entry: Option<OriginalList>, config: Key, user: Key) -> bool {
    &&& entry is Some
    &&& entry->Some_0.user == user
    &&& entry->Some_0.minting_account == config
    &&& entry->Some_0.count == 1
}

pub fn is_wl_member(entry: &Option<WhiteList>, config: &Key, user: &Key) -> (r: bool)
    ensures
        r == wl_member(*entry, *config, *user),
{
    match entry {
        Some(e) => e.user == *user && e.minting_account == *config && e.count == 1,
        None => false,
    }
}

pub fn is_og_member(entry: &Option<OriginalList>, config: &Key, user: &Key) -> (r: bool)
    ensures
        r == og_member(*entry, *config, *user),
{
    match entry {
        Some(e) => e.user == *user && e.minting_account == *config && e.count == 1,
        None => false,
    }
}

/// The accounts for granting a secondary-list entry: the record slot kept for
/// (configuration, user), empty unless the entry exists.
pub struct CreateWhiteList {
    pub admin: Key,
    pub minting_account: MintingAccount,
    pub minting_key: Key,
    pub wl_list: Option<WhiteList>,
}

/// The accounts for removing a secondary-list entry.
pub struct RemoveWhiteList {
    pub initializer: Key,
    pub minting_key: Key,
    pub wl_list: Option<WhiteList>,
}

/// The accounts for granting a primary-list entry.
pub struct CreateOriginalList {
    pub admin: Key,
    pub minting_account: MintingAccount,
    pub minting_key: Key,
    pub og_list: Option<OriginalList>,
}

/// The accounts for removing a primary-list entry.
pub struct RemoveOriginalList {
    pub initializer: Key,
    pub minting_key: Key,
    pub og_list: Option<OriginalList>,
}

/// Puts `user` on the secondary list; only the administrator may, and only
/// once per user.
pub fn add_wl_list(ctx: &mut CreateWhiteList, user: Key) -> (r: Result<(), RequestError>)
    ensures
        r == (if old(ctx).wl_list is Some {
            Err(RequestError::AccountInUse)
        } else {
            admin_gate(old(ctx).minting_account.admin_key, old(ctx).admin)
        }),
        r is Err ==> *final(ctx) == *old(ctx),
        r is Ok ==> *final(ctx) == (CreateWhiteList {
            wl_list: Some(
                WhiteList {
                    user,
                    minting_account: old(ctx).minting_key,
                    initializer: old(ctx).admin,
                    count: 1,
                },
            ),
            ..*old(ctx)
        }),
        r is Ok ==> wl_member(final(ctx).wl_list, old(ctx).minting_key, user),
{
    if ctx.wl_list.is_some() {
        return Err(RequestError::AccountInUse);
    }
    is_admin(&ctx.minting_account, &ctx.admin)?;
    ctx.wl_list = Some(
        WhiteList { user, minting_account: ctx.minting_key, initializer: ctx.admin, count: 1 },
    );
    Ok(())
}

/// The outcome of removing an entry, granted by `initializer` in configuration
/// `owner`, on behalf of `caller` under configuration `config`.
pub open spec fn removal_gate(present: bool, initializer: Key, owner: Key, caller: Key, config: Key)
    -> Result<(), RequestError> {
    if !present {
        Err(RequestError::AccountNotInitialized)
    } else if initializer != caller {
        Err(RequestError::ConstraintHasOne)
    } else if owner != config {
        Err(RequestError::ConstraintRaw)
    } else {
        Ok(())
    }
}

/// Removes a secondary-list entry; only the one who granted it may, whoever
/// administers the configuration now.
pub fn remove_wl_list(ctx: &mut RemoveWhiteList) -> (r: Result<(), RequestError>)
    ensures
        r == removal_gate(
            old(ctx).wl_list is Some,
            old(ctx).wl_list->Some_0.initializer,
            old(ctx).wl_list->Some_0.minting_account,
            old(ctx).initializer,
            old(ctx).minting_key,
        ),
        r is Err ==> *final(ctx) == *old(ctx),
        r is Ok ==> *final(ctx) == (RemoveWhiteList { wl_list: None, ..*old(ctx) }),
{
    match ctx.wl_list {
        None => Err(RequestError::AccountNotInitialized),
        Some(e) => {
            if e.initializer != ctx.initializer {
                return Err(RequestError::ConstraintHasOne);
            }
            if e.minting_account != ctx.minting_key {
                return Err(RequestError::ConstraintRaw);
            }
            ctx.wl_list = None;
            Ok(())
        },
    }
}

/// Puts `user` on the primary list; only the administrator may, and only
/// once per user.
pub fn add_og_list(ctx: &mut CreateOriginalList, user: Key) -> (r: Result<(), RequestError>)
    ensures
        r == (if old(ctx).og_list is Some {
            Err(RequestError::AccountInUse)
        } else {
            admin_gate(old(ctx).minting_account.admin_key, old(ctx).admin)
        }),
        r is Err ==> *final(ctx) == *old(ctx),
        r is Ok ==> *final(ctx) == (CreateOriginalList {
            og_list: Some(
                OriginalList {
                    user,
                    minting_account: old(ctx).minting_key,
                    initializer: old(ctx).admin,
                    count: 1,
                },
            ),
            ..*old(ctx)
        }),
        r is Ok ==> og_member(final(ctx).og_list, old(ctx).minting_key, user),
{
    if ctx.og_list.is_some() {
        return Err(RequestError::AccountInUse);
    }
    is_admin(&ctx.minting_account, &ctx.admin)?;
    ctx.og_list = Some(
        OriginalList { user, minting_account: ctx.minting_key, initializer: ctx.admin, count: 1 },
    );
    Ok(())
}

/// Removes a primary-list entry; only the one who granted it may.
pub fn remove_og_list(ctx: &mut RemoveOriginalList) -> (r: Result<(), RequestError>)
    ensures
        r == removal_gate(
            old(ctx).og_list is Some,
            old(ctx).og_list->Some_0.initializer,
            old(ctx).og_list->Some_0.minting_account,
            old(ctx).initializer,
            old(ctx).minting_key,
        ),
        r is Err ==> *final(ctx) == *old(ctx),
        r is Ok ==> *final(ctx) == (RemoveOriginalList { og_list: None, ..*old(ctx) }),
{
    match ctx.og_list {
        None => Err(RequestError::AccountNotInitialized),
        Some(e) => {
            if e.initializer != ctx.initializer {
                return Err(RequestError::ConstraintHasOne);
            }
            if e.minting_account != ctx.minting_key {
                return Err(RequestError::ConstraintRaw);
            }
            ctx.og_list = None;
            Ok(())
        },
    }
}

} // verus!
