use vstd::prelude::*;

use anchor_lang::solana_program::instruction::Instruction;

use crate::config::MintingAccount;
use crate::error::{MintError, RequestError};
use crate::instructions::{
    build_edition, build_metadata, build_transfer, edition_instruction, metadata_instruction,
    encodable, transfer_instruction, Creator, EditionArgs, MetadataKeys,
};
use crate::key::Key;
use crate::registry::{is_og_member, is_wl_member, og_member, wl_member, OriginalList, WhiteList};
use crate::resolver::{eligibility, resolve, Resolution};
use crate::uri::{metadata_uri, uri_base_encodable, uri_for};

verus! {

/// Units minted so far by one paying user, over all tiers.
#[derive(Clone, Copy, Debug)]
pub struct UserMintingAccount {
    pub cur_num: u64,
}

/// The accounts and balances one mint request works on.
pub struct MintNFT {
    /// Signs as the issuance authority.
    pub mint_authority: Key,
    /// The asset's mint.
    pub mint: Key,
    /// The metadata record to attach.
    pub metadata: Key,
    /// The payer's holding account that receives the unit.
    pub token_account: Key,
    pub payer: Key,
    /// The payer's available balance.
    pub payer_lamports: u64,
    /// The recipient of the payment; must be the administrator.
    pub owner: Key,
    /// The configuration's own identity.
    pub minting_key: Key,
    pub minting_account: MintingAccount,
    /// The secondary-list record handed in with the request, if any.
    pub wl_list: Option<WhiteList>,
    /// The primary-list record handed in with the request, if any.
    pub og_list: Option<OriginalList>,
    /// The payer's counter; a fresh one holds zero.
    pub user_minting_counter_account: UserMintingAccount,
    /// The edition record that finalizes the asset.
    pub master_edition: Key,
    /// The metadata program.
    pub token_metadata_program: Key,
}

/// Issuance of `amount` units of `mint` into `to`.
#[derive(Clone, Copy, Debug)]
pub struct MintTo {
    pub mint: Key,
    pub to: Key,
    pub authority: Key,
    pub amount: u64,
}

/// The outside effects of an accepted mint, to be carried out in this order:
/// payment, issuance, metadata, edition.
pub struct MintPlan {
    pub transfer: Instruction,
    pub mint_to: MintTo,
    pub metadata: Instruction,
    pub edition: Instruction,
}

/// Whether the payer holds a primary entry of this configuration.
pub open spec fn is_primary(ctx: MintNFT) -> bool {
    og_member(ctx.og_list, ctx.minting_key, ctx.payer)
}

/// Whether the payer holds a secondary entry of this configuration.
pub open spec fn is_secondary(ctx: MintNFT) -> bool {
    wl_member(ctx.wl_list, ctx.minting_key, ctx.payer)
}

/// Every check of a mint request, in order: the configuration is not frozen,
/// the resolver accepts, the recipient is the administrator, the payer can
/// afford the price.
pub open spec fn mint_check(ctx: MintNFT) -> Result<Resolution, RequestError> {
    if ctx.minting_account.freeze_program {
        Err(RequestError::ConstraintRaw)
    } else {
        match eligibility(
            ctx.minting_account,
            is_primary(ctx),
            is_secondary(ctx),
            ctx.user_minting_counter_account.cur_num,
        ) {
            Err(e) => Err(RequestError::Mint(e)),
            Ok(res) => {
                if ctx.minting_account.admin_key != ctx.owner {
                    Err(RequestError::Mint(MintError::NotAllowed))
                } else if ctx.payer_lamports < res.price {
                    Err(RequestError::Mint(MintError::InsufficientFunds))
                } else {
                    Ok(res)
                }
            },
        }
    }
}

/// The state after a mint request: on acceptance the price leaves the payer
/// and both counters grow by one; on rejection nothing changes.
pub open spec fn mint_next(ctx: MintNFT) -> MintNFT {
    match mint_check(ctx) {
        Ok(res) => MintNFT {
            payer_lamports: (ctx.payer_lamports - res.price) as u64,
            minting_account: MintingAccount {
                cur_num: (ctx.minting_account.cur_num + 1) as u64,
                ..ctx.minting_account
            },
            user_minting_counter_account: UserMintingAccount {
                cur_num: (ctx.user_minting_counter_account.cur_num + 1) as u64,
            },
            ..ctx
        },
        Err(_) => ctx,
    }
}

/// The accounts of the metadata registration: the payer also holds the
/// update authority.
pub open spec fn metadata_keys(ctx: MintNFT) -> MetadataKeys {
    MetadataKeys {
        metadata: ctx.metadata,
        mint: ctx.mint,
        mint_authority: ctx.mint_authority,
        payer: ctx.payer,
        update_authority: ctx.payer,
    }
}

/// The edition registration: no further prints may ever be made.
pub open spec fn edition_args(ctx: MintNFT) -> EditionArgs {
    EditionArgs {
        edition: ctx.master_edition,
        mint: ctx.mint,
        update_authority: ctx.payer,
        mint_authority: ctx.mint_authority,
        metadata: ctx.metadata,
        payer: ctx.payer,
        max_supply: Some(0),
    }
}

/// The effects an accepted request hands out, from the state before it.
pub open spec fn plan_for(
    p: MintPlan,
    ctx: MintNFT,
    res: Resolution,
    creator_key: Key,
    title: Seq<char>,
) -> bool {
    &&& p.transfer == transfer_instruction(ctx.payer, ctx.owner, res.price)
    &&& p.mint_to == MintTo {
        mint: ctx.mint,
        to: ctx.token_account,
        authority: ctx.mint_authority,
        amount: 1,
    }
    &&& p.metadata == metadata_instruction(
        ctx.token_metadata_program,
        metadata_keys(ctx),
        title,
        "symb"@,
        uri_for(ctx.minting_account.base_uri@, ctx.minting_account.cur_num as nat),
        seq![
            Creator { address: creator_key, verified: false, share: 100 },
            Creator { address: ctx.mint_authority, verified: false, share: 0 },
        ],
        1,
        true,
        false,
    )
    &&& p.edition == edition_instruction(ctx.token_metadata_program, edition_args(ctx))
}

/// Decides a mint request. On acceptance it charges the payer, counts the
/// unit for the payer and in the total, and returns the outside effects to
/// carry out; the host commits the new state only if all of them succeed.
/// On rejection the state is left as it was.
pub fn mint_nft(ctx: &mut MintNFT, creator_key: Key, title: String) -> (r: Result<
    MintPlan,
    RequestError,
>)
    requires
        encodable(title@),
        uri_base_encodable(old(ctx).minting_account.base_uri@),
    ensures
        r is Ok <==> mint_check(*old(ctx)) is Ok,
        r is Err ==> mint_check(*old(ctx)) == Err::<Resolution, RequestError>(r->Err_0),
        r is Ok ==> plan_for(r->Ok_0, *old(ctx), mint_check(*old(ctx))->Ok_0, creator_key, title@),
        *final(ctx) == mint_next(*old(ctx)),
{
    if ctx.minting_account.freeze_program {
        return Err(RequestError::ConstraintRaw);
    }
    let primary = is_og_member(&ctx.og_list, &ctx.minting_key, &ctx.payer);
    let secondary = is_wl_member(&ctx.wl_list, &ctx.minting_key, &ctx.payer);
    let res = match resolve(
        &ctx.minting_account,
        primary,
        secondary,
        ctx.user_minting_counter_account.cur_num,
    ) {
        Ok(t) => t,
        Err(e) => return Err(RequestError::Mint(e)),
    };
    if ctx.minting_account.admin_key != ctx.owner {
        return Err(RequestError::Mint(MintError::NotAllowed));
    }
    if ctx.payer_lamports < res.price {
        return Err(RequestError::Mint(MintError::InsufficientFunds));
    }
    let uri = metadata_uri(&ctx.minting_account.base_uri, ctx.minting_account.cur_num);
    let creators = vec![
        Creator { address: creator_key, verified: false, share: 100 },
        Creator { address: ctx.mint_authority, verified: false, share: 0 },
    ];
    let keys = MetadataKeys {
        metadata: ctx.metadata,
        mint: ctx.mint,
        mint_authority: ctx.mint_authority,
        payer: ctx.payer,
        update_authority: ctx.payer,
    };
    let edition = EditionArgs {
        edition: ctx.master_edition,
        mint: ctx.mint,
        update_authority: ctx.payer,
        mint_authority: ctx.mint_authority,
        metadata: ctx.metadata,
        payer: ctx.payer,
        max_supply: Some(0),
    };
    proof {
        reveal_strlit("symb");
    }
    let plan = MintPlan {
        transfer: build_transfer(&ctx.payer, &ctx.owner, res.price),
        mint_to: MintTo {
            mint: ctx.mint,
            to: ctx.token_account,
            authority: ctx.mint_authority,
            amount: 1,
        },
        metadata: build_metadata(
            &ctx.token_metadata_program,
            &keys,
            title,
            String::from_str("symb"),
            uri,
            &creators,
            1,
            true,
            false,
        ),
        edition: build_edition(&ctx.token_metadata_program, &edition),
    };
    ctx.payer_lamports = ctx.payer_lamports - res.price;
    ctx.user_minting_counter_account.cur_num = ctx.user_minting_counter_account.cur_num + 1;
    ctx.minting_account.cur_num = ctx.minting_account.cur_num + 1;
    Ok(plan)
}

} // verus!
