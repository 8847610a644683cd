use anchor_lang::solana_program::instruction::Instruction;
use anchor_lang::solana_program::pubkey::Pubkey;
use anchor_lang::solana_program::system_instruction;
#[allow(deprecated)]
use mpl_token_metadata::instruction::{create_master_edition_v3, create_metadata_accounts_v2};
use mpl_token_metadata::state::Creator;
use wallet_nft_minting::config::{
    initialize, is_admin, set_stage, set_uri, update_amount, update_price, CommonSt, Initialize,
    MintingAccount, STAGE_ALLOWLIST, STAGE_DISABLED, STAGE_PUBLIC,
};
use wallet_nft_minting::error::{MintError, RequestError};
use wallet_nft_minting::key::Key;
use wallet_nft_minting::mint::{mint_nft, MintNFT, UserMintingAccount};
use wallet_nft_minting::uri::{decimal_string, metadata_uri};
use wallet_nft_minting::registry::{
    add_og_list, add_wl_list, remove_og_list, remove_wl_list, CreateOriginalList, CreateWhiteList,
    OriginalList, RemoveOriginalList, RemoveWhiteList, WhiteList,
};
use wallet_nft_minting::resolver::{resolve, resolve_tier, Tier};

fn key(b: u8) -> Key {
    Key::new([b; 32])
}

fn pk(b: u8) -> Pubkey {
    Pubkey::new_from_array([b; 32])
}

/// The metadata registration the walkthrough's requests hand out.
fn expected_metadata(payer: u8, name: &str, uri: &str) -> Instruction {
    let creators = vec![
        Creator { address: pk(40), verified: false, share: 100 },
        Creator { address: pk(20), verified: false, share: 0 },
    ];
    create_metadata_accounts_v2(
        pk(25),
        pk(22),
        pk(21),
        pk(20),
        pk(payer),
        pk(payer),
        name.to_string(),
        "symb".to_string(),
        uri.to_string(),
        Some(creators),
        1,
        true,
        false,
        None,
        None,
    )
}

const ADMIN: u8 = 1;
const CONFIG: u8 = 2;

/// The configuration of the walkthrough: supply 2, primary and secondary caps
/// of 1, no public units, prices 10, 20 and 0.
fn scenario_config() -> MintingAccount {
    let mut init = Initialize { minting_account: None, initializer: key(ADMIN) };
    assert_eq!(initialize(&mut init, key(9), 2, 1, 1, 0, 10, 20, 0), Ok(()));
    init.minting_account.unwrap()
}

fn with_stage(config: MintingAccount, stage: i8) -> MintingAccount {
    let mut ctx = CommonSt { minting_account: config, admin: key(ADMIN) };
    assert_eq!(set_stage(&mut ctx, stage), Ok(()));
    ctx.minting_account
}

fn og_entry(user: Key) -> Option<OriginalList> {
    Some(OriginalList { user, minting_account: key(CONFIG), initializer: key(ADMIN), count: 1 })
}

fn wl_entry(user: Key) -> Option<WhiteList> {
    Some(WhiteList { user, minting_account: key(CONFIG), initializer: key(ADMIN), count: 1 })
}

fn request(
    config: MintingAccount,
    payer: Key,
    og: Option<OriginalList>,
    wl: Option<WhiteList>,
    minted: u64,
    lamports: u64,
) -> MintNFT {
    MintNFT {
        mint_authority: key(20),
        mint: key(21),
        metadata: key(22),
        token_account: key(23),
        payer,
        payer_lamports: lamports,
        owner: key(ADMIN),
        minting_key: key(CONFIG),
        minting_account: config,
        wl_list: wl,
        og_list: og,
        user_minting_counter_account: UserMintingAccount { cur_num: minted },
        master_edition: key(24),
        token_metadata_program: key(25),
    }
}

#[test]
fn initialize_sets_defaults() {
    let c = scenario_config();
    assert_eq!(c.admin_key, key(ADMIN));
    assert_eq!(c.authorized_creator, key(9));
    assert_eq!(c.max_supply, 2);
    assert_eq!((c.og_max, c.wl_max, c.public_max), (1, 1, 0));
    assert_eq!((c.og_price, c.wl_price, c.public_price), (10, 20, 0));
    assert_eq!(c.cur_num, 0);
    assert_eq!(c.cur_stage, STAGE_DISABLED);
    assert!(!c.freeze_program);
    assert_eq!(c.base_uri, "");
}

#[test]
fn initialize_twice_is_refused() {
    let mut init = Initialize { minting_account: Some(scenario_config()), initializer: key(7) };
    assert_eq!(initialize(&mut init, key(9), 5, 5, 5, 5, 1, 1, 1), Err(RequestError::AccountInUse));
    assert_eq!(init.minting_account.unwrap().max_supply, 2);
}

#[test]
fn only_admin_passes_gate() {
    let c = scenario_config();
    assert_eq!(is_admin(&c, &key(ADMIN)), Ok(()));
    assert_eq!(is_admin(&c, &key(3)), Err(RequestError::Mint(MintError::NotAllowed)));
}

#[test]
fn update_price_zero_keeps_other_tiers() {
    let mut ctx = CommonSt { minting_account: scenario_config(), admin: key(ADMIN) };
    assert_eq!(update_price(&mut ctx, 0, 7, 0), Ok(()));
    assert_eq!(ctx.minting_account.og_price, 10);
    assert_eq!(ctx.minting_account.wl_price, 7);
    assert_eq!(ctx.minting_account.public_price, 0);
}

#[test]
fn update_price_by_stranger_is_refused() {
    let mut ctx = CommonSt { minting_account: scenario_config(), admin: key(3) };
    assert_eq!(update_price(&mut ctx, 1, 2, 3), Err(RequestError::Mint(MintError::NotAllowed)));
    assert_eq!(ctx.minting_account.og_price, 10);
}

#[test]
fn update_amount_zero_keeps_other_caps() {
    let mut ctx = CommonSt { minting_account: scenario_config(), admin: key(ADMIN) };
    assert_eq!(update_amount(&mut ctx, 4, 0, 6), Ok(()));
    assert_eq!((ctx.minting_account.og_max, ctx.minting_account.wl_max), (4, 1));
    assert_eq!(ctx.minting_account.public_max, 6);
}

#[test]
fn set_stage_out_of_range_is_ignored() {
    let mut ctx = CommonSt { minting_account: with_stage(scenario_config(), STAGE_ALLOWLIST), admin: key(ADMIN) };
    assert_eq!(set_stage(&mut ctx, 5), Ok(()));
    assert_eq!(ctx.minting_account.cur_stage, STAGE_ALLOWLIST);
    assert_eq!(set_stage(&mut ctx, -1), Ok(()));
    assert_eq!(ctx.minting_account.cur_stage, STAGE_ALLOWLIST);
    assert_eq!(set_stage(&mut ctx, STAGE_PUBLIC), Ok(()));
    assert_eq!(ctx.minting_account.cur_stage, STAGE_PUBLIC);
}

#[test]
fn set_uri_replaces_base() {
    let mut ctx = CommonSt { minting_account: scenario_config(), admin: key(ADMIN) };
    assert_eq!(set_uri(&mut ctx, String::from("https://x/")), Ok(()));
    assert_eq!(ctx.minting_account.base_uri, "https://x/");
}

#[test]
fn metadata_uri_appends_count() {
    assert_eq!(metadata_uri(&String::from("ipfs://b/"), 0), "ipfs://b/0.json");
    assert_eq!(metadata_uri(&String::from("u/"), 1234), "u/1234.json");
    assert_eq!(metadata_uri(&String::new(), u64::MAX), "18446744073709551615.json");
}

#[test]
fn add_and_remove_entries() {
    let mut add = CreateOriginalList {
        admin: key(ADMIN),
        minting_account: scenario_config(),
        minting_key: key(CONFIG),
        og_list: None,
    };
    assert_eq!(add_og_list(&mut add, key(5)), Ok(()));
    let e = add.og_list.unwrap();
    assert_eq!((e.user, e.minting_account, e.initializer, e.count), (key(5), key(CONFIG), key(ADMIN), 1));
    assert_eq!(add_og_list(&mut add, key(5)), Err(RequestError::AccountInUse));

    let mut stranger = RemoveOriginalList { initializer: key(3), minting_key: key(CONFIG), og_list: Some(e) };
    assert_eq!(remove_og_list(&mut stranger), Err(RequestError::ConstraintHasOne));
    assert!(stranger.og_list.is_some());
    let mut other = RemoveOriginalList { initializer: key(ADMIN), minting_key: key(8), og_list: Some(e) };
    assert_eq!(remove_og_list(&mut other), Err(RequestError::ConstraintRaw));
    let mut owner = RemoveOriginalList { initializer: key(ADMIN), minting_key: key(CONFIG), og_list: Some(e) };
    assert_eq!(remove_og_list(&mut owner), Ok(()));
    assert!(owner.og_list.is_none());
    assert_eq!(remove_og_list(&mut owner), Err(RequestError::AccountNotInitialized));
}

#[test]
fn secondary_entries_follow_the_same_rules() {
    let mut add = CreateWhiteList {
        admin: key(3),
        minting_account: scenario_config(),
        minting_key: key(CONFIG),
        wl_list: None,
    };
    assert_eq!(add_wl_list(&mut add, key(5)), Err(RequestError::Mint(MintError::NotAllowed)));
    assert!(add.wl_list.is_none());
    add.admin = key(ADMIN);
    assert_eq!(add_wl_list(&mut add, key(5)), Ok(()));
    let mut rm = RemoveWhiteList { initializer: key(ADMIN), minting_key: key(CONFIG), wl_list: add.wl_list };
    assert_eq!(remove_wl_list(&mut rm), Ok(()));
    assert!(rm.wl_list.is_none());
}

#[test]
fn entry_creator_removes_after_admin_change() {
    // The entry's creator is no longer the administrator, yet may remove it.
    let e = Some(WhiteList { user: key(5), minting_account: key(CONFIG), initializer: key(4), count: 1 });
    let mut rm = RemoveWhiteList { initializer: key(4), minting_key: key(CONFIG), wl_list: e };
    assert_eq!(remove_wl_list(&mut rm), Ok(()));
}

#[test]
fn both_lists_resolve_to_secondary() {
    let c = with_stage(scenario_config(), STAGE_ALLOWLIST);
    let t = resolve_tier(&c, true, true);
    assert_eq!((t.tier, t.price, t.cap), (Tier::Secondary, 20, 1));
    let t = resolve_tier(&c, true, false);
    assert_eq!((t.tier, t.price, t.cap), (Tier::Primary, 10, 1));
    let t = resolve_tier(&c, false, false);
    assert_eq!(t.tier, Tier::Public);
}

#[test]
fn resolve_rejects_invalid_stage_and_cap() {
    let mut c = with_stage(scenario_config(), STAGE_ALLOWLIST);
    assert_eq!(resolve(&c, true, false, 1), Err(MintError::NotAllowed));
    assert_eq!(resolve(&c, true, false, 0).map(|r| r.price), Ok(10));
    c.cur_stage = 7;
    assert_eq!(resolve(&c, true, false, 0), Err(MintError::InvalidStage));
}

#[test]
fn scenario_two_allowlist_mints() {
    let c = with_stage(scenario_config(), STAGE_ALLOWLIST);
    let a = key(30);
    assert_eq!(resolve(&c, true, false, 0).map(|r| r.tier), Ok(Tier::Primary));
    let mut req = request(c, a, og_entry(a), None, 0, 100);
    let plan = mint_nft(&mut req, key(40), String::from("First")).unwrap();
    assert_eq!(plan.transfer, system_instruction::transfer(&pk(30), &pk(ADMIN), 10));
    assert_eq!((plan.mint_to.mint, plan.mint_to.to, plan.mint_to.authority), (key(21), key(23), key(20)));
    assert_eq!(plan.mint_to.amount, 1);
    assert_eq!(plan.metadata, expected_metadata(30, "First", "0.json"));
    assert_eq!(
        plan.edition,
        create_master_edition_v3(pk(25), pk(24), pk(21), pk(30), pk(20), pk(22), pk(30), Some(0))
    );
    assert_eq!(req.minting_account.cur_num, 1);
    assert_eq!(req.user_minting_counter_account.cur_num, 1);
    assert_eq!(req.payer_lamports, 90);

    let b = key(31);
    assert_eq!(resolve(&req.minting_account, true, true, 0).map(|r| r.tier), Ok(Tier::Secondary));
    let mut req = request(req.minting_account, b, og_entry(b), wl_entry(b), 0, 100);
    let plan = mint_nft(&mut req, key(40), String::from("Second")).unwrap();
    assert_eq!(plan.transfer, system_instruction::transfer(&pk(31), &pk(ADMIN), 20));
    assert_eq!(plan.metadata, expected_metadata(31, "Second", "1.json"));
    assert_eq!(req.minting_account.cur_num, 2);

    // The supply is spent: any further request is refused.
    let mut req = request(req.minting_account, key(32), og_entry(key(32)), wl_entry(key(32)), 0, 100);
    assert_eq!(mint_nft(&mut req, key(40), String::from("Third")).err(), Some(RequestError::Mint(MintError::NotAllowed)));
    assert_eq!(req.minting_account.cur_num, 2);
}

#[test]
fn disabled_stage_refuses_everyone() {
    let c = scenario_config();
    let a = key(30);
    let mut req = request(c, a, og_entry(a), wl_entry(a), 0, 1000);
    assert_eq!(mint_nft(&mut req, key(40), String::from("x")).err(), Some(RequestError::Mint(MintError::NotActive)));
}

#[test]
fn non_member_under_allowlist_is_refused() {
    let c = with_stage(scenario_config(), STAGE_ALLOWLIST);
    let mut req = request(c, key(33), None, None, 0, 1000);
    assert_eq!(mint_nft(&mut req, key(40), String::from("x")).err(), Some(RequestError::Mint(MintError::NotAllowed)));
}

#[test]
fn entry_of_another_user_is_no_membership() {
    let c = with_stage(scenario_config(), STAGE_ALLOWLIST);
    let mut req = request(c, key(33), og_entry(key(30)), None, 0, 1000);
    assert_eq!(mint_nft(&mut req, key(40), String::from("x")).err(), Some(RequestError::Mint(MintError::NotAllowed)));
}

#[test]
fn rejection_repeats_unchanged() {
    let c = with_stage(scenario_config(), STAGE_ALLOWLIST);
    let a = key(30);
    let mut req = request(c, a, og_entry(a), None, 0, 5);
    for _ in 0..3 {
        assert_eq!(mint_nft(&mut req, key(40), String::from("x")).err(), Some(RequestError::Mint(MintError::InsufficientFunds)));
        assert_eq!(req.payer_lamports, 5);
        assert_eq!(req.minting_account.cur_num, 0);
    }
}

#[test]
fn recipient_must_be_admin() {
    let c = with_stage(scenario_config(), STAGE_ALLOWLIST);
    let a = key(30);
    let mut req = request(c, a, og_entry(a), None, 0, 100);
    req.owner = key(3);
    assert_eq!(mint_nft(&mut req, key(40), String::from("x")).err(), Some(RequestError::Mint(MintError::NotAllowed)));
}

#[test]
fn frozen_configuration_refuses() {
    let mut c = with_stage(scenario_config(), STAGE_ALLOWLIST);
    c.freeze_program = true;
    let a = key(30);
    let mut req = request(c, a, og_entry(a), None, 0, 100);
    assert_eq!(mint_nft(&mut req, key(40), String::from("x")).err(), Some(RequestError::ConstraintRaw));
}

#[test]
fn public_stage_uses_public_tier() {
    let mut c = with_stage(scenario_config(), STAGE_PUBLIC);
    c.public_max = 1;
    c.public_price = 3;
    let a = key(30);
    let mut req = request(c, a, og_entry(a), wl_entry(a), 0, 100);
    let plan = mint_nft(&mut req, key(40), String::from("x")).unwrap();
    assert_eq!(plan.transfer, system_instruction::transfer(&pk(30), &pk(ADMIN), 3));
    assert_eq!(req.user_minting_counter_account.cur_num, 1);
    // The payer's cap of one is reached.
    assert_eq!(mint_nft(&mut req, key(40), String::from("y")).err(), Some(RequestError::Mint(MintError::NotAllowed)));
}

#[test]
fn decimal_string_digits() {
    assert_eq!(decimal_string(0), "0");
    assert_eq!(decimal_string(7), "7");
    assert_eq!(decimal_string(1090), "1090");
    assert_eq!(decimal_string(u64::MAX), "18446744073709551615");
}

#[test]
fn initialize_on_empty_slot_then_walkthrough_setters() {
    let mut ctx = CommonSt { minting_account: scenario_config(), admin: key(ADMIN) };
    assert_eq!(set_stage(&mut ctx, STAGE_ALLOWLIST), Ok(()));
    assert_eq!(set_stage(&mut ctx, 5), Ok(()));
    assert_eq!(ctx.minting_account.cur_stage, STAGE_ALLOWLIST);
    assert_eq!(update_price(&mut ctx, 0, 7, 0), Ok(()));
    assert_eq!((ctx.minting_account.og_price, ctx.minting_account.wl_price, ctx.minting_account.public_price), (10, 7, 0));
    assert_eq!(ctx.minting_account.max_supply, 2);
}
