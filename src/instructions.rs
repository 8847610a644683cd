use vstd::prelude::*;

use anchor_lang::solana_program::instruction::Instruction;
use anchor_lang::solana_program::pubkey::Pubkey;
use anchor_lang::solana_program::system_instruction;
#[allow(deprecated)]
use mpl_token_metadata::instruction::{create_master_edition_v3, create_metadata_accounts_v2};
use mpl_token_metadata::state::Creator as MetadataCreator;

use crate::key::Key;

verus! {

/// A ledger instruction; the library builds and carries it, never reads it.
#[verifier::external_type_specification]
#[verifier::external_body]
pub struct ExInstruction(Instruction);

/// The system program's instruction that moves `lamports` from `from` to `to`.
pub uninterp spec fn transfer_instruction(from: Key, to: Key, lamports: u64) -> Instruction;

/// Relies on `solana_program::system_instruction::transfer`, which builds the
/// instruction from its three arguments alone.
#[verifier::external_body]
pub(crate) fn build_transfer(from: &Key, to: &Key, lamports: u64) -> (r: Instruction)
    ensures
        r == transfer_instruction(*from, *to, lamports),
{
    system_instruction::transfer(
        &Pubkey::new_from_array(from.bytes),
        &Pubkey::new_from_array(to.bytes),
        lamports,
    )
}

/// A creator listed in a metadata record; `share` is a percentage.
#[derive(Clone, Copy, Debug)]
pub struct Creator {
    pub address: Key,
    pub verified: bool,
    pub share: u8,
}

/// The accounts of a metadata registration.
#[derive(Clone, Copy, Debug)]
pub struct MetadataKeys {
    pub metadata: Key,
    pub mint: Key,
    pub mint_authority: Key,
    pub payer: Key,
    pub update_authority: Key,
}

/// The accounts and the print limit of an edition registration.
#[derive(Clone, Copy, Debug)]
pub struct EditionArgs {
    pub edition: Key,
    pub mint: Key,
    pub update_authority: Key,
    pub mint_authority: Key,
    pub metadata: Key,
    pub payer: Key,
    pub max_supply: Option<u64>,
}

/// The metadata program's instruction that registers a descriptive record,
/// with no collection and no uses.
pub uninterp spec fn metadata_instruction(
    program: Key,
    keys: MetadataKeys,
    name: Seq<char>,
    symbol: Seq<char>,
    uri: Seq<char>,
    creators: Seq<Creator>,
    seller_fee_basis_points: u16,
    update_authority_is_signer: bool,
    is_mutable: bool,
) -> Instruction;

/// The metadata program's instruction that registers a master edition.
pub uninterp spec fn edition_instruction(program: Key, args: EditionArgs) -> Instruction;

/// Whether a text fits the encoder's 32-bit length prefix: a character takes
/// at most four bytes.
pub open spec fn encodable(s: Seq<char>) -> bool {
    4 * s.len() <= u32::MAX
}

/// Relies on `mpl_token_metadata::instruction::create_metadata_accounts_v2`,
/// which builds the instruction from its arguments alone. It encodes each text
/// and the creator list behind a 32-bit length and panics beyond that.
#[verifier::external_body]
#[allow(deprecated)]
pub(crate) fn build_metadata(
    program: &Key,
    k: &MetadataKeys,
    name: String,
    symbol: String,
    uri: String,
    creators: &Vec<Creator>,
    seller_fee_basis_points: u16,
    update_authority_is_signer: bool,
    is_mutable: bool,
) -> (r: Instruction)
    requires
        encodable(name@),
        encodable(symbol@),
        encodable(uri@),
        creators@.len() <= u32::MAX,
    ensures
        r == metadata_instruction(
            *program,
            *k,
            name@,
            symbol@,
            uri@,
            creators@,
            seller_fee_basis_points,
            update_authority_is_signer,
            is_mutable,
        ),
{
    let pk = |k: &Key| Pubkey::new_from_array(k.bytes);
    let list = creators.iter().map(
        |c| MetadataCreator { address: pk(&c.address), verified: c.verified, share: c.share },
    ).collect();
    create_metadata_accounts_v2(pk(program), pk(&k.metadata), pk(&k.mint), pk(&k.mint_authority),
        pk(&k.payer), pk(&k.update_authority), name, symbol, uri, Some(list),
        seller_fee_basis_points, update_authority_is_signer, is_mutable, None, None)
}

/// Relies on `mpl_token_metadata::instruction::create_master_edition_v3`,
/// which builds the instruction from its arguments alone.
#[verifier::external_body]
pub(crate) fn build_edition(program: &Key, a: &EditionArgs) -> (r: Instruction)
    ensures
        r == edition_instruction(*program, *a),
{
    let pk = |k: &Key| Pubkey::new_from_array(k.bytes);
    create_master_edition_v3(pk(program), pk(&a.edition), pk(&a.mint), pk(&a.update_authority),
        pk(&a.mint_authority), pk(&a.metadata), pk(&a.payer), a.max_supply)
}

} // verus!
