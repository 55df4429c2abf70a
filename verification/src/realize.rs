//! Realizing plans as real program instructions.
//!
//! The planning layer works over the library's own plain-value types. This
//! module is the trusted boundary to the outside instruction builders: each
//! wrapper makes one builder call, and each builder's result is named as a
//! function of the plain values it is built from, so `realize_instruction`
//! can promise that every planned instruction is realized by exactly the
//! builder call it stands for, with its fields in the right places.

use vstd::prelude::*;
use crate::addr::Address;
use crate::error::ClientError;
use crate::instruction::{FeeSchedule, PlannedInstruction, TransactionPlan};

verus! {

/// The packed byte length of a token mint's on-chain state.
pub const MINT_ACCOUNT_LEN: u64 = 82;

/// The packed byte length of a token account's on-chain state.
pub const TOKEN_ACCOUNT_LEN: u64 = 165;

#[verifier::external_type_specification]
#[verifier::external_body]
pub struct ExPubkey(solana_sdk::pubkey::Pubkey);

#[verifier::external_type_specification]
#[verifier::external_body]
pub struct ExInstruction(solana_sdk::instruction::Instruction);

#[verifier::external_type_specification]
#[verifier::external_body]
pub struct ExFees(spl_token_swap::curve::fees::Fees);

/// The four words a public key was assembled from. A key built by
/// `Pubkey::new_from_array` is exactly its 32 bytes, so this names the
/// inverse of that assembly.
pub uninterp spec fn pubkey_words(p: solana_sdk::pubkey::Pubkey) -> (u64, u64, u64, u64);

/// The eight fraction fields an outside fee schedule was assembled from.
pub uninterp spec fn fees_words(f: spl_token_swap::curve::fees::Fees) -> (u64, u64, u64, u64, u64, u64, u64, u64);

/// What solana_sdk::system_instruction::create_account returns: a function of
/// its arguments alone.
pub uninterp spec fn created_account_ix(funder: (u64, u64, u64, u64), new_account: (u64, u64, u64, u64), lamports: u64, space: u64, owner: (u64, u64, u64, u64)) -> solana_sdk::instruction::Instruction;

/// What spl_token::instruction::initialize_mint returns for the token
/// program's own id and no freeze authority: a function of its arguments alone.
pub uninterp spec fn initialize_mint_ix(mint: (u64, u64, u64, u64), authority: (u64, u64, u64, u64), decimals: u8) -> solana_sdk::instruction::Instruction;

/// What spl_token::instruction::initialize_account returns for the token
/// program's own id: a function of its arguments alone.
pub uninterp spec fn initialize_account_ix(account: (u64, u64, u64, u64), mint: (u64, u64, u64, u64), owner: (u64, u64, u64, u64)) -> solana_sdk::instruction::Instruction;

/// What spl_token::instruction::mint_to_checked returns for the token
/// program's own id and no multisig signers: a function of its arguments alone.
pub uninterp spec fn mint_to_checked_ix(mint: (u64, u64, u64, u64), account: (u64, u64, u64, u64), authority: (u64, u64, u64, u64), amount: u64, decimals: u8) -> solana_sdk::instruction::Instruction;

/// What spl_token::instruction::transfer_checked returns for the token
/// program's own id and no multisig signers: a function of its arguments alone.
pub uninterp spec fn transfer_checked_ix(source: (u64, u64, u64, u64), mint: (u64, u64, u64, u64), destination: (u64, u64, u64, u64), authority: (u64, u64, u64, u64), amount: u64, decimals: u8) -> solana_sdk::instruction::Instruction;

/// What spl_associated_token_account::instruction::create_associated_token_account
/// returns for the token program's own id: a function of its arguments alone.
pub uninterp spec fn create_associated_account_ix(funder: (u64, u64, u64, u64), recipient: (u64, u64, u64, u64), mint: (u64, u64, u64, u64)) -> solana_sdk::instruction::Instruction;

/// What spl_token::instruction::close_account returns for the token program's
/// own id and no multisig signers: a function of its arguments alone.
pub uninterp spec fn close_account_ix(account: (u64, u64, u64, u64), destination: (u64, u64, u64, u64), owner: (u64, u64, u64, u64)) -> solana_sdk::instruction::Instruction;

/// What spl_token_swap::instruction::initialize returns for the token
/// program's own id and the default constant-product curve: a function of its
/// arguments alone.
pub uninterp spec fn initialize_swap_ix(program: (u64, u64, u64, u64), swap: (u64, u64, u64, u64), authority: (u64, u64, u64, u64), token_a: (u64, u64, u64, u64), token_b: (u64, u64, u64, u64), pool_mint: (u64, u64, u64, u64), fee_account: (u64, u64, u64, u64), pool_supply_account: (u64, u64, u64, u64), fees: (u64, u64, u64, u64, u64, u64, u64, u64)) -> solana_sdk::instruction::Instruction;

/// What spl_token_swap::instruction::swap returns for the token program's own
/// id and no host fee account: a function of its arguments alone.
pub uninterp spec fn swap_ix(program: (u64, u64, u64, u64), swap: (u64, u64, u64, u64), authority: (u64, u64, u64, u64), user_transfer_authority: (u64, u64, u64, u64), source: (u64, u64, u64, u64), pool_source: (u64, u64, u64, u64), pool_destination: (u64, u64, u64, u64), destination: (u64, u64, u64, u64), pool_mint: (u64, u64, u64, u64), fee_account: (u64, u64, u64, u64), amount_in: u64, minimum_amount_out: u64) -> solana_sdk::instruction::Instruction;

/// The real instruction a planned instruction stands for.
pub open spec fn realized(ix: PlannedInstruction) -> solana_sdk::instruction::Instruction {
    match ix {
        PlannedInstruction::CreateAccount { funder, new_account, lamports, space, owner } =>
            created_account_ix(funder@, new_account@, lamports, space, owner@),
        PlannedInstruction::InitializeMint { mint, authority, decimals } =>
            initialize_mint_ix(mint@, authority@, decimals),
        PlannedInstruction::InitializeAccount { account, mint, owner } =>
            initialize_account_ix(account@, mint@, owner@),
        PlannedInstruction::MintToChecked { mint, account, authority, amount, decimals } =>
            mint_to_checked_ix(mint@, account@, authority@, amount, decimals),
        PlannedInstruction::TransferChecked { source, mint, destination, authority, amount, decimals } =>
            transfer_checked_ix(source@, mint@, destination@, authority@, amount, decimals),
        PlannedInstruction::CreateAssociatedAccount { funder, recipient, mint } =>
            create_associated_account_ix(funder@, recipient@, mint@),
        PlannedInstruction::CloseAccount { account, destination, owner } =>
            close_account_ix(account@, destination@, owner@),
        PlannedInstruction::InitializeSwap {
            program, swap, authority, token_a, token_b, pool_mint,
            fee_account, pool_supply_account, fees,
        } =>
            initialize_swap_ix(program@, swap@, authority@, token_a@, token_b@, pool_mint@, fee_account@, pool_supply_account@, fees@),
        PlannedInstruction::Swap {
            program, swap, authority, user_transfer_authority, source,
            pool_source, pool_destination, destination, pool_mint, fee_account,
            amount_in, minimum_amount_out,
        } =>
            swap_ix(program@, swap@, authority@, user_transfer_authority@, source@, pool_source@, pool_destination@, destination@, pool_mint@, fee_account@, amount_in, minimum_amount_out),
    }
}

/// Relies on Pubkey::new_from_array: a public key is exactly its 32 bytes,
/// assembled here from the address's four little-endian words.
#[verifier::external_body]
pub(crate) fn pubkey_of(a: &Address) -> (r: solana_sdk::pubkey::Pubkey)
    ensures
        pubkey_words(r) == a@,
{
    let mut b = [0u8; 32];
    b[0..8].copy_from_slice(&a.w0.to_le_bytes());
    b[8..16].copy_from_slice(&a.w1.to_le_bytes());
    b[16..24].copy_from_slice(&a.w2.to_le_bytes());
    b[24..32].copy_from_slice(&a.w3.to_le_bytes());
    solana_sdk::pubkey::Pubkey::new_from_array(b)
}

/// Relies on spl_token::state::Mint::LEN: a mint's packed state is 82 bytes.
#[verifier::external_body]
pub fn mint_account_len() -> (n: u64)
    ensures
        n == MINT_ACCOUNT_LEN,
{
    <spl_token::state::Mint as solana_sdk::program_pack::Pack>::LEN as u64
}

/// Relies on spl_token::state::Account::LEN: a token account's packed state
/// is 165 bytes.
#[verifier::external_body]
pub fn token_account_len() -> (n: u64)
    ensures
        n == TOKEN_ACCOUNT_LEN,
{
    <spl_token::state::Account as solana_sdk::program_pack::Pack>::LEN as u64
}

/// Relies on solana_sdk::system_instruction::create_account: it assembles the
/// system program's create-account instruction from its arguments alone and
/// cannot fail.
#[verifier::external_body]
fn build_create_account(
    funder: &solana_sdk::pubkey::Pubkey,
    new_account: &solana_sdk::pubkey::Pubkey,
    lamports: u64,
    space: u64,
    owner: &solana_sdk::pubkey::Pubkey,
) -> (r: solana_sdk::instruction::Instruction)
    ensures
        r == created_account_ix(pubkey_words(*funder), pubkey_words(*new_account), lamports, space, pubkey_words(*owner)),
{
    solana_sdk::system_instruction::create_account(funder, new_account, lamports, space, owner)
}

/// Relies on spl_token::instruction::initialize_mint: its result is a
/// function of its arguments alone, and it fails only when the token program
/// id it is given is not the token program's own; this body passes
/// spl_token::id() itself and no freeze authority.
#[verifier::external_body]
fn build_initialize_mint(
    mint: &solana_sdk::pubkey::Pubkey,
    authority: &solana_sdk::pubkey::Pubkey,
    decimals: u8,
) -> (r: Result<solana_sdk::instruction::Instruction, ClientError>)
    ensures
        r is Ok,
        r->Ok_0 == initialize_mint_ix(pubkey_words(*mint), pubkey_words(*authority), decimals),
{
    spl_token::instruction::initialize_mint(&spl_token::id(), mint, authority, None, decimals)
        .map_err(|_| ClientError::Program)
}

/// Relies on spl_token::instruction::initialize_account: its result is a
/// function of its arguments alone, and it fails only when the token program
/// id it is given is not the token program's own; this body passes
/// spl_token::id() itself.
#[verifier::external_body]
fn build_initialize_account(
    account: &solana_sdk::pubkey::Pubkey,
    mint: &solana_sdk::pubkey::Pubkey,
    owner: &solana_sdk::pubkey::Pubkey,
) -> (r: Result<solana_sdk::instruction::Instruction, ClientError>)
    ensures
        r is Ok,
        r->Ok_0 == initialize_account_ix(pubkey_words(*account), pubkey_words(*mint), pubkey_words(*owner)),
{
    spl_token::instruction::initialize_account(&spl_token::id(), account, mint, owner)
        .map_err(|_| ClientError::Program)
}

/// Relies on spl_token::instruction::mint_to_checked: its result is a
/// function of its arguments alone, and it fails only when the token program
/// id it is given is not the token program's own; this body passes
/// spl_token::id() itself and no multisig signers.
#[verifier::external_body]
fn build_mint_to_checked(
    mint: &solana_sdk::pubkey::Pubkey,
    account: &solana_sdk::pubkey::Pubkey,
    authority: &solana_sdk::pubkey::Pubkey,
    amount: u64,
    decimals: u8,
) -> (r: Result<solana_sdk::instruction::Instruction, ClientError>)
    ensures
        r is Ok,
        r->Ok_0 == mint_to_checked_ix(pubkey_words(*mint), pubkey_words(*account), pubkey_words(*authority), amount, decimals),
{
    spl_token::instruction::mint_to_checked(&spl_token::id(), mint, account, authority, &[], amount, decimals)
        .map_err(|_| ClientError::Program)
}

/// Relies on spl_token::instruction::transfer_checked: its result is a
/// function of its arguments alone, and it fails only when the token program
/// id it is given is not the token program's own; this body passes
/// spl_token::id() itself and no multisig signers.
#[verifier::external_body]
fn build_transfer_checked(
    source: &solana_sdk::pubkey::Pubkey,
    mint: &solana_sdk::pubkey::Pubkey,
    destination: &solana_sdk::pubkey::Pubkey,
    authority: &solana_sdk::pubkey::Pubkey,
    amount: u64,
    decimals: u8,
) -> (r: Result<solana_sdk::instruction::Instruction, ClientError>)
    ensures
        r is Ok,
        r->Ok_0 == transfer_checked_ix(pubkey_words(*source), pubkey_words(*mint), pubkey_words(*destination), pubkey_words(*authority), amount, decimals),
{
    spl_token::instruction::transfer_checked(&spl_token::id(), source, mint, destination, authority, &[], amount, decimals)
        .map_err(|_| ClientError::Program)
}

/// Relies on spl_associated_token_account::instruction::create_associated_token_account:
/// it assembles the associated-account creation instruction from its
/// arguments alone and cannot fail; this body passes spl_token::id() as the
/// token program.
#[verifier::external_body]
fn build_create_associated_account(
    funder: &solana_sdk::pubkey::Pubkey,
    recipient: &solana_sdk::pubkey::Pubkey,
    mint: &solana_sdk::pubkey::Pubkey,
) -> (r: solana_sdk::instruction::Instruction)
    ensures
        r == create_associated_account_ix(pubkey_words(*funder), pubkey_words(*recipient), pubkey_words(*mint)),
{
    spl_associated_token_account::instruction::create_associated_token_account(
        funder, recipient, mint, &spl_token::id())
}

/// Relies on spl_token::instruction::close_account: its result is a function
/// of its arguments alone, and it fails only when the token program id it is
/// given is not the token program's own; this body passes spl_token::id()
/// itself and no multisig signers.
#[verifier::external_body]
fn build_close_account(
    account: &solana_sdk::pubkey::Pubkey,
    destination: &solana_sdk::pubkey::Pubkey,
    owner: &solana_sdk::pubkey::Pubkey,
) -> (r: Result<solana_sdk::instruction::Instruction, ClientError>)
    ensures
        r is Ok,
        r->Ok_0 == close_account_ix(pubkey_words(*account), pubkey_words(*destination), pubkey_words(*owner)),
{
    spl_token::instruction::close_account(&spl_token::id(), account, destination, owner, &[])
        .map_err(|_| ClientError::Program)
}

/// Relies on spl_token_swap::curve::fees::Fees being the same eight
/// numerator and denominator fields this library's fee schedule holds, moved
/// one for one.
#[verifier::external_body]
fn fees_to_spl(f: &FeeSchedule) -> (r: spl_token_swap::curve::fees::Fees)
    ensures
        fees_words(r) == f@,
{
    spl_token_swap::curve::fees::Fees {
        trade_fee_numerator: f.trade_fee_numerator,
        trade_fee_denominator: f.trade_fee_denominator,
        owner_trade_fee_numerator: f.owner_trade_fee_numerator,
        owner_trade_fee_denominator: f.owner_trade_fee_denominator,
        owner_withdraw_fee_numerator: f.owner_withdraw_fee_numerator,
        owner_withdraw_fee_denominator: f.owner_withdraw_fee_denominator,
        host_fee_numerator: f.host_fee_numerator,
        host_fee_denominator: f.host_fee_denominator,
    }
}

/// Relies on spl_token_swap::instruction::initialize: its result is a
/// function of its arguments alone, it packs its inputs and never fails; this
/// body passes spl_token::id() and the default constant-product curve.
#[verifier::external_body]
fn build_initialize_swap(
    program: &solana_sdk::pubkey::Pubkey,
    swap: &solana_sdk::pubkey::Pubkey,
    authority: &solana_sdk::pubkey::Pubkey,
    token_a: &solana_sdk::pubkey::Pubkey,
    token_b: &solana_sdk::pubkey::Pubkey,
    pool_mint: &solana_sdk::pubkey::Pubkey,
    fee_account: &solana_sdk::pubkey::Pubkey,
    pool_supply_account: &solana_sdk::pubkey::Pubkey,
    fees: spl_token_swap::curve::fees::Fees,
) -> (r: Result<solana_sdk::instruction::Instruction, ClientError>)
    ensures
        r is Ok,
        r->Ok_0 == initialize_swap_ix(
            pubkey_words(*program), pubkey_words(*swap), pubkey_words(*authority),
            pubkey_words(*token_a), pubkey_words(*token_b), pubkey_words(*pool_mint),
            pubkey_words(*fee_account), pubkey_words(*pool_supply_account), fees_words(fees)),
{
    spl_token_swap::instruction::initialize(
        program, &spl_token::id(), swap, authority, token_a, token_b, pool_mint,
        fee_account, pool_supply_account, fees,
        spl_token_swap::curve::base::SwapCurve::default(),
    ).map_err(|_| ClientError::Program)
}

/// Relies on spl_token_swap::instruction::swap: its result is a function of
/// its arguments alone, it packs its inputs and never fails; this body passes
/// spl_token::id() and no host fee account.
#[verifier::external_body]
fn build_swap(
    program: &solana_sdk::pubkey::Pubkey,
    swap: &solana_sdk::pubkey::Pubkey,
    authority: &solana_sdk::pubkey::Pubkey,
    user_transfer_authority: &solana_sdk::pubkey::Pubkey,
    source: &solana_sdk::pubkey::Pubkey,
    pool_source: &solana_sdk::pubkey::Pubkey,
    pool_destination: &solana_sdk::pubkey::Pubkey,
    destination: &solana_sdk::pubkey::Pubkey,
    pool_mint: &solana_sdk::pubkey::Pubkey,
    fee_account: &solana_sdk::pubkey::Pubkey,
    amount_in: u64,
    minimum_amount_out: u64,
) -> (r: Result<solana_sdk::instruction::Instruction, ClientError>)
    ensures
        r is Ok,
        r->Ok_0 == swap_ix(
            pubkey_words(*program), pubkey_words(*swap), pubkey_words(*authority),
            pubkey_words(*user_transfer_authority), pubkey_words(*source),
            pubkey_words(*pool_source), pubkey_words(*pool_destination),
            pubkey_words(*destination), pubkey_words(*pool_mint),
            pubkey_words(*fee_account), amount_in, minimum_amount_out),
{
    spl_token_swap::instruction::swap(
        program, &spl_token::id(), swap, authority, user_transfer_authority,
        source, pool_source, pool_destination, destination, pool_mint,
        fee_account, None,
        spl_token_swap::instruction::Swap { amount_in, minimum_amount_out },
    ).map_err(|_| ClientError::Program)
}

/// Builds the real program instruction a planned instruction stands for:
/// exactly the named builder call on the planned fields, and it always
/// succeeds.
pub fn realize_instruction(ix: &PlannedInstruction) -> (r: Result<solana_sdk::instruction::Instruction, ClientError>)
    ensures
        r is Ok,
        r->Ok_0 == realized(*ix),
{
    match ix {
        PlannedInstruction::CreateAccount { funder, new_account, lamports, space, owner } => {
            let f = pubkey_of(funder);
            let n = pubkey_of(new_account);
            let o = pubkey_of(owner);
            Ok(build_create_account(&f, &n, *lamports, *space, &o))
        }
        PlannedInstruction::InitializeMint { mint, authority, decimals } => {
            let m = pubkey_of(mint);
            let a = pubkey_of(authority);
            build_initialize_mint(&m, &a, *decimals)
        }
        PlannedInstruction::InitializeAccount { account, mint, owner } => {
            let c = pubkey_of(account);
            let m = pubkey_of(mint);
            let o = pubkey_of(owner);
            build_initialize_account(&c, &m, &o)
        }
        PlannedInstruction::MintToChecked { mint, account, authority, amount, decimals } => {
            let m = pubkey_of(mint);
            let c = pubkey_of(account);
            let a = pubkey_of(authority);
            build_mint_to_checked(&m, &c, &a, *amount, *decimals)
        }
        PlannedInstruction::TransferChecked { source, mint, destination, authority, amount, decimals } => {
            let s = pubkey_of(source);
            let m = pubkey_of(mint);
            let d = pubkey_of(destination);
            let a = pubkey_of(authority);
            build_transfer_checked(&s, &m, &d, &a, *amount, *decimals)
        }
        PlannedInstruction::CreateAssociatedAccount { funder, recipient, mint } => {
            let f = pubkey_of(funder);
            let r = pubkey_of(recipient);
            let m = pubkey_of(mint);
            Ok(build_create_associated_account(&f, &r, &m))
        }
        PlannedInstruction::CloseAccount { account, destination, owner } => {
            let c = pubkey_of(account);
            let d = pubkey_of(destination);
            let o = pubkey_of(owner);
            build_close_account(&c, &d, &o)
        }
        PlannedInstruction::InitializeSwap {
            program, swap, authority, token_a, token_b, pool_mint,
            fee_account, pool_supply_account, fees,
        } => {
            let p = pubkey_of(program);
            let s = pubkey_of(swap);
            let au = pubkey_of(authority);
            let ta = pubkey_of(token_a);
            let tb = pubkey_of(token_b);
            let pm = pubkey_of(pool_mint);
            let fa = pubkey_of(fee_account);
            let ps = pubkey_of(pool_supply_account);
            let sf = fees_to_spl(fees);
            build_initialize_swap(&p, &s, &au, &ta, &tb, &pm, &fa, &ps, sf)
        }
        PlannedInstruction::Swap {
            program, swap, authority, user_transfer_authority, source,
            pool_source, pool_destination, destination, pool_mint, fee_account,
            amount_in, minimum_amount_out,
        } => {
            let p = pubkey_of(program);
            let s = pubkey_of(swap);
            let au = pubkey_of(authority);
            let ua = pubkey_of(user_transfer_authority);
            let so = pubkey_of(source);
            let pso = pubkey_of(pool_source);
            let pde = pubkey_of(pool_destination);
            let de = pubkey_of(destination);
            let pm = pubkey_of(pool_mint);
            let fa = pubkey_of(fee_account);
            build_swap(&p, &s, &au, &ua, &so, &pso, &pde, &de, &pm, &fa, *amount_in, *minimum_amount_out)
        }
    }
}

/// Builds the real instruction list of a plan: the realization of each
/// planned instruction, in the plan's order, and it always succeeds.
pub fn realize_plan(p: &TransactionPlan) -> (r: Result<Vec<solana_sdk::instruction::Instruction>, ClientError>)
    ensures
        r is Ok,
        r matches Ok(v) ==> {
            &&& v@.len() == p.instructions@.len()
            &&& forall|i: int| 0 <= i < v@.len() ==> #[trigger] v@[i] == realized(p.instructions@[i])
        },
{
    let mut out: Vec<solana_sdk::instruction::Instruction> = Vec::new();
    let mut i: usize = 0;
    while i < p.instructions.len()
        invariant
            0 <= i <= p.instructions@.len(),
            out@.len() == i,
            forall|j: int| 0 <= j < i ==> #[trigger] out@[j] == realized(p.instructions@[j]),
        decreases p.instructions@.len() - i,
    {
        let ri = match realize_instruction(&p.instructions[i]) {
            Ok(x) => x,
            Err(e) => {
                return Err(e);
            }
        };
        out.push(ri);
        i += 1;
    }
    Ok(out)
}

} // verus!
