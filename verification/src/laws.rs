//! The guarantees the helper offers, stated over the ledger model and the
//! planned instructions the operations produce, and proved once for all
//! inputs.

use vstd::prelude::*;
use crate::addr::{Address, token_program};
use crate::instruction::PlannedInstruction;
use crate::ledger::{LedgerView, lamports_at, step, step_all};
use crate::realize::{MINT_ACCOUNT_LEN, TOKEN_ACCOUNT_LEN};

verus! {

/// A checked transfer of `amount` out of a source holding `b`, into a
/// distinct valid destination, succeeds exactly when `b >= amount`: the
/// source is left with `b - amount`, the destination gains `amount`, and no
/// mint's state — its total supply included — changes. With `amount > b` the
/// token program rejects the instruction, and a rejected instruction leaves
/// every balance unchanged.
pub proof fn law_transfer_moves_exact_amount(
    l: LedgerView,
    source: Address,
    destination: Address,
    mint: Address,
    authority: Address,
    amount: u64,
    decimals: u8,
)
    requires
        l.accounts.contains_key(source),
        !l.accounts[source].closed,
        l.accounts[source].mint == mint,
        l.accounts[source].owner == authority,
        l.mints.contains_key(mint),
        l.mints[mint].decimals == decimals,
        l.accounts.contains_key(destination),
        !l.accounts[destination].closed,
        l.accounts[destination].mint == mint,
        source != destination,
        l.accounts[destination].balance + amount <= u64::MAX,
    ensures
        ({
            let ix = PlannedInstruction::TransferChecked { source, mint, destination, authority, amount, decimals };
            &&& (l.accounts[source].balance >= amount ==> {
                &&& step(l, ix) is Some
                &&& step(l, ix)->Some_0.accounts[source].balance == l.accounts[source].balance - amount
                &&& step(l, ix)->Some_0.accounts[destination].balance == l.accounts[destination].balance + amount
                &&& step(l, ix)->Some_0.mints == l.mints
            })
            &&& (l.accounts[source].balance < amount ==> step(l, ix) is None)
        }),
{
}

/// Creating a token mint, creating a token account against it, and minting
/// `amount` units into that account — the three operations' instruction
/// lists run back to back — all succeed on a ledger where the two new
/// addresses are fresh and the payer can fund both rents, and leave the
/// account's token balance at exactly `amount` (displayed, that is `amount`
/// split at `decimals` digits) and the mint's supply at `amount`.
pub proof fn law_mint_into_fresh_account(
    l: LedgerView,
    payer: Address,
    mint: Address,
    authority: Address,
    owner: Address,
    account: Address,
    amount: u64,
    decimals: u8,
    mint_rent: u64,
    account_rent: u64,
)
    requires
        l.lamports.contains_key(payer),
        mint_rent + account_rent <= l.lamports[payer],
        !l.lamports.contains_key(mint),
        !l.lamports.contains_key(account),
        mint != account,
        payer != mint,
        payer != account,
        !l.mints.contains_key(mint),
        !l.accounts.contains_key(account),
    ensures
        ({
            let ixs = seq![
                PlannedInstruction::CreateAccount { funder: payer, new_account: mint, lamports: mint_rent, space: MINT_ACCOUNT_LEN, owner: token_program() },
                PlannedInstruction::InitializeMint { mint, authority, decimals },
                PlannedInstruction::CreateAccount { funder: payer, new_account: account, lamports: account_rent, space: TOKEN_ACCOUNT_LEN, owner: token_program() },
                PlannedInstruction::InitializeAccount { account, mint, owner },
                PlannedInstruction::MintToChecked { mint, account, authority, amount, decimals },
            ];
            &&& step_all(l, ixs) is Some
            &&& step_all(l, ixs)->Some_0.accounts[account].balance == amount
            &&& step_all(l, ixs)->Some_0.mints[mint].supply == amount
        }),
{
    let ix0 = PlannedInstruction::CreateAccount { funder: payer, new_account: mint, lamports: mint_rent, space: MINT_ACCOUNT_LEN, owner: token_program() };
    let ix1 = PlannedInstruction::InitializeMint { mint, authority, decimals };
    let ix2 = PlannedInstruction::CreateAccount { funder: payer, new_account: account, lamports: account_rent, space: TOKEN_ACCOUNT_LEN, owner: token_program() };
    let ix3 = PlannedInstruction::InitializeAccount { account, mint, owner };
    let ix4 = PlannedInstruction::MintToChecked { mint, account, authority, amount, decimals };
    let ixs = seq![ix0, ix1, ix2, ix3, ix4];

    assert(step(l, ix0) is Some);
    let l1 = step(l, ix0)->Some_0;
    assert(step(l1, ix1) is Some);
    let l2 = step(l1, ix1)->Some_0;
    assert(step(l2, ix2) is Some);
    let l3 = step(l2, ix2)->Some_0;
    assert(step(l3, ix3) is Some);
    let l4 = step(l3, ix3)->Some_0;
    assert(step(l4, ix4) is Some);
    let l5 = step(l4, ix4)->Some_0;
    assert(l5.accounts[account].balance == amount);
    assert(l5.mints[mint].supply == amount);

    assert(ixs.skip(1)[0] == ix1);
    assert(ixs.skip(2)[0] == ix2);
    assert(ixs.skip(3)[0] == ix3);
    assert(ixs.skip(4)[0] == ix4);
    assert(ixs.skip(1).skip(1) =~= ixs.skip(2));
    assert(ixs.skip(2).skip(1) =~= ixs.skip(3));
    assert(ixs.skip(3).skip(1) =~= ixs.skip(4));
    assert(ixs.skip(4).skip(1) =~= ixs.skip(5));
    assert(ixs.skip(5) =~= Seq::<PlannedInstruction>::empty());

    assert(step_all(l5, ixs.skip(5)) == Some(l5));
    assert(step_all(l4, ixs.skip(4)) == Some(l5));
    assert(step_all(l3, ixs.skip(3)) == Some(l5));
    assert(step_all(l2, ixs.skip(2)) == Some(l5));
    assert(step_all(l1, ixs.skip(1)) == Some(l5));
    assert(step_all(l, ixs) == Some(l5));
}

/// Closing a token account whose token balance is zero succeeds: the account
/// is marked closed — any further transfer naming it, as source or as
/// destination, is rejected — its lamport balance drops to zero, and the
/// destination's lamports grow by the account's residual lamports.
pub proof fn law_close_returns_residue_and_disables(
    l: LedgerView,
    account: Address,
    destination: Address,
    owner: Address,
)
    requires
        l.accounts.contains_key(account),
        !l.accounts[account].closed,
        l.accounts[account].owner == owner,
        l.accounts[account].balance == 0,
        account != destination,
        lamports_at(l, destination) + lamports_at(l, account) <= u64::MAX,
    ensures
        ({
            let ix = PlannedInstruction::CloseAccount { account, destination, owner };
            &&& step(l, ix) is Some
            &&& step(l, ix)->Some_0.accounts[account].closed
            &&& step(l, ix)->Some_0.lamports[account] == 0
            &&& step(l, ix)->Some_0.lamports[destination] == lamports_at(l, destination) + lamports_at(l, account)
            &&& forall|destination2: Address, mint2: Address, authority2: Address, amount2: u64, decimals2: u8|
                    step(step(l, ix)->Some_0, PlannedInstruction::TransferChecked {
                        source: account,
                        mint: mint2,
                        destination: destination2,
                        authority: authority2,
                        amount: amount2,
                        decimals: decimals2,
                    }) is None
            &&& forall|source2: Address, mint2: Address, authority2: Address, amount2: u64, decimals2: u8|
                    step(step(l, ix)->Some_0, PlannedInstruction::TransferChecked {
                        source: source2,
                        mint: mint2,
                        destination: account,
                        authority: authority2,
                        amount: amount2,
                        decimals: decimals2,
                    }) is None
        }),
{
    let ix = PlannedInstruction::CloseAccount { account, destination, owner };
    let l2 = step(l, ix)->Some_0;
    assert forall|destination2: Address, mint2: Address, authority2: Address, amount2: u64, decimals2: u8|
        step(l2, PlannedInstruction::TransferChecked {
            source: account,
            mint: mint2,
            destination: destination2,
            authority: authority2,
            amount: amount2,
            decimals: decimals2,
        }) is None by {
        assert(l2.accounts[account].closed);
    };
    assert forall|source2: Address, mint2: Address, authority2: Address, amount2: u64, decimals2: u8|
        step(l2, PlannedInstruction::TransferChecked {
            source: source2,
            mint: mint2,
            destination: account,
            authority: authority2,
            amount: amount2,
            decimals: decimals2,
        }) is None by {
        assert(l2.accounts[account].closed);
    };
}

} // verus!
