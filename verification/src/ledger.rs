//! A ledger model of the system and token programs.
//!
//! The helper only assembles and submits transactions; what they do on chain
//! is the programs' business. This model states that behaviour at the
//! granularity the library's guarantees need — lamport balances, mints and
//! token accounts — so the intended effect of each planned instruction is a
//! proved fact, not a comment. `step` gives the semantics of one instruction;
//! `Ledger` runs them executably, and a transaction applies atomically:
//! either every instruction's effect lands or the ledger is unchanged. The
//! two swap-program instructions are outside the model: the swap curve is the
//! swap program's own logic.

use vstd::prelude::*;
use crate::addr::Address;
use crate::error::ClientError;
use crate::instruction::PlannedInstruction;
use crate::pda::{associated_address_of, derived_associated_address};
use crate::table::Table;

verus! {

/// A token mint's modeled state.
#[derive(Clone, Copy, PartialEq, Eq, Structural, Debug)]
pub struct MintState {
    pub authority: Address,
    pub decimals: u8,
    pub supply: u64,
}

/// A token account's modeled state. A closed account keeps its entry with
/// `closed` set: it is unusable for any further instruction.
#[derive(Clone, Copy, PartialEq, Eq, Structural, Debug)]
pub struct AccountState {
    pub mint: Address,
    pub owner: Address,
    pub balance: u64,
    pub closed: bool,
}

/// The mathematical state of the modeled ledger.
#[verifier::ext_equal]
pub struct LedgerView {
    pub lamports: Map<Address, u64>,
    pub mints: Map<Address, MintState>,
    pub accounts: Map<Address, AccountState>,
}

/// Whether the ledger model gives `ix` a meaning. The two swap-program
/// instructions are out: their effect is the swap program's own curve logic.
pub open spec fn modeled(ix: PlannedInstruction) -> bool {
    !(ix is InitializeSwap) && !(ix is Swap)
}

/// The lamport balance of `a`, zero when `a` holds no entry.
pub open spec fn lamports_at(l: LedgerView, a: Address) -> u64 {
    if l.lamports.contains_key(a) {
        l.lamports[a]
    } else {
        0
    }
}

/// The address a planned associated-account creation puts the account at.
pub open spec fn derived_address(recipient: Address, mint: Address) -> Address {
    let t = associated_address_of(recipient@, mint@);
    Address { w0: t.0, w1: t.1, w2: t.2, w3: t.3 }
}

/// What one modeled instruction does to the ledger: the new state on
/// success, `None` when the program rejects it (in which case the on-chain
/// state is untouched).
pub open spec fn step(l: LedgerView, ix: PlannedInstruction) -> Option<LedgerView> {
    match ix {
        PlannedInstruction::CreateAccount { funder, new_account, lamports, space, owner } => {
            if !l.lamports.contains_key(funder) {
                None
            } else if l.lamports[funder] < lamports {
                None
            } else if l.lamports.contains_key(new_account) {
                None
            } else {
                Some(LedgerView {
                    lamports: l.lamports
                        .insert(funder, (l.lamports[funder] - lamports) as u64)
                        .insert(new_account, lamports),
                    ..l
                })
            }
        }
        PlannedInstruction::InitializeMint { mint, authority, decimals } => {
            if l.mints.contains_key(mint) {
                None
            } else {
                Some(LedgerView {
                    mints: l.mints.insert(mint, MintState { authority, decimals, supply: 0 }),
                    ..l
                })
            }
        }
        PlannedInstruction::InitializeAccount { account, mint, owner } => {
            if l.accounts.contains_key(account) || !l.mints.contains_key(mint) {
                None
            } else {
                Some(LedgerView {
                    accounts: l.accounts.insert(account, AccountState { mint, owner, balance: 0, closed: false }),
                    ..l
                })
            }
        }
        PlannedInstruction::MintToChecked { mint, account, authority, amount, decimals } => {
            if !l.mints.contains_key(mint) {
                None
            } else if l.mints[mint].authority != authority {
                None
            } else if l.mints[mint].decimals != decimals {
                None
            } else if !l.accounts.contains_key(account) {
                None
            } else if l.accounts[account].closed {
                None
            } else if l.accounts[account].mint != mint {
                None
            } else if l.accounts[account].balance + amount > u64::MAX {
                None
            } else if l.mints[mint].supply + amount > u64::MAX {
                None
            } else {
                Some(LedgerView {
                    mints: l.mints.insert(mint, MintState {
                        supply: (l.mints[mint].supply + amount) as u64,
                        ..l.mints[mint]
                    }),
                    accounts: l.accounts.insert(account, AccountState {
                        balance: (l.accounts[account].balance + amount) as u64,
                        ..l.accounts[account]
                    }),
                    ..l
                })
            }
        }
        PlannedInstruction::TransferChecked { source, mint, destination, authority, amount, decimals } => {
            if !l.accounts.contains_key(source) {
                None
            } else if l.accounts[source].closed {
                None
            } else if l.accounts[source].mint != mint {
                None
            } else if l.accounts[source].owner != authority {
                None
            } else if !l.mints.contains_key(mint) {
                None
            } else if l.mints[mint].decimals != decimals {
                None
            } else if !l.accounts.contains_key(destination) {
                None
            } else if l.accounts[destination].closed {
                None
            } else if l.accounts[destination].mint != mint {
                None
            } else if l.accounts[source].balance < amount {
                None
            } else if source == destination {
                Some(l)
            } else if l.accounts[destination].balance + amount > u64::MAX {
                None
            } else {
                Some(LedgerView {
                    accounts: l.accounts
                        .insert(source, AccountState {
                            balance: (l.accounts[source].balance - amount) as u64,
                            ..l.accounts[source]
                        })
                        .insert(destination, AccountState {
                            balance: (l.accounts[destination].balance + amount) as u64,
                            ..l.accounts[destination]
                        }),
                    ..l
                })
            }
        }
        PlannedInstruction::CreateAssociatedAccount { funder, recipient, mint } => {
            let account = derived_address(recipient, mint);
            if l.accounts.contains_key(account) || !l.mints.contains_key(mint) {
                None
            } else {
                Some(LedgerView {
                    accounts: l.accounts.insert(account, AccountState {
                        mint,
                        owner: recipient,
                        balance: 0,
                        closed: false,
                    }),
                    ..l
                })
            }
        }
        PlannedInstruction::CloseAccount { account, destination, owner } => {
            if !l.accounts.contains_key(account) {
                None
            } else if l.accounts[account].closed {
                None
            } else if l.accounts[account].owner != owner {
                None
            } else if l.accounts[account].balance != 0 {
                None
            } else if account == destination {
                None
            } else if lamports_at(l, destination) + lamports_at(l, account) > u64::MAX {
                None
            } else {
                Some(LedgerView {
                    lamports: l.lamports
                        .insert(account, 0)
                        .insert(destination, (lamports_at(l, destination) + lamports_at(l, account)) as u64),
                    accounts: l.accounts.insert(account, AccountState { closed: true, ..l.accounts[account] }),
                    ..l
                })
            }
        }
        PlannedInstruction::InitializeSwap { .. } => None,
        PlannedInstruction::Swap { .. } => None,
    }
}

/// What a whole instruction list does, first instruction first: the final
/// state when every step succeeds, `None` as soon as one is rejected.
pub open spec fn step_all(l: LedgerView, ixs: Seq<PlannedInstruction>) -> Option<LedgerView>
    decreases ixs.len(),
{
    if ixs.len() == 0 {
        Some(l)
    } else {
        match step(l, ixs[0]) {
            Some(l2) => step_all(l2, ixs.skip(1)),
            None => None,
        }
    }
}

/// Every instruction of the list is one the model covers.
pub open spec fn all_modeled(ixs: Seq<PlannedInstruction>) -> bool {
    forall|i: int| 0 <= i < ixs.len() ==> modeled(#[trigger] ixs[i])
}

/// The executable ledger model.
pub struct Ledger {
    pub lamports: Table<u64>,
    pub mints: Table<MintState>,
    pub accounts: Table<AccountState>,
}

impl View for Ledger {
    type V = LedgerView;

    open spec fn view(&self) -> LedgerView {
        LedgerView {
            lamports: self.lamports@,
            mints: self.mints@,
            accounts: self.accounts@,
        }
    }
}

impl Ledger {
    /// An empty ledger: no balances, no mints, no token accounts.
    pub fn new() -> (l: Ledger)
        ensures
            l@.lamports == Map::<Address, u64>::empty(),
            l@.mints == Map::<Address, MintState>::empty(),
            l@.accounts == Map::<Address, AccountState>::empty(),
    {
        Ledger {
            lamports: Table::new(),
            mints: Table::new(),
            accounts: Table::new(),
        }
    }

    /// A copy of the ledger in the same state.
    pub fn snapshot(&self) -> (l: Ledger)
        ensures
            l@ == self@,
    {
        let l = Ledger {
            lamports: self.lamports.duplicate(),
            mints: self.mints.duplicate(),
            accounts: self.accounts.duplicate(),
        };
        proof {
            assert(l@ =~= self@);
        }
        l
    }

    /// Credits `to` with `lamports` from the faucet, as a test network's
    /// airdrop does; rejected only when the credit would overflow.
    pub fn airdrop(&mut self, to: Address, lamports: u64) -> (r: Result<(), ClientError>)
        ensures
            lamports_at(old(self)@, to) + lamports <= u64::MAX ==> {
                &&& r is Ok
                &&& final(self)@ == (LedgerView {
                    lamports: old(self)@.lamports.insert(to, (lamports_at(old(self)@, to) + lamports) as u64),
                    ..old(self)@
                })
            },
            lamports_at(old(self)@, to) + lamports > u64::MAX ==> {
                &&& r == Err::<(), ClientError>(ClientError::Transport)
                &&& final(self)@ == old(self)@
            },
    {
        let have = match self.lamports.get(&to) {
            Some(b) => b,
            None => 0,
        };
        if lamports > u64::MAX - have {
            return Err(ClientError::Transport);
        }
        self.lamports.put(to, have + lamports);
        Ok(())
    }

    /// Applies one modeled instruction: the state changes exactly as `step`
    /// says, and a rejected instruction changes nothing.
    pub fn execute(&mut self, ix: &PlannedInstruction) -> (r: Result<(), ClientError>)
        requires
            modeled(*ix),
        ensures
            match step(old(self)@, *ix) {
                Some(l2) => r is Ok && final(self)@ == l2,
                None => r == Err::<(), ClientError>(ClientError::Program) && final(self)@ == old(self)@,
            },
    {
        match ix {
            PlannedInstruction::CreateAccount { funder, new_account, lamports, space: _, owner: _ } => {
                let have = match self.lamports.get(funder) {
                    Some(b) => b,
                    None => {
                        return Err(ClientError::Program);
                    }
                };
                if have < *lamports {
                    return Err(ClientError::Program);
                }
                if self.lamports.get(new_account).is_some() {
                    return Err(ClientError::Program);
                }
                self.lamports.put(*funder, have - *lamports);
                self.lamports.put(*new_account, *lamports);
                Ok(())
            }
            PlannedInstruction::InitializeMint { mint, authority, decimals } => {
                if self.mints.get(mint).is_some() {
                    return Err(ClientError::Program);
                }
                self.mints.put(*mint, MintState { authority: *authority, decimals: *decimals, supply: 0 });
                Ok(())
            }
            PlannedInstruction::InitializeAccount { account, mint, owner } => {
                if self.accounts.get(account).is_some() {
                    return Err(ClientError::Program);
                }
                if self.mints.get(mint).is_none() {
                    return Err(ClientError::Program);
                }
                self.accounts.put(*account, AccountState { mint: *mint, owner: *owner, balance: 0, closed: false });
                Ok(())
            }
            PlannedInstruction::MintToChecked { mint, account, authority, amount, decimals } => {
                let m = match self.mints.get(mint) {
                    Some(m) => m,
                    None => {
                        return Err(ClientError::Program);
                    }
                };
                if m.authority != *authority || m.decimals != *decimals {
                    return Err(ClientError::Program);
                }
                let a = match self.accounts.get(account) {
                    Some(a) => a,
                    None => {
                        return Err(ClientError::Program);
                    }
                };
                if a.closed || a.mint != *mint {
                    return Err(ClientError::Program);
                }
                if *amount > u64::MAX - a.balance || *amount > u64::MAX - m.supply {
                    return Err(ClientError::Program);
                }
                self.mints.put(*mint, MintState { supply: m.supply + *amount, ..m });
                self.accounts.put(*account, AccountState { balance: a.balance + *amount, ..a });
                Ok(())
            }
            PlannedInstruction::TransferChecked { source, mint, destination, authority, amount, decimals } => {
                let s = match self.accounts.get(source) {
                    Some(s) => s,
                    None => {
                        return Err(ClientError::Program);
                    }
                };
                if s.closed || s.mint != *mint || s.owner != *authority {
                    return Err(ClientError::Program);
                }
                let m = match self.mints.get(mint) {
                    Some(m) => m,
                    None => {
                        return Err(ClientError::Program);
                    }
                };
                if m.decimals != *decimals {
                    return Err(ClientError::Program);
                }
                let d = match self.accounts.get(destination) {
                    Some(d) => d,
                    None => {
                        return Err(ClientError::Program);
                    }
                };
                if d.closed || d.mint != *mint {
                    return Err(ClientError::Program);
                }
                if s.balance < *amount {
                    return Err(ClientError::Program);
                }
                if *source == *destination {
                    return Ok(());
                }
                if *amount > u64::MAX - d.balance {
                    return Err(ClientError::Program);
                }
                self.accounts.put(*source, AccountState { balance: s.balance - *amount, ..s });
                self.accounts.put(*destination, AccountState { balance: d.balance + *amount, ..d });
                Ok(())
            }
            PlannedInstruction::CreateAssociatedAccount { funder: _, recipient, mint } => {
                let account = derived_associated_address(recipient, mint);
                proof {
                    assert(account == derived_address(*recipient, *mint));
                }
                if self.accounts.get(&account).is_some() {
                    return Err(ClientError::Program);
                }
                if self.mints.get(mint).is_none() {
                    return Err(ClientError::Program);
                }
                self.accounts.put(account, AccountState { mint: *mint, owner: *recipient, balance: 0, closed: false });
                Ok(())
            }
            PlannedInstruction::CloseAccount { account, destination, owner } => {
                let a = match self.accounts.get(account) {
                    Some(a) => a,
                    None => {
                        return Err(ClientError::Program);
                    }
                };
                if a.closed || a.owner != *owner || a.balance != 0 {
                    return Err(ClientError::Program);
                }
                if *account == *destination {
                    return Err(ClientError::Program);
                }
                let resid = match self.lamports.get(account) {
                    Some(b) => b,
                    None => 0,
                };
                let dest0 = match self.lamports.get(destination) {
                    Some(b) => b,
                    None => 0,
                };
                if resid > u64::MAX - dest0 {
                    return Err(ClientError::Program);
                }
                self.lamports.put(*account, 0);
                self.lamports.put(*destination, dest0 + resid);
                self.accounts.put(*account, AccountState { closed: true, ..a });
                Ok(())
            }
            PlannedInstruction::InitializeSwap { .. } => {
                // not reachable: the precondition admits modeled instructions only
                proof {
                    assert(false);
                }
                Err(ClientError::Program)
            }
            PlannedInstruction::Swap { .. } => {
                // not reachable: the precondition admits modeled instructions only
                proof {
                    assert(false);
                }
                Err(ClientError::Program)
            }
        }
    }

    /// Applies a whole instruction list as one transaction: atomically.
    /// Either every instruction's effect lands, in order, or the first
    /// rejection is surfaced and the ledger is left exactly as it was.
    pub fn apply_transaction(&mut self, ixs: &Vec<PlannedInstruction>) -> (r: Result<(), ClientError>)
        requires
            all_modeled(ixs@),
        ensures
            match step_all(old(self)@, ixs@) {
                Some(l2) => r is Ok && final(self)@ == l2,
                None => r == Err::<(), ClientError>(ClientError::Program) && final(self)@ == old(self)@,
            },
    {
        let mut scratch = self.snapshot();
        proof {
            assert(ixs@.skip(0) =~= ixs@);
        }
        let mut i: usize = 0;
        while i < ixs.len()
            invariant
                0 <= i <= ixs@.len(),
                all_modeled(ixs@),
                self@ == old(self)@,
                step_all(old(self)@, ixs@) == step_all(scratch@, ixs@.skip(i as int)),
            decreases ixs@.len() - i,
        {
            proof {
                assert(ixs@.skip(i as int)[0] == ixs@[i as int]);
                assert(ixs@.skip(i as int).skip(1) =~= ixs@.skip(i as int + 1));
            }
            match scratch.execute(&ixs[i]) {
                Ok(()) => {}
                Err(e) => {
                    return Err(e);
                }
            }
            i += 1;
        }
        proof {
            assert(ixs@.skip(ixs@.len() as int) =~= Seq::<PlannedInstruction>::empty());
        }
        *self = scratch;
        Ok(())
    }

    /// The token balance at `account`: `None` when no open token account
    /// lives there.
    pub fn token_balance(&self, account: &Address) -> (r: Option<u64>)
        ensures
            match r {
                Some(b) => self@.accounts.contains_key(*account)
                    && !self@.accounts[*account].closed
                    && self@.accounts[*account].balance == b,
                None => !self@.accounts.contains_key(*account) || self@.accounts[*account].closed,
            },
    {
        match self.accounts.get(account) {
            Some(a) => {
                if a.closed {
                    None
                } else {
                    Some(a.balance)
                }
            }
            None => None,
        }
    }

    /// The lamport balance at `a`, zero when no entry exists.
    pub fn lamports_of(&self, a: &Address) -> (r: u64)
        ensures
            r == lamports_at(self@, *a),
    {
        match self.lamports.get(a) {
            Some(b) => b,
            None => 0,
        }
    }

    /// The mint state at `mint`, if a mint lives there.
    pub fn mint_state(&self, mint: &Address) -> (r: Option<MintState>)
        ensures
            match r {
                Some(m) => self@.mints.contains_key(*mint) && self@.mints[*mint] == m,
                None => !self@.mints.contains_key(*mint),
            },
    {
        self.mints.get(mint)
    }
}

} // verus!
