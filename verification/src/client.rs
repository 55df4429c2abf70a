//! The transaction helper: one planning method per on-chain effect desired.
//!
//! Each method assembles the minimal instruction list for its operation and
//! the minimal deduplicated signer set, and returns the exact transaction
//! plan to sign and submit. Values only the network can supply — a queried
//! rent-exempt minimum, a freshly generated account address — are taken as
//! arguments, so every decision made here is verified for every value of
//! them.

use vstd::prelude::*;
use crate::addr::{Address, token_program, token_program_address};
use crate::instruction::{
    PlannedInstruction, FeeSchedule, TransactionPlan, covered, required_signers,
    dedup_seq, distinct_seq, lemma_dedup_two, lemma_dedup_of_distinct, plan,
};
use crate::pda::{associated_address_of, swap_authority_of, derived_associated_address, derived_swap_authority};
use crate::realize::{mint_account_len, token_account_len, MINT_ACCOUNT_LEN, TOKEN_ACCOUNT_LEN};

verus! {

/// The helper's planning state: the session fee payer's address.
pub struct Client {
    pub payer: Address,
}

impl Client {
    /// A helper session paying fees from `payer`.
    pub fn new(payer: Address) -> (c: Client)
        ensures
            c.payer == payer,
    {
        Client { payer }
    }

    /// The fee payer's address.
    pub fn payer_pubkey(&self) -> (a: Address)
        ensures
            a == self.payer,
    {
        self.payer
    }

    /// Plans one instruction signed by the fee payer and `extra`, the one
    /// deduplicated when it is the fee payer itself.
    fn plan_single(&self, ix: PlannedInstruction, extra: Address) -> (p: TransactionPlan)
        requires
            forall|a: Address| required_signers(ix).contains(a) ==> (a == self.payer || a == extra),
        ensures
            p.wf(),
            p.payer == self.payer,
            p.instructions@ == seq![ix],
            p.signers@ == (if extra == self.payer { seq![self.payer] } else { seq![self.payer, extra] }),
    {
        let mut instructions: Vec<PlannedInstruction> = Vec::new();
        instructions.push(ix);
        let mut others: Vec<Address> = Vec::new();
        others.push(extra);
        proof {
            assert(instructions@ =~= seq![ix]);
            assert(others@ =~= seq![extra]);
            let pre = seq![self.payer] + others@;
            assert(pre =~= seq![self.payer, extra]);
            assert forall|k: int| 0 <= k < instructions@.len()
                implies covered(#[trigger] instructions@[k], pre) by {
                assert forall|a: Address| required_signers(ix).contains(a)
                    implies pre.contains(a) by {
                    if a == self.payer {
                        assert(pre[0] == a);
                    } else {
                        assert(pre[1] == a);
                    }
                };
            };
        }
        let p = plan(self.payer, instructions, &others);
        proof {
            lemma_dedup_two(self.payer, extra);
            assert(seq![self.payer] + others@ =~= seq![self.payer, extra]);
        }
        p
    }

    /// Plans two instructions, in order, signed by the fee payer and `extra`.
    fn plan_pair(&self, ix0: PlannedInstruction, ix1: PlannedInstruction, extra: Address) -> (p: TransactionPlan)
        requires
            forall|a: Address| required_signers(ix0).contains(a) ==> (a == self.payer || a == extra),
            forall|a: Address| required_signers(ix1).contains(a) ==> (a == self.payer || a == extra),
        ensures
            p.wf(),
            p.payer == self.payer,
            p.instructions@ == seq![ix0, ix1],
            p.signers@ == (if extra == self.payer { seq![self.payer] } else { seq![self.payer, extra] }),
    {
        let mut instructions: Vec<PlannedInstruction> = Vec::new();
        instructions.push(ix0);
        instructions.push(ix1);
        let mut others: Vec<Address> = Vec::new();
        others.push(extra);
        proof {
            assert(instructions@ =~= seq![ix0, ix1]);
            assert(others@ =~= seq![extra]);
            let pre = seq![self.payer] + others@;
            assert(pre =~= seq![self.payer, extra]);
            assert forall|k: int| 0 <= k < instructions@.len()
                implies covered(#[trigger] instructions@[k], pre) by {
                let ixk = instructions@[k];
                assert(ixk == ix0 || ixk == ix1);
                assert forall|a: Address| required_signers(ixk).contains(a)
                    implies pre.contains(a) by {
                    if a == self.payer {
                        assert(pre[0] == a);
                    } else {
                        assert(pre[1] == a);
                    }
                };
            };
        }
        let p = plan(self.payer, instructions, &others);
        proof {
            lemma_dedup_two(self.payer, extra);
            assert(seq![self.payer] + others@ =~= seq![self.payer, extra]);
        }
        p
    }

    /// Plans the creation of `new_account` with `account_data_len` bytes of
    /// data, owned by the program at `owner` and funded by the fee payer.
    /// Without an explicit lamports value the account is funded with exactly
    /// `rent_exempt_minimum`, the queried minimum rent-exempt balance for
    /// that data length; an explicit value is used unchanged.
    pub fn create_account(
        &self,
        owner: &Address,
        new_account: &Address,
        account_data_len: usize,
        lamports: Option<u64>,
        rent_exempt_minimum: u64,
    ) -> (p: TransactionPlan)
        ensures
            p.wf(),
            p.payer == self.payer,
            p.instructions@ == seq![PlannedInstruction::CreateAccount {
                funder: self.payer,
                new_account: *new_account,
                lamports: (match lamports { Option::Some(l) => l, Option::None => rent_exempt_minimum }),
                space: account_data_len as u64,
                owner: *owner,
            }],
            p.signers@ == (if *new_account == self.payer { seq![self.payer] } else { seq![self.payer, *new_account] }),
    {
        let lam = match lamports {
            Some(l) => l,
            None => rent_exempt_minimum,
        };
        let ix = PlannedInstruction::CreateAccount {
            funder: self.payer,
            new_account: *new_account,
            lamports: lam,
            space: account_data_len as u64,
            owner: *owner,
        };
        self.plan_single(ix, *new_account)
    }

    /// Plans a token mint: create the backing account sized for mint state
    /// and funded with `mint_rent` (the queried rent-exempt minimum for that
    /// size), then initialize it as a mint with authority `owner` and the
    /// given decimal precision. Both instructions ride one transaction, so
    /// either both apply or neither does.
    pub fn create_token_mint(&self, mint: &Address, owner: &Address, decimals: u8, mint_rent: u64) -> (p: TransactionPlan)
        ensures
            p.wf(),
            p.payer == self.payer,
            p.instructions@ == seq![
                PlannedInstruction::CreateAccount {
                    funder: self.payer,
                    new_account: *mint,
                    lamports: mint_rent,
                    space: MINT_ACCOUNT_LEN,
                    owner: token_program(),
                },
                PlannedInstruction::InitializeMint { mint: *mint, authority: *owner, decimals },
            ],
            p.signers@ == (if *mint == self.payer { seq![self.payer] } else { seq![self.payer, *mint] }),
    {
        let space = mint_account_len();
        let ix0 = PlannedInstruction::CreateAccount {
            funder: self.payer,
            new_account: *mint,
            lamports: mint_rent,
            space,
            owner: token_program_address(),
        };
        let ix1 = PlannedInstruction::InitializeMint { mint: *mint, authority: *owner, decimals };
        self.plan_pair(ix0, ix1, *mint)
    }

    /// Plans a token account bound to `token_mint` and owned by `owner`,
    /// funding the backing account with `rent_exempt_minimum`, the queried
    /// rent-exempt minimum for token-account state.
    pub fn create_token_account(&self, account: &Address, owner: &Address, token_mint: &Address, rent_exempt_minimum: u64) -> (p: TransactionPlan)
        ensures
            p.wf(),
            p.payer == self.payer,
            p.instructions@ == seq![
                PlannedInstruction::CreateAccount {
                    funder: self.payer,
                    new_account: *account,
                    lamports: rent_exempt_minimum,
                    space: TOKEN_ACCOUNT_LEN,
                    owner: token_program(),
                },
                PlannedInstruction::InitializeAccount { account: *account, mint: *token_mint, owner: *owner },
            ],
            p.signers@ == (if *account == self.payer { seq![self.payer] } else { seq![self.payer, *account] }),
    {
        self.create_token_account_with_lamports(account, owner, token_mint, rent_exempt_minimum)
    }

    /// Plans a token account bound to `token_mint` and owned by `owner`,
    /// funding the backing account with the given lamports unchanged.
    pub fn create_token_account_with_lamports(&self, account: &Address, owner: &Address, token_mint: &Address, lamports: u64) -> (p: TransactionPlan)
        ensures
            p.wf(),
            p.payer == self.payer,
            p.instructions@ == seq![
                PlannedInstruction::CreateAccount {
                    funder: self.payer,
                    new_account: *account,
                    lamports,
                    space: TOKEN_ACCOUNT_LEN,
                    owner: token_program(),
                },
                PlannedInstruction::InitializeAccount { account: *account, mint: *token_mint, owner: *owner },
            ],
            p.signers@ == (if *account == self.payer { seq![self.payer] } else { seq![self.payer, *account] }),
    {
        let space = token_account_len();
        let ix0 = PlannedInstruction::CreateAccount {
            funder: self.payer,
            new_account: *account,
            lamports,
            space,
            owner: token_program_address(),
        };
        let ix1 = PlannedInstruction::InitializeAccount { account: *account, mint: *token_mint, owner: *owner };
        self.plan_pair(ix0, ix1, *account)
    }

    /// Plans minting `amount` token units to `account`, authorized by the
    /// mint authority `owner`. The given decimals must match the mint's
    /// configured precision or the token program rejects the instruction;
    /// that match is not checked locally.
    pub fn mint_to(&self, owner: &Address, token_mint: &Address, account: &Address, amount: u64, decimals: u8) -> (p: TransactionPlan)
        ensures
            p.wf(),
            p.payer == self.payer,
            p.instructions@ == seq![PlannedInstruction::MintToChecked {
                mint: *token_mint,
                account: *account,
                authority: *owner,
                amount,
                decimals,
            }],
            p.signers@ == (if *owner == self.payer { seq![self.payer] } else { seq![self.payer, *owner] }),
    {
        let ix = PlannedInstruction::MintToChecked {
            mint: *token_mint,
            account: *account,
            authority: *owner,
            amount,
            decimals,
        };
        self.plan_single(ix, *owner)
    }

    /// Plans moving `amount` token units from `source` to `destination`,
    /// authorized by `authority`. The given decimals must match the mint's
    /// configured precision or the token program rejects the instruction.
    pub fn transfer_to(&self, authority: &Address, token_mint: &Address, source: &Address, destination: &Address, amount: u64, decimals: u8) -> (p: TransactionPlan)
        ensures
            p.wf(),
            p.payer == self.payer,
            p.instructions@ == seq![PlannedInstruction::TransferChecked {
                source: *source,
                mint: *token_mint,
                destination: *destination,
                authority: *authority,
                amount,
                decimals,
            }],
            p.signers@ == (if *authority == self.payer { seq![self.payer] } else { seq![self.payer, *authority] }),
    {
        let ix = PlannedInstruction::TransferChecked {
            source: *source,
            mint: *token_mint,
            destination: *destination,
            authority: *authority,
            amount,
            decimals,
        };
        self.plan_single(ix, *authority)
    }

    /// The deterministic associated token account address binding
    /// `wallet_address` to `token_mint`.
    pub fn get_associated_token_address(wallet_address: &Address, token_mint: &Address) -> (r: Address)
        ensures
            r@ == associated_address_of(wallet_address@, token_mint@),
    {
        derived_associated_address(wallet_address, token_mint)
    }

    /// Plans the creation of the associated token account binding `recipient`
    /// to `token_mint`, funded by `funder`, and returns the derived address
    /// it will live at. The funder signs; when the funder is the fee payer
    /// the signer set is the fee payer alone, so no duplicate signer ever
    /// reaches submission.
    pub fn create_associated_token_account(&self, funder: &Address, recipient: &Address, token_mint: &Address) -> (r: (TransactionPlan, Address))
        ensures
            r.0.wf(),
            r.0.payer == self.payer,
            r.0.instructions@ == seq![PlannedInstruction::CreateAssociatedAccount {
                funder: *funder,
                recipient: *recipient,
                mint: *token_mint,
            }],
            r.0.signers@ == (if *funder == self.payer { seq![self.payer] } else { seq![self.payer, *funder] }),
            r.1@ == associated_address_of(recipient@, token_mint@),
    {
        let derived = derived_associated_address(recipient, token_mint);
        let ix = PlannedInstruction::CreateAssociatedAccount {
            funder: *funder,
            recipient: *recipient,
            mint: *token_mint,
        };
        let p = self.plan_single(ix, *funder);
        (p, derived)
    }

    /// Plans the associated token account for `recipient`, funded by the fee
    /// payer itself: the signer set is the fee payer alone.
    pub fn create_associated_token_account_by_payer(&self, recipient: &Address, token_mint: &Address) -> (r: (TransactionPlan, Address))
        ensures
            r.0.wf(),
            r.0.payer == self.payer,
            r.0.instructions@ == seq![PlannedInstruction::CreateAssociatedAccount {
                funder: self.payer,
                recipient: *recipient,
                mint: *token_mint,
            }],
            r.0.signers@ == seq![self.payer],
            r.1@ == associated_address_of(recipient@, token_mint@),
    {
        let payer = self.payer;
        self.create_associated_token_account(&payer, recipient, token_mint)
    }

    /// Plans closing the token account at `account`, authorized by its owner,
    /// returning the account's residual lamports to `destination`.
    pub fn close_token_account(&self, owner: &Address, account: &Address, destination: &Address) -> (p: TransactionPlan)
        ensures
            p.wf(),
            p.payer == self.payer,
            p.instructions@ == seq![PlannedInstruction::CloseAccount {
                account: *account,
                destination: *destination,
                owner: *owner,
            }],
            p.signers@ == (if *owner == self.payer { seq![self.payer] } else { seq![self.payer, *owner] }),
    {
        let ix = PlannedInstruction::CloseAccount {
            account: *account,
            destination: *destination,
            owner: *owner,
        };
        self.plan_single(ix, *owner)
    }

    /// The swap authority the swap program derives for `swap_account`, with
    /// its bump nonce; `None` when the pair has no derived address.
    pub fn find_swap_authority(swap_account: &Address, swap_program: &Address) -> (r: Option<(Address, u8)>)
        ensures
            r matches Some(p) ==> swap_authority_of(swap_account@, swap_program@) == Some((p.0@, p.1)),
            r is None ==> swap_authority_of(swap_account@, swap_program@) is None,
    {
        derived_swap_authority(swap_account, swap_program)
    }

    /// Plans the provisioning of a swap pool in one transaction: create and
    /// initialize the pool's fee account and initial-supply account (both
    /// token accounts of the pool mint, funded with `token_account_rent`
    /// each), then initialize the swap program's state — creations precede
    /// the initialize instruction that references them. Signed by the fee
    /// payer, the swap account, and the two new accounts, deduplicated.
    pub fn create_swap(
        &self,
        swap_program: &Address,
        swap_account: &Address,
        swap_authority: &Address,
        pool_token_mint: &Address,
        token_a: &Address,
        token_b: &Address,
        owner: &Address,
        fees: FeeSchedule,
        fee_owner: &Address,
        fee_account: &Address,
        pool_supply_account: &Address,
        token_account_rent: u64,
    ) -> (p: TransactionPlan)
        ensures
            p.wf(),
            p.payer == self.payer,
            p.instructions@ == seq![
                PlannedInstruction::CreateAccount {
                    funder: self.payer,
                    new_account: *fee_account,
                    lamports: token_account_rent,
                    space: TOKEN_ACCOUNT_LEN,
                    owner: token_program(),
                },
                PlannedInstruction::InitializeAccount { account: *fee_account, mint: *pool_token_mint, owner: *fee_owner },
                PlannedInstruction::CreateAccount {
                    funder: self.payer,
                    new_account: *pool_supply_account,
                    lamports: token_account_rent,
                    space: TOKEN_ACCOUNT_LEN,
                    owner: token_program(),
                },
                PlannedInstruction::InitializeAccount { account: *pool_supply_account, mint: *pool_token_mint, owner: *owner },
                PlannedInstruction::InitializeSwap {
                    program: *swap_program,
                    swap: *swap_account,
                    authority: *swap_authority,
                    token_a: *token_a,
                    token_b: *token_b,
                    pool_mint: *pool_token_mint,
                    fee_account: *fee_account,
                    pool_supply_account: *pool_supply_account,
                    fees,
                },
            ],
            p.signers@ == dedup_seq(seq![self.payer, *swap_account, *fee_account, *pool_supply_account]),
            distinct_seq(seq![self.payer, *swap_account, *fee_account, *pool_supply_account])
                ==> p.signers@ == seq![self.payer, *swap_account, *fee_account, *pool_supply_account],
    {
        let space = token_account_len();
        let ix0 = PlannedInstruction::CreateAccount {
            funder: self.payer,
            new_account: *fee_account,
            lamports: token_account_rent,
            space,
            owner: token_program_address(),
        };
        let ix1 = PlannedInstruction::InitializeAccount { account: *fee_account, mint: *pool_token_mint, owner: *fee_owner };
        let ix2 = PlannedInstruction::CreateAccount {
            funder: self.payer,
            new_account: *pool_supply_account,
            lamports: token_account_rent,
            space,
            owner: token_program_address(),
        };
        let ix3 = PlannedInstruction::InitializeAccount { account: *pool_supply_account, mint: *pool_token_mint, owner: *owner };
        let ix4 = PlannedInstruction::InitializeSwap {
            program: *swap_program,
            swap: *swap_account,
            authority: *swap_authority,
            token_a: *token_a,
            token_b: *token_b,
            pool_mint: *pool_token_mint,
            fee_account: *fee_account,
            pool_supply_account: *pool_supply_account,
            fees,
        };
        let mut instructions: Vec<PlannedInstruction> = Vec::new();
        instructions.push(ix0);
        instructions.push(ix1);
        instructions.push(ix2);
        instructions.push(ix3);
        instructions.push(ix4);
        let mut others: Vec<Address> = Vec::new();
        others.push(*swap_account);
        others.push(*fee_account);
        others.push(*pool_supply_account);
        proof {
            assert(instructions@ =~= seq![ix0, ix1, ix2, ix3, ix4]);
            assert(others@ =~= seq![*swap_account, *fee_account, *pool_supply_account]);
            let pre = seq![self.payer] + others@;
            assert(pre =~= seq![self.payer, *swap_account, *fee_account, *pool_supply_account]);
            assert forall|k: int| 0 <= k < instructions@.len()
                implies covered(#[trigger] instructions@[k], pre) by {
                let ixk = instructions@[k];
                assert forall|a: Address| required_signers(ixk).contains(a)
                    implies pre.contains(a) by {
                    if a == self.payer {
                        assert(pre[0] == a);
                    } else if a == *swap_account {
                        assert(pre[1] == a);
                    } else if a == *fee_account {
                        assert(pre[2] == a);
                    } else {
                        assert(pre[3] == a);
                    }
                };
            };
        }
        let p = plan(self.payer, instructions, &others);
        proof {
            let s = seq![self.payer] + others@;
            assert(s =~= seq![self.payer, *swap_account, *fee_account, *pool_supply_account]);
            if distinct_seq(seq![self.payer, *swap_account, *fee_account, *pool_supply_account]) {
                lemma_dedup_of_distinct(seq![self.payer, *swap_account, *fee_account, *pool_supply_account]);
            }
        }
        p
    }

    /// Plans a swap of `amount_in` units against an existing pool, rejected
    /// on chain if fewer than `minimum_amount_out` units would come out.
    /// Signed by the fee payer and the user transfer authority.
    pub fn swap(
        &self,
        swap_program: &Address,
        swap_account: &Address,
        swap_authority: &Address,
        user_transfer_authority: &Address,
        source: &Address,
        pool_source: &Address,
        pool_destination: &Address,
        destination: &Address,
        pool_token_mint: &Address,
        fee_account: &Address,
        amount_in: u64,
        minimum_amount_out: u64,
    ) -> (p: TransactionPlan)
        ensures
            p.wf(),
            p.payer == self.payer,
            p.instructions@ == seq![PlannedInstruction::Swap {
                program: *swap_program,
                swap: *swap_account,
                authority: *swap_authority,
                user_transfer_authority: *user_transfer_authority,
                source: *source,
                pool_source: *pool_source,
                pool_destination: *pool_destination,
                destination: *destination,
                pool_mint: *pool_token_mint,
                fee_account: *fee_account,
                amount_in,
                minimum_amount_out,
            }],
            p.signers@ == (if *user_transfer_authority == self.payer { seq![self.payer] } else { seq![self.payer, *user_transfer_authority] }),
    {
        let ix = PlannedInstruction::Swap {
            program: *swap_program,
            swap: *swap_account,
            authority: *swap_authority,
            user_transfer_authority: *user_transfer_authority,
            source: *source,
            pool_source: *pool_source,
            pool_destination: *pool_destination,
            destination: *destination,
            pool_mint: *pool_token_mint,
            fee_account: *fee_account,
            amount_in,
            minimum_amount_out,
        };
        self.plan_single(ix, *user_transfer_authority)
    }
}

} // verus!
