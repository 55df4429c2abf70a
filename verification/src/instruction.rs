//! Planned instructions and transaction plans.
//!
//! A planned instruction records, as plain values, the on-chain program call
//! an operation wants made. A transaction plan is an ordered list of planned
//! instructions together with the fee payer and the deduplicated signer set.

use vstd::prelude::*;
use crate::addr::Address;

verus! {

/// The fee schedule a swap pool is initialized with: each fee is a fraction,
/// held as a numerator and denominator pair.
#[derive(Clone, Copy, PartialEq, Eq, Structural, Debug)]
pub struct FeeSchedule {
    pub trade_fee_numerator: u64,
    pub trade_fee_denominator: u64,
    pub owner_trade_fee_numerator: u64,
    pub owner_trade_fee_denominator: u64,
    pub owner_withdraw_fee_numerator: u64,
    pub owner_withdraw_fee_denominator: u64,
    pub host_fee_numerator: u64,
    pub host_fee_denominator: u64,
}

impl View for FeeSchedule {
    type V = (u64, u64, u64, u64, u64, u64, u64, u64);

    open spec fn view(&self) -> (u64, u64, u64, u64, u64, u64, u64, u64) {
        (
            self.trade_fee_numerator,
            self.trade_fee_denominator,
            self.owner_trade_fee_numerator,
            self.owner_trade_fee_denominator,
            self.owner_withdraw_fee_numerator,
            self.owner_withdraw_fee_denominator,
            self.host_fee_numerator,
            self.host_fee_denominator,
        )
    }
}

/// One planned on-chain program call, with the plain values it is made with.
#[derive(Clone, Copy, PartialEq, Eq, Structural, Debug)]
pub enum PlannedInstruction {
    /// Create a new account funded by `funder`, with `lamports` starting
    /// balance, `space` bytes of data, owned by the program at `owner`.
    CreateAccount { funder: Address, new_account: Address, lamports: u64, space: u64, owner: Address },
    /// Initialize the account at `mint` as a token mint with the given
    /// minting authority and decimal precision.
    InitializeMint { mint: Address, authority: Address, decimals: u8 },
    /// Initialize the account at `account` as a token account bound to
    /// `mint` and owned by `owner`.
    InitializeAccount { account: Address, mint: Address, owner: Address },
    /// Mint `amount` new token units to `account`; `decimals` must match the
    /// mint's configured precision or the token program rejects the call.
    MintToChecked { mint: Address, account: Address, authority: Address, amount: u64, decimals: u8 },
    /// Move `amount` token units from `source` to `destination`; `decimals`
    /// must match the mint's configured precision.
    TransferChecked { source: Address, mint: Address, destination: Address, authority: Address, amount: u64, decimals: u8 },
    /// Create the associated token account binding `recipient` to `mint`,
    /// funded by `funder`. Its address is derived from `recipient` and `mint`.
    CreateAssociatedAccount { funder: Address, recipient: Address, mint: Address },
    /// Close the token account at `account`, returning its residual lamports
    /// to `destination`.
    CloseAccount { account: Address, destination: Address, owner: Address },
    /// Initialize the swap pool state held in `swap` for the swap program at
    /// `program`, wiring up the pool's token accounts, pool mint, fee account
    /// and initial-supply account.
    InitializeSwap {
        program: Address,
        swap: Address,
        authority: Address,
        token_a: Address,
        token_b: Address,
        pool_mint: Address,
        fee_account: Address,
        pool_supply_account: Address,
        fees: FeeSchedule,
    },
    /// Execute a swap of `amount_in` units against an existing pool,
    /// rejecting the trade if fewer than `minimum_amount_out` units come out.
    Swap {
        program: Address,
        swap: Address,
        authority: Address,
        user_transfer_authority: Address,
        source: Address,
        pool_source: Address,
        pool_destination: Address,
        destination: Address,
        pool_mint: Address,
        fee_account: Address,
        amount_in: u64,
        minimum_amount_out: u64,
    },
}

/// The accounts that must authorize a planned instruction: they have to sign
/// the transaction that carries it, or submission fails.
pub open spec fn required_signers(ix: PlannedInstruction) -> Set<Address> {
    match ix {
        PlannedInstruction::CreateAccount { funder, new_account, .. } => set![funder, new_account],
        PlannedInstruction::InitializeMint { .. } => Set::empty(),
        PlannedInstruction::InitializeAccount { .. } => Set::empty(),
        PlannedInstruction::MintToChecked { authority, .. } => set![authority],
        PlannedInstruction::TransferChecked { authority, .. } => set![authority],
        PlannedInstruction::CreateAssociatedAccount { funder, .. } => set![funder],
        PlannedInstruction::CloseAccount { owner, .. } => set![owner],
        PlannedInstruction::InitializeSwap { swap, .. } => set![swap],
        PlannedInstruction::Swap { user_transfer_authority, .. } => set![user_transfer_authority],
    }
}

/// Every account that must authorize `ix` appears among `signers`.
pub open spec fn covered(ix: PlannedInstruction, signers: Seq<Address>) -> bool {
    forall|a: Address| required_signers(ix).contains(a) ==> signers.contains(a)
}

/// No address appears twice.
pub open spec fn distinct_seq(s: Seq<Address>) -> bool {
    forall|i: int, j: int| 0 <= i < j < s.len() ==> s[i] != s[j]
}

/// First-occurrence deduplication: keeps each address at its earliest
/// position and drops later repetitions.
pub open spec fn dedup_seq(s: Seq<Address>) -> Seq<Address>
    decreases s.len(),
{
    if s.len() == 0 {
        Seq::empty()
    } else {
        let rest = dedup_seq(s.drop_last());
        if rest.contains(s.last()) {
            rest
        } else {
            rest.push(s.last())
        }
    }
}

/// Deduplication keeps exactly the addresses of its input.
pub proof fn lemma_dedup_contains(s: Seq<Address>, a: Address)
    ensures
        dedup_seq(s).contains(a) <==> s.contains(a),
    decreases s.len(),
{
    if s.len() == 0 {
    } else {
        lemma_dedup_contains(s.drop_last(), a);
        assert(s.contains(a) <==> (s.drop_last().contains(a) || s.last() == a)) by {
            if s.contains(a) {
                let i = choose|i: int| 0 <= i < s.len() && s[i] == a;
                if i < s.len() - 1 {
                    assert(s.drop_last()[i] == a);
                }
            }
            if s.drop_last().contains(a) {
                let i = choose|i: int| 0 <= i < s.drop_last().len() && s.drop_last()[i] == a;
                assert(s[i] == a);
            }
            if s.last() == a {
                assert(s[s.len() - 1] == a);
            }
        };
        let rest = dedup_seq(s.drop_last());
        if rest.contains(s.last()) {
        } else {
            assert(rest.push(s.last()).contains(a) <==> (rest.contains(a) || s.last() == a)) by {
                if rest.contains(a) {
                    let i = choose|i: int| 0 <= i < rest.len() && rest[i] == a;
                    assert(rest.push(s.last())[i] == a);
                }
                if s.last() == a {
                    assert(rest.push(s.last())[rest.len() as int] == a);
                }
                if rest.push(s.last()).contains(a) {
                    let i = choose|i: int| 0 <= i < rest.push(s.last()).len() && rest.push(s.last())[i] == a;
                    if i < rest.len() {
                        assert(rest[i] == a);
                    }
                }
            };
        }
    }
}

/// Deduplication leaves no repeated address.
pub proof fn lemma_dedup_distinct(s: Seq<Address>)
    ensures
        distinct_seq(dedup_seq(s)),
    decreases s.len(),
{
    if s.len() == 0 {
    } else {
        lemma_dedup_distinct(s.drop_last());
        let rest = dedup_seq(s.drop_last());
        if rest.contains(s.last()) {
        } else {
            let d = rest.push(s.last());
            assert forall|i: int, j: int| 0 <= i < j < d.len() implies d[i] != d[j] by {
                if j == d.len() - 1 {
                    if rest[i] == s.last() {
                        assert(rest.contains(s.last()));
                    }
                } else {
                    assert(rest[i] != rest[j]);
                }
            };
        }
    }
}

/// Deduplication keeps the first element first.
pub proof fn lemma_dedup_first(s: Seq<Address>)
    requires
        s.len() > 0,
    ensures
        dedup_seq(s).len() > 0,
        dedup_seq(s)[0] == s[0],
    decreases s.len(),
{
    if s.len() == 1 {
        assert(s.drop_last() =~= Seq::<Address>::empty());
        assert(dedup_seq(Seq::<Address>::empty()) =~= Seq::<Address>::empty());
    } else {
        lemma_dedup_first(s.drop_last());
        assert(s.drop_last()[0] == s[0]);
        let rest = dedup_seq(s.drop_last());
        if rest.contains(s.last()) {
        } else {
            assert(rest.push(s.last())[0] == rest[0]);
        }
    }
}

/// An already-distinct sequence deduplicates to itself.
pub proof fn lemma_dedup_of_distinct(s: Seq<Address>)
    requires
        distinct_seq(s),
    ensures
        dedup_seq(s) == s,
    decreases s.len(),
{
    if s.len() == 0 {
        assert(dedup_seq(s) =~= s);
    } else {
        assert(distinct_seq(s.drop_last()));
        lemma_dedup_of_distinct(s.drop_last());
        if s.drop_last().contains(s.last()) {
            let i = choose|i: int| 0 <= i < s.drop_last().len() && s.drop_last()[i] == s.last();
            assert(s[i] == s[s.len() - 1]);
            assert(false);
        }
        assert(dedup_seq(s) =~= s.drop_last().push(s.last()));
        assert(s.drop_last().push(s.last()) =~= s);
    }
}

/// Deduplicating a pair keeps the pair unless the two are the same address.
pub proof fn lemma_dedup_two(x: Address, y: Address)
    ensures
        dedup_seq(seq![x, y]) == (if y == x { seq![x] } else { seq![x, y] }),
{
    let s = seq![x, y];
    assert(s.drop_last() =~= seq![x]);
    assert(seq![x].drop_last() =~= Seq::<Address>::empty());
    assert(dedup_seq(Seq::<Address>::empty()) =~= Seq::<Address>::empty());
    assert(dedup_seq(seq![x]) =~= seq![x]);
    assert(seq![x].contains(y) <==> y == x) by {
        if seq![x].contains(y) {
            let i = choose|i: int| 0 <= i < seq![x].len() && seq![x][i] == y;
            assert(seq![x][0] == x);
        }
        if y == x {
            assert(seq![x][0] == y);
        }
    };
    if y == x {
        assert(dedup_seq(s) =~= seq![x]);
    } else {
        assert(dedup_seq(s) =~= seq![x].push(y));
        assert(seq![x].push(y) =~= seq![x, y]);
    }
}

/// Whether `v` holds `a`.
pub fn contains_addr(v: &Vec<Address>, a: &Address) -> (r: bool)
    ensures
        r == v@.contains(*a),
{
    let mut i: usize = 0;
    while i < v.len()
        invariant
            0 <= i <= v@.len(),
            forall|j: int| 0 <= j < i ==> v@[j] != *a,
        decreases v@.len() - i,
    {
        if v[i] == *a {
            assert(v@[i as int] == *a);
            return true;
        }
        i += 1;
    }
    assert(!v@.contains(*a)) by {
        if v@.contains(*a) {
            let j = choose|j: int| 0 <= j < v@.len() && v@[j] == *a;
        }
    };
    false
}

/// Deduplicates the signer list `payer` followed by `others`, keeping each
/// signer at its first occurrence. Transactions with a repeated signer are
/// rejected at submission, so every plan runs its signers through this.
pub fn dedup_signers(payer: Address, others: &Vec<Address>) -> (v: Vec<Address>)
    ensures
        v@ == dedup_seq(seq![payer] + others@),
{
    let mut v: Vec<Address> = Vec::new();
    v.push(payer);
    proof {
        assert(seq![payer].drop_last() =~= Seq::<Address>::empty());
        assert(dedup_seq(Seq::<Address>::empty()) =~= Seq::<Address>::empty());
        assert(dedup_seq(seq![payer]) =~= seq![payer]);
        assert(seq![payer] + others@.take(0) =~= seq![payer]);
        assert(v@ =~= seq![payer]);
    }
    let mut i: usize = 0;
    while i < others.len()
        invariant
            0 <= i <= others@.len(),
            v@ == dedup_seq(seq![payer] + others@.take(i as int)),
        decreases others@.len() - i,
    {
        let o = others[i];
        proof {
            let s = seq![payer] + others@.take(i as int);
            let s2 = seq![payer] + others@.take(i as int + 1);
            assert(s2 =~= s.push(others@[i as int]));
            assert(s2.drop_last() =~= s);
            assert(s2.last() == others@[i as int]);
        }
        if !contains_addr(&v, &o) {
            v.push(o);
        }
        i += 1;
    }
    proof {
        assert(others@.take(others@.len() as int) =~= others@);
    }
    v
}

/// A transaction ready for signing and submission: the ordered instruction
/// list, the fee payer, and the signer set.
#[derive(Clone, PartialEq, Eq, Debug)]
pub struct TransactionPlan {
    pub payer: Address,
    pub instructions: Vec<PlannedInstruction>,
    pub signers: Vec<Address>,
}

impl TransactionPlan {
    /// The invariant every plan meets before submission: the fee payer signs
    /// first, no signer is repeated, and every account that must authorize a
    /// state change appears among the signers.
    pub open spec fn wf(self) -> bool {
        &&& self.signers@.len() > 0
        &&& self.signers@[0] == self.payer
        &&& distinct_seq(self.signers@)
        &&& forall|k: int| 0 <= k < self.instructions@.len()
                ==> #[trigger] covered(self.instructions@[k], self.signers@)
    }
}

/// Assembles a plan: `payer` plus `others` are deduplicated into the signer
/// set. The caller supplies the instruction list and shows that the listed
/// signers authorize it.
pub fn plan(payer: Address, instructions: Vec<PlannedInstruction>, others: &Vec<Address>) -> (p: TransactionPlan)
    requires
        forall|k: int| 0 <= k < instructions@.len()
            ==> #[trigger] covered(instructions@[k], seq![payer] + others@),
    ensures
        p.payer == payer,
        p.instructions@ == instructions@,
        p.signers@ == dedup_seq(seq![payer] + others@),
        p.wf(),
{
    let signers = dedup_signers(payer, others);
    proof {
        let s = seq![payer] + others@;
        lemma_dedup_distinct(s);
        lemma_dedup_first(s);
        assert(s[0] == payer);
        assert forall|k: int| 0 <= k < instructions@.len()
            implies covered(#[trigger] instructions@[k], signers@) by {
            assert(covered(instructions@[k], s));
            assert forall|a: Address| required_signers(instructions@[k]).contains(a)
                implies signers@.contains(a) by {
                assert(s.contains(a));
                lemma_dedup_contains(s, a);
            };
        };
    }
    TransactionPlan { payer, instructions, signers }
}

} // verus!
