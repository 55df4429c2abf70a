use solana_client_helpers::addr::Address;
use solana_client_helpers::client::Client;
use solana_client_helpers::instruction::{FeeSchedule, PlannedInstruction};
use solana_sdk::program_pack::Pack;

fn a(n: u64) -> Address {
    Address::new(n, n + 1, n + 2, n + 3)
}

fn fees() -> FeeSchedule {
    FeeSchedule {
        trade_fee_numerator: 1,
        trade_fee_denominator: 4,
        owner_trade_fee_numerator: 2,
        owner_trade_fee_denominator: 5,
        owner_withdraw_fee_numerator: 1,
        owner_withdraw_fee_denominator: 3,
        host_fee_numerator: 5,
        host_fee_denominator: 20,
    }
}

#[test]
fn create_account_defaults_to_rent_minimum() {
    let c = Client::new(a(1));
    let p = c.create_account(&a(10), &a(20), 42, None, 1234);
    assert_eq!(p.payer, a(1));
    assert_eq!(
        p.instructions,
        vec![PlannedInstruction::CreateAccount {
            funder: a(1),
            new_account: a(20),
            lamports: 1234,
            space: 42,
            owner: a(10),
        }]
    );
    assert_eq!(p.signers, vec![a(1), a(20)]);
}

#[test]
fn create_account_uses_explicit_lamports_unchanged() {
    let c = Client::new(a(1));
    let p = c.create_account(&a(10), &a(20), 42, Some(5), 1234);
    match p.instructions[0] {
        PlannedInstruction::CreateAccount { lamports, .. } => assert_eq!(lamports, 5),
        _ => panic!("expected a create-account instruction"),
    }
}

#[test]
fn mint_plan_creates_then_initializes() {
    let c = Client::new(a(1));
    let mint = a(30);
    let authority = a(40);
    let p = c.create_token_mint(&mint, &authority, 2, 777);
    assert_eq!(
        p.instructions,
        vec![
            PlannedInstruction::CreateAccount {
                funder: a(1),
                new_account: mint,
                lamports: 777,
                space: spl_token::state::Mint::LEN as u64,
                owner: solana_client_helpers::addr::token_program_address(),
            },
            PlannedInstruction::InitializeMint { mint, authority, decimals: 2 },
        ]
    );
    assert_eq!(p.signers, vec![a(1), mint]);
}

#[test]
fn token_account_plan_creates_then_initializes() {
    let c = Client::new(a(1));
    let account = a(50);
    let owner = a(60);
    let mint = a(30);
    let p = c.create_token_account(&account, &owner, &mint, 999);
    assert_eq!(
        p.instructions,
        vec![
            PlannedInstruction::CreateAccount {
                funder: a(1),
                new_account: account,
                lamports: 999,
                space: spl_token::state::Account::LEN as u64,
                owner: solana_client_helpers::addr::token_program_address(),
            },
            PlannedInstruction::InitializeAccount { account, mint, owner },
        ]
    );
    assert_eq!(p.signers, vec![a(1), account]);
    let p2 = c.create_token_account_with_lamports(&account, &owner, &mint, 31);
    match p2.instructions[0] {
        PlannedInstruction::CreateAccount { lamports, .. } => assert_eq!(lamports, 31),
        _ => panic!("expected a create-account instruction"),
    }
}

#[test]
fn mint_to_plan_is_one_checked_instruction() {
    let c = Client::new(a(1));
    let p = c.mint_to(&a(40), &a(30), &a(50), 1000, 2);
    assert_eq!(
        p.instructions,
        vec![PlannedInstruction::MintToChecked {
            mint: a(30),
            account: a(50),
            authority: a(40),
            amount: 1000,
            decimals: 2,
        }]
    );
    assert_eq!(p.signers, vec![a(1), a(40)]);
}

#[test]
fn mint_to_by_payer_authority_dedups_signers() {
    let c = Client::new(a(1));
    let p = c.mint_to(&a(1), &a(30), &a(50), 1000, 2);
    assert_eq!(p.signers, vec![a(1)]);
}

#[test]
fn transfer_plan_is_one_checked_instruction() {
    let c = Client::new(a(1));
    let p = c.transfer_to(&a(40), &a(30), &a(50), &a(51), 500, 2);
    assert_eq!(
        p.instructions,
        vec![PlannedInstruction::TransferChecked {
            source: a(50),
            mint: a(30),
            destination: a(51),
            authority: a(40),
            amount: 500,
            decimals: 2,
        }]
    );
    assert_eq!(p.signers, vec![a(1), a(40)]);
}

#[test]
fn associated_account_plan_dedups_funder_equal_to_payer() {
    let c = Client::new(a(1));
    let (p, _) = c.create_associated_token_account(&a(1), &a(70), &a(30));
    assert_eq!(p.signers, vec![a(1)]);
    let (p2, _) = c.create_associated_token_account(&a(7), &a(70), &a(30));
    assert_eq!(p2.signers, vec![a(1), a(7)]);
    assert_eq!(
        p2.instructions,
        vec![PlannedInstruction::CreateAssociatedAccount {
            funder: a(7),
            recipient: a(70),
            mint: a(30),
        }]
    );
}

#[test]
fn associated_account_by_payer_records_same_address_as_derivation() {
    let c = Client::new(a(1));
    let (p, derived) = c.create_associated_token_account_by_payer(&a(70), &a(30));
    assert_eq!(p.signers, vec![a(1)]);
    let independent = Client::get_associated_token_address(&a(70), &a(30));
    assert_eq!(derived, independent);
}

#[test]
fn close_plan_is_one_instruction_signed_by_owner() {
    let c = Client::new(a(1));
    let p = c.close_token_account(&a(60), &a(50), &a(61));
    assert_eq!(
        p.instructions,
        vec![PlannedInstruction::CloseAccount {
            account: a(50),
            destination: a(61),
            owner: a(60),
        }]
    );
    assert_eq!(p.signers, vec![a(1), a(60)]);
}

#[test]
fn swap_pool_plan_orders_creations_before_initialize() {
    let c = Client::new(a(1));
    let program = a(100);
    let swap = a(101);
    let authority = a(102);
    let pool_mint = a(103);
    let token_a = a(104);
    let token_b = a(105);
    let owner = a(106);
    let fee_owner = a(107);
    let fee_account = a(108);
    let pool_supply_account = a(109);
    let p = c.create_swap(
        &program, &swap, &authority, &pool_mint, &token_a, &token_b, &owner,
        fees(), &fee_owner, &fee_account, &pool_supply_account, 555,
    );
    assert_eq!(p.instructions.len(), 5);
    assert_eq!(
        p.instructions[0],
        PlannedInstruction::CreateAccount {
            funder: a(1),
            new_account: fee_account,
            lamports: 555,
            space: spl_token::state::Account::LEN as u64,
            owner: solana_client_helpers::addr::token_program_address(),
        }
    );
    assert_eq!(
        p.instructions[1],
        PlannedInstruction::InitializeAccount { account: fee_account, mint: pool_mint, owner: fee_owner }
    );
    assert_eq!(
        p.instructions[3],
        PlannedInstruction::InitializeAccount { account: pool_supply_account, mint: pool_mint, owner }
    );
    assert_eq!(
        p.instructions[4],
        PlannedInstruction::InitializeSwap {
            program,
            swap,
            authority,
            token_a,
            token_b,
            pool_mint,
            fee_account,
            pool_supply_account,
            fees: fees(),
        }
    );
    assert_eq!(p.signers, vec![a(1), swap, fee_account, pool_supply_account]);
}

#[test]
fn swap_plan_is_one_instruction() {
    let c = Client::new(a(1));
    let p = c.swap(
        &a(100), &a(101), &a(102), &a(110), &a(111), &a(112), &a(113), &a(114),
        &a(103), &a(108), 1000, 900,
    );
    assert_eq!(p.instructions.len(), 1);
    assert_eq!(p.signers, vec![a(1), a(110)]);
    match p.instructions[0] {
        PlannedInstruction::Swap { amount_in, minimum_amount_out, .. } => {
            assert_eq!(amount_in, 1000);
            assert_eq!(minimum_amount_out, 900);
        }
        _ => panic!("expected a swap instruction"),
    }
}

#[test]
fn swap_pool_plan_dedups_repeated_signers() {
    let c = Client::new(a(1));
    // the payer doubles as the swap account and the two new accounts coincide
    let p = c.create_swap(
        &a(100), &a(1), &a(102), &a(103), &a(104), &a(105), &a(106),
        fees(), &a(107), &a(108), &a(108), 555,
    );
    assert_eq!(p.signers, vec![a(1), a(108)]);
}
