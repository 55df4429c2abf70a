use solana_client_helpers::addr::{token_program_address, Address};
use solana_client_helpers::client::Client;
use solana_client_helpers::instruction::PlannedInstruction;
use solana_client_helpers::realize::{realize_instruction, realize_plan};
use solana_sdk::program_pack::Pack;
use solana_sdk::pubkey::Pubkey;

fn pk(a: &Address) -> Pubkey {
    let mut b = [0u8; 32];
    b[0..8].copy_from_slice(&a.w0.to_le_bytes());
    b[8..16].copy_from_slice(&a.w1.to_le_bytes());
    b[16..24].copy_from_slice(&a.w2.to_le_bytes());
    b[24..32].copy_from_slice(&a.w3.to_le_bytes());
    Pubkey::new_from_array(b)
}

fn addr(p: &Pubkey) -> Address {
    let b = p.to_bytes();
    Address::new(
        u64::from_le_bytes(b[0..8].try_into().unwrap()),
        u64::from_le_bytes(b[8..16].try_into().unwrap()),
        u64::from_le_bytes(b[16..24].try_into().unwrap()),
        u64::from_le_bytes(b[24..32].try_into().unwrap()),
    )
}

#[test]
fn token_program_address_matches_real_id() {
    assert_eq!(pk(&token_program_address()), spl_token::id());
}

#[test]
fn associated_address_matches_real_derivation() {
    let wallet = Pubkey::new_unique();
    let mint = Pubkey::new_unique();
    let ours = Client::get_associated_token_address(&addr(&wallet), &addr(&mint));
    let real = spl_associated_token_account::get_associated_token_address(&wallet, &mint);
    assert_eq!(pk(&ours), real);
    assert_ne!(ours, addr(&wallet));
    assert_ne!(ours, addr(&mint));
}

#[test]
fn swap_authority_matches_real_derivation() {
    let swap = Pubkey::new_unique();
    let program = Pubkey::new_unique();
    let (ours, nonce) = Client::find_swap_authority(&addr(&swap), &addr(&program)).unwrap();
    let (real, real_nonce) = Pubkey::find_program_address(&[swap.as_ref()], &program);
    assert_eq!(pk(&ours), real);
    assert_eq!(nonce, real_nonce);
}

#[test]
fn realized_create_account_matches_builder() {
    let funder = Pubkey::new_unique();
    let fresh = Pubkey::new_unique();
    let owner = Pubkey::new_unique();
    let planned = PlannedInstruction::CreateAccount {
        funder: addr(&funder),
        new_account: addr(&fresh),
        lamports: 1234,
        space: 42,
        owner: addr(&owner),
    };
    let real = realize_instruction(&planned).unwrap();
    let expected = solana_sdk::system_instruction::create_account(&funder, &fresh, 1234, 42, &owner);
    assert_eq!(real, expected);
}

#[test]
fn realized_transfer_matches_builder() {
    let source = Pubkey::new_unique();
    let mint = Pubkey::new_unique();
    let destination = Pubkey::new_unique();
    let authority = Pubkey::new_unique();
    let planned = PlannedInstruction::TransferChecked {
        source: addr(&source),
        mint: addr(&mint),
        destination: addr(&destination),
        authority: addr(&authority),
        amount: 500,
        decimals: 2,
    };
    let real = realize_instruction(&planned).unwrap();
    let expected = spl_token::instruction::transfer_checked(
        &spl_token::id(), &source, &mint, &destination, &authority, &[], 500, 2,
    )
    .unwrap();
    assert_eq!(real, expected);
}

#[test]
fn realized_mint_plan_matches_builders() {
    let payer = Pubkey::new_unique();
    let mint = Pubkey::new_unique();
    let authority = Pubkey::new_unique();
    let c = Client::new(addr(&payer));
    let plan = c.create_token_mint(&addr(&mint), &addr(&authority), 2, 777);
    let real = realize_plan(&plan).unwrap();
    let expected = vec![
        solana_sdk::system_instruction::create_account(
            &payer, &mint, 777, spl_token::state::Mint::LEN as u64, &spl_token::id(),
        ),
        spl_token::instruction::initialize_mint(&spl_token::id(), &mint, &authority, None, 2).unwrap(),
    ];
    assert_eq!(real, expected);
}

#[test]
fn realized_associated_account_matches_builder() {
    let funder = Pubkey::new_unique();
    let recipient = Pubkey::new_unique();
    let mint = Pubkey::new_unique();
    let planned = PlannedInstruction::CreateAssociatedAccount {
        funder: addr(&funder),
        recipient: addr(&recipient),
        mint: addr(&mint),
    };
    let real = realize_instruction(&planned).unwrap();
    let expected = spl_associated_token_account::instruction::create_associated_token_account(
        &funder, &recipient, &mint, &spl_token::id(),
    );
    assert_eq!(real, expected);
}

#[test]
fn realized_close_matches_builder() {
    let account = Pubkey::new_unique();
    let destination = Pubkey::new_unique();
    let owner = Pubkey::new_unique();
    let planned = PlannedInstruction::CloseAccount {
        account: addr(&account),
        destination: addr(&destination),
        owner: addr(&owner),
    };
    let real = realize_instruction(&planned).unwrap();
    let expected =
        spl_token::instruction::close_account(&spl_token::id(), &account, &destination, &owner, &[])
            .unwrap();
    assert_eq!(real, expected);
}

#[test]
fn realized_mint_to_matches_builder() {
    let mint = Pubkey::new_unique();
    let account = Pubkey::new_unique();
    let authority = Pubkey::new_unique();
    let planned = PlannedInstruction::MintToChecked {
        mint: addr(&mint),
        account: addr(&account),
        authority: addr(&authority),
        amount: 1000,
        decimals: 2,
    };
    let real = realize_instruction(&planned).unwrap();
    let expected = spl_token::instruction::mint_to_checked(
        &spl_token::id(), &mint, &account, &authority, &[], 1000, 2,
    )
    .unwrap();
    assert_eq!(real, expected);
}

#[test]
fn realized_swap_instructions_target_swap_program() {
    let c = Client::new(addr(&Pubkey::new_unique()));
    let program = Pubkey::new_unique();
    let fees = solana_client_helpers::instruction::FeeSchedule {
        trade_fee_numerator: 1,
        trade_fee_denominator: 4,
        owner_trade_fee_numerator: 2,
        owner_trade_fee_denominator: 5,
        owner_withdraw_fee_numerator: 1,
        owner_withdraw_fee_denominator: 3,
        host_fee_numerator: 5,
        host_fee_denominator: 20,
    };
    let plan = c.create_swap(
        &addr(&program),
        &addr(&Pubkey::new_unique()),
        &addr(&Pubkey::new_unique()),
        &addr(&Pubkey::new_unique()),
        &addr(&Pubkey::new_unique()),
        &addr(&Pubkey::new_unique()),
        &addr(&Pubkey::new_unique()),
        fees,
        &addr(&Pubkey::new_unique()),
        &addr(&Pubkey::new_unique()),
        &addr(&Pubkey::new_unique()),
        555,
    );
    let real = realize_plan(&plan).unwrap();
    assert_eq!(real.len(), 5);
    assert_eq!(real[4].program_id, program);
    let swap_ix = realize_instruction(&PlannedInstruction::Swap {
        program: addr(&program),
        swap: addr(&Pubkey::new_unique()),
        authority: addr(&Pubkey::new_unique()),
        user_transfer_authority: addr(&Pubkey::new_unique()),
        source: addr(&Pubkey::new_unique()),
        pool_source: addr(&Pubkey::new_unique()),
        pool_destination: addr(&Pubkey::new_unique()),
        destination: addr(&Pubkey::new_unique()),
        pool_mint: addr(&Pubkey::new_unique()),
        fee_account: addr(&Pubkey::new_unique()),
        amount_in: 1000,
        minimum_amount_out: 900,
    })
    .unwrap();
    assert_eq!(swap_ix.program_id, program);
}
