use solana_client_helpers::addr::Address;
use solana_client_helpers::client::Client;
use solana_client_helpers::error::ClientError;
use solana_client_helpers::ledger::Ledger;

fn a(n: u64) -> Address {
    Address::new(n, 0, 0, 0)
}

fn display(balance: u64, decimals: u32) -> f64 {
    balance as f64 / 10f64.powi(decimals as i32)
}

#[test]
fn scenario_mint_and_transfer_display_amounts() {
    let payer = a(1);
    let sender_wallet = a(2);
    let recipient_wallet = a(3);
    let mint = a(4);
    let c = Client::new(payer);
    let mut ledger = Ledger::new();

    ledger.airdrop(payer, 10_000_000_000).unwrap();
    assert_eq!(ledger.lamports_of(&payer), 10_000_000_000);

    let p = c.create_token_mint(&mint, &sender_wallet, 2, 1_000_000);
    ledger.apply_transaction(&p.instructions).unwrap();

    let (p, sender_account) = c.create_associated_token_account_by_payer(&sender_wallet, &mint);
    ledger.apply_transaction(&p.instructions).unwrap();
    let (p, recipient_account) = c.create_associated_token_account_by_payer(&recipient_wallet, &mint);
    ledger.apply_transaction(&p.instructions).unwrap();

    let p = c.mint_to(&sender_wallet, &mint, &sender_account, 1000, 2);
    ledger.apply_transaction(&p.instructions).unwrap();
    assert_eq!(ledger.token_balance(&sender_account), Some(1000));
    assert_eq!(display(1000, 2), 10.00);

    let p = c.transfer_to(&sender_wallet, &mint, &sender_account, &recipient_account, 500, 2);
    ledger.apply_transaction(&p.instructions).unwrap();
    assert_eq!(ledger.token_balance(&sender_account), Some(500));
    assert_eq!(ledger.token_balance(&recipient_account), Some(500));
    assert_eq!(display(500, 2), 5.00);
}

/// A ledger with a funded payer, one mint at two decimals whose authority is
/// `a(2)`, and two token accounts `a(10)` (holding 1000 units, owner `a(2)`)
/// and `a(11)` (empty, owner `a(3)`).
fn funded_ledger() -> (Client, Ledger) {
    let c = Client::new(a(1));
    let mut ledger = Ledger::new();
    ledger.airdrop(a(1), 10_000_000_000).unwrap();
    let p = c.create_token_mint(&a(4), &a(2), 2, 1_000_000);
    ledger.apply_transaction(&p.instructions).unwrap();
    let p = c.create_token_account(&a(10), &a(2), &a(4), 2_000_000);
    ledger.apply_transaction(&p.instructions).unwrap();
    let p = c.create_token_account(&a(11), &a(3), &a(4), 2_000_000);
    ledger.apply_transaction(&p.instructions).unwrap();
    let p = c.mint_to(&a(2), &a(4), &a(10), 1000, 2);
    ledger.apply_transaction(&p.instructions).unwrap();
    (c, ledger)
}

#[test]
fn transfer_moves_exact_amount() {
    let (c, mut ledger) = funded_ledger();
    let p = c.transfer_to(&a(2), &a(4), &a(10), &a(11), 300, 2);
    ledger.apply_transaction(&p.instructions).unwrap();
    assert_eq!(ledger.token_balance(&a(10)), Some(700));
    assert_eq!(ledger.token_balance(&a(11)), Some(300));
}

#[test]
fn transfer_beyond_balance_fails_and_changes_nothing() {
    let (c, mut ledger) = funded_ledger();
    let p = c.transfer_to(&a(2), &a(4), &a(10), &a(11), 1500, 2);
    let r = ledger.apply_transaction(&p.instructions);
    assert_eq!(r, Err(ClientError::Program));
    assert_eq!(ledger.token_balance(&a(10)), Some(1000));
    assert_eq!(ledger.token_balance(&a(11)), Some(0));
}

#[test]
fn mint_with_wrong_decimals_is_rejected() {
    let (c, mut ledger) = funded_ledger();
    let p = c.mint_to(&a(2), &a(4), &a(10), 1, 3);
    assert_eq!(ledger.apply_transaction(&p.instructions), Err(ClientError::Program));
    assert_eq!(ledger.token_balance(&a(10)), Some(1000));
}

#[test]
fn mint_by_wrong_authority_is_rejected() {
    let (c, mut ledger) = funded_ledger();
    let p = c.mint_to(&a(3), &a(4), &a(10), 1, 2);
    assert_eq!(ledger.apply_transaction(&p.instructions), Err(ClientError::Program));
}

#[test]
fn close_empty_account_credits_destination_and_disables_it() {
    let (c, mut ledger) = funded_ledger();
    let rent_deposit = ledger.lamports_of(&a(11));
    assert_eq!(rent_deposit, 2_000_000);
    let wallet_before = ledger.lamports_of(&a(3));

    let p = c.close_token_account(&a(3), &a(11), &a(3));
    ledger.apply_transaction(&p.instructions).unwrap();
    assert_eq!(ledger.token_balance(&a(11)), None);
    assert_eq!(ledger.lamports_of(&a(11)), 0);
    assert_eq!(ledger.lamports_of(&a(3)), wallet_before + rent_deposit);

    let p = c.transfer_to(&a(3), &a(4), &a(11), &a(10), 0, 2);
    assert_eq!(ledger.apply_transaction(&p.instructions), Err(ClientError::Program));
}

#[test]
fn close_account_with_token_balance_is_rejected() {
    let (c, mut ledger) = funded_ledger();
    let p = c.close_token_account(&a(2), &a(10), &a(2));
    assert_eq!(ledger.apply_transaction(&p.instructions), Err(ClientError::Program));
    assert_eq!(ledger.token_balance(&a(10)), Some(1000));
}

#[test]
fn failed_transaction_applies_no_instruction_at_all() {
    let (c, mut ledger) = funded_ledger();
    let payer_before = ledger.lamports_of(&a(1));
    // the account creation succeeds, but initializing against an unknown
    // mint is rejected, so the whole transaction lands nothing: the new
    // account keeps no lamports and the payer pays nothing
    let p = c.create_token_account(&a(20), &a(2), &a(99), 2_000_000);
    let r = ledger.apply_transaction(&p.instructions);
    assert_eq!(r, Err(ClientError::Program));
    assert_eq!(ledger.lamports_of(&a(1)), payer_before);
    assert_eq!(ledger.lamports_of(&a(20)), 0);
    assert_eq!(ledger.token_balance(&a(20)), None);
}

#[test]
fn self_transfer_changes_nothing() {
    let (c, mut ledger) = funded_ledger();
    let p = c.transfer_to(&a(2), &a(4), &a(10), &a(10), 400, 2);
    ledger.apply_transaction(&p.instructions).unwrap();
    assert_eq!(ledger.token_balance(&a(10)), Some(1000));
}

#[test]
fn associated_account_scenario_derives_where_it_creates() {
    let (c, mut ledger) = funded_ledger();
    let (p, derived) = c.create_associated_token_account_by_payer(&a(5), &a(4));
    ledger.apply_transaction(&p.instructions).unwrap();
    assert_eq!(derived, Client::get_associated_token_address(&a(5), &a(4)));
    assert_eq!(ledger.token_balance(&derived), Some(0));
    // creating it again is rejected: the derived address is already taken
    let (p2, _) = c.create_associated_token_account_by_payer(&a(5), &a(4));
    assert_eq!(ledger.apply_transaction(&p2.instructions), Err(ClientError::Program));
}

#[test]
fn airdrop_overflow_is_a_transport_error() {
    let mut ledger = Ledger::new();
    ledger.airdrop(a(1), u64::MAX).unwrap();
    assert_eq!(ledger.airdrop(a(1), 1), Err(ClientError::Transport));
    assert_eq!(ledger.lamports_of(&a(1)), u64::MAX);
}

#[test]
fn minting_beyond_u64_capacity_is_rejected() {
    let (c, mut ledger) = funded_ledger();
    let p = c.mint_to(&a(2), &a(4), &a(10), u64::MAX - 1000, 2);
    ledger.apply_transaction(&p.instructions).unwrap();
    assert_eq!(ledger.token_balance(&a(10)), Some(u64::MAX));
    let p = c.mint_to(&a(2), &a(4), &a(10), 1, 2);
    assert_eq!(ledger.apply_transaction(&p.instructions), Err(ClientError::Program));
    assert_eq!(ledger.token_balance(&a(10)), Some(u64::MAX));
}
