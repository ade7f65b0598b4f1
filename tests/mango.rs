use std::str::FromStr;

use anchor_comp::cpi::{AdapterError, Address, CpiContext, Dispatch, Environment};
use anchor_comp::mango_markets_v3::{
    create_mango_account, deposit, place_perp_order2, withdraw, CreateMangoAccount, Deposit,
    MangoMarketV3, OrderType, PlacePerpOrder2, Side, Withdraw, MAX_PAIRS,
};
use solana_program::pubkey::Pubkey;

fn addr(n: u8) -> Address {
    Address::new([n; 32])
}

fn deposit_accounts() -> Deposit {
    Deposit {
        mango_group: addr(1),
        mango_account: addr(2),
        owner: addr(3),
        mango_cache: addr(4),
        root_bank: addr(5),
        node_bank: addr(6),
        vault: addr(7),
        owner_token_account: addr(8),
    }
}

fn withdraw_accounts() -> Withdraw {
    Withdraw {
        mango_group: addr(1),
        mango_account: addr(2),
        owner: addr(3),
        mango_cache: addr(4),
        root_bank: addr(5),
        node_bank: addr(6),
        vault: addr(7),
        token_account: addr(8),
        signer: addr(9),
    }
}

fn perp_accounts() -> PlacePerpOrder2 {
    PlacePerpOrder2 {
        mango_group: addr(1),
        mango_account: addr(2),
        owner: addr(3),
        mango_cache: addr(4),
        perp_market: addr(5),
        bids: addr(6),
        asks: addr(7),
        event_queue: addr(8),
    }
}

fn keys(v: &[Address]) -> Vec<[u8; 32]> {
    v.iter().map(|a| a.bytes).collect()
}

fn seq_keys(range: std::ops::RangeInclusive<u8>) -> Vec<[u8; 32]> {
    range.map(|n| [n; 32]).collect()
}

#[test]
fn program_ids_match_their_base58_form() {
    let dev = Pubkey::from_str("4skJ85cdxQAFVKbcGgfun8iZPL7BadVYXG3kGEGkufqA").unwrap();
    let prod = Pubkey::from_str("mv3ekLzLbnVPNxjSKvqBpU3ZeZXPQdEC3bp5MDEBG68").unwrap();
    assert_eq!(MangoMarketV3::id(Environment::Development).bytes, dev.to_bytes());
    assert_eq!(MangoMarketV3::id(Environment::Production).bytes, prod.to_bytes());
}

#[test]
fn deposit_one_million_builds_eight_accounts_in_schema_order() {
    let ctx = CpiContext::new(MangoMarketV3::id(Environment::Production), deposit_accounts());
    let inv = deposit(Environment::Production, ctx, 1_000_000).unwrap();
    assert_eq!(inv.instruction.quantity, 1_000_000);
    assert_eq!(inv.instruction.program_id.bytes, MangoMarketV3::id(Environment::Production).bytes);
    assert_eq!(keys(&inv.account_infos), seq_keys(1..=8));
    assert!(matches!(inv.dispatch, Dispatch::Unsigned));
}

#[test]
fn wrong_program_is_refused_for_every_mango_operation() {
    let wrong = MangoMarketV3::id(Environment::Development);
    let env = Environment::Production;
    let c = CreateMangoAccount {
        mango_group: addr(1),
        mango_account: addr(2),
        owner: addr(3),
        system_prog: addr(4),
        payer: addr(5),
    };
    assert_eq!(create_mango_account(env, CpiContext::new(wrong, c), 1).err(), Some(AdapterError::IdentityMismatch));
    assert_eq!(deposit(env, CpiContext::new(wrong, deposit_accounts()), 5).err(), Some(AdapterError::IdentityMismatch));
    assert_eq!(
        withdraw(env, CpiContext::new(wrong, withdraw_accounts()), 5, false).err(),
        Some(AdapterError::IdentityMismatch)
    );
    let r = place_perp_order2(
        env,
        CpiContext::new(addr(99), perp_accounts()),
        Side::Bid,
        100,
        1,
        100,
        7,
        OrderType::Limit,
        false,
        None,
        20,
    );
    assert_eq!(r.err(), Some(AdapterError::IdentityMismatch));
}

#[test]
fn create_mango_account_passes_the_account_number() {
    let env = Environment::Development;
    let c = CreateMangoAccount {
        mango_group: addr(1),
        mango_account: addr(2),
        owner: addr(3),
        system_prog: addr(4),
        payer: addr(5),
    };
    let inv = create_mango_account(env, CpiContext::new(MangoMarketV3::id(env), c), 3).unwrap();
    assert_eq!(inv.instruction.account_num, 3);
    assert_eq!(keys(&inv.account_infos), seq_keys(1..=5));
}

#[test]
fn withdraw_pads_open_orders_to_the_slot_count() {
    let env = Environment::Production;
    let ctx = CpiContext::new(MangoMarketV3::id(env), withdraw_accounts())
        .with_remaining_accounts(vec![addr(20), addr(21)]);
    let inv = withdraw(env, ctx, 42, true).unwrap();
    let slots = &inv.instruction.open_orders;
    assert_eq!(slots.len(), MAX_PAIRS);
    assert_eq!(slots[0].bytes, [20; 32]);
    assert_eq!(slots[1].bytes, [21; 32]);
    for s in &slots[2..] {
        assert_eq!(s.bytes, [0; 32]);
    }
    assert_eq!(inv.instruction.quantity, 42);
    assert!(inv.instruction.allow_borrow);
    let mut expected = seq_keys(1..=9);
    expected.push([20; 32]);
    expected.push([21; 32]);
    assert_eq!(keys(&inv.account_infos), expected);
}

#[test]
fn withdraw_without_open_orders_has_only_null_slots() {
    let env = Environment::Production;
    let inv = withdraw(env, CpiContext::new(MangoMarketV3::id(env), withdraw_accounts()), 1, false).unwrap();
    assert_eq!(inv.instruction.open_orders.len(), MAX_PAIRS);
    assert!(inv.instruction.open_orders.iter().all(|a| a.bytes == [0; 32]));
    assert_eq!(keys(&inv.account_infos), seq_keys(1..=9));
}

#[test]
fn withdraw_with_more_sub_accounts_than_slots_keeps_the_first() {
    let env = Environment::Production;
    let supplied: Vec<Address> = (100..117).map(addr).collect();
    let ctx = CpiContext::new(MangoMarketV3::id(env), withdraw_accounts()).with_remaining_accounts(supplied);
    let inv = withdraw(env, ctx, 1, false).unwrap();
    assert_eq!(keys(&inv.instruction.open_orders), seq_keys(100..=114));
    assert_eq!(inv.account_infos.len(), 9 + 17);
}

#[test]
fn remaining_accounts_keep_their_order() {
    let env = Environment::Production;
    let forward = vec![addr(30), addr(31), addr(32)];
    let backward = vec![addr(32), addr(31), addr(30)];
    for tail in [forward, backward] {
        let ctx = CpiContext::new(MangoMarketV3::id(env), deposit_accounts()).with_remaining_accounts(tail.clone());
        let inv = deposit(env, ctx, 1).unwrap();
        let mut expected = seq_keys(1..=8);
        expected.extend(keys(&tail));
        assert_eq!(keys(&inv.account_infos), expected);
    }
}

#[test]
fn perp_order_takes_the_referrer_first() {
    let env = Environment::Development;
    let ctx = CpiContext::new(MangoMarketV3::id(env), perp_accounts())
        .with_remaining_accounts(vec![addr(50), addr(60)]);
    let inv = place_perp_order2(env, ctx, Side::Ask, -5, 10, 20, 99, OrderType::PostOnly, true, Some(0), 8).unwrap();
    let call = &inv.instruction;
    assert_eq!(call.referral.map(|a| a.bytes), Some([50; 32]));
    assert_eq!(call.open_orders.len(), MAX_PAIRS);
    assert_eq!(call.open_orders[0].bytes, [60; 32]);
    assert_eq!(call.open_orders[1].bytes, [0; 32]);
    assert_eq!(call.order.side, Side::Ask);
    assert_eq!(call.order.price, -5);
    assert_eq!(call.order.max_base_quantity, 10);
    assert_eq!(call.order.max_quote_quantity, 20);
    assert_eq!(call.order.client_order_id, 99);
    assert_eq!(call.order.order_type, OrderType::PostOnly);
    assert!(call.order.reduce_only);
    assert_eq!(call.order.expiry_timestamp, Some(0));
    assert_eq!(call.order.limit, 8);
}

#[test]
fn perp_order_without_referrer() {
    let env = Environment::Development;
    let ctx = CpiContext::new(MangoMarketV3::id(env), perp_accounts());
    let inv = place_perp_order2(env, ctx, Side::Bid, 1, 1, 1, 1, OrderType::Market, false, None, 1).unwrap();
    assert!(inv.instruction.referral.is_none());
    assert!(inv.instruction.open_orders.iter().all(|a| a.bytes == [0; 32]));
}

#[test]
fn signing_changes_only_the_entry_point() {
    let env = Environment::Production;
    let seeds = vec![vec![b"vault".to_vec(), vec![254]]];
    let plain = CpiContext::new(MangoMarketV3::id(env), withdraw_accounts()).with_remaining_accounts(vec![addr(20)]);
    let signed = CpiContext::new(MangoMarketV3::id(env), withdraw_accounts())
        .with_remaining_accounts(vec![addr(20)])
        .with_signer(seeds.clone());
    let a = withdraw(env, plain, 7, false).unwrap();
    let b = withdraw(env, signed, 7, false).unwrap();
    assert_eq!(keys(&a.instruction.open_orders), keys(&b.instruction.open_orders));
    assert_eq!(a.instruction.quantity, b.instruction.quantity);
    assert_eq!(keys(&a.account_infos), keys(&b.account_infos));
    assert!(matches!(a.dispatch, Dispatch::Unsigned));
    match b.dispatch {
        Dispatch::Signed(s) => assert_eq!(s, seeds),
        Dispatch::Unsigned => panic!("expected a signed invocation"),
    }
}

#[test]
fn address_comparison_is_byte_wise() {
    let a = addr(1);
    let mut bytes = [1u8; 32];
    assert!(a.same_as(&Address::new(bytes)));
    bytes[31] = 2;
    assert!(!a.same_as(&Address::new(bytes)));
    assert!(Address::null().same_as(&Address::new([0; 32])));
}
