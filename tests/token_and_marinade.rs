use std::str::FromStr;

use anchor_comp::cpi::{surface, AccountMeta, AdapterError, Address, CpiContext, Dispatch, Environment};
use anchor_comp::marinade::{self, Marinade, MarinadeInstruction};
use anchor_comp::token::{sync_native, token_program_id, SyncNative};
use solana_program::pubkey::Pubkey;

fn addr(n: u8) -> Address {
    Address::new([n; 32])
}

fn marinade_metas() -> Vec<AccountMeta> {
    (1..=11u8).map(|n| AccountMeta { pubkey: addr(n), is_signer: n == 7, is_writable: n % 2 == 0 }).collect()
}

#[test]
fn token_program_id_is_the_token_program() {
    assert_eq!(token_program_id(Environment::Development).bytes, spl_token::id().to_bytes());
}

#[test]
fn sync_native_names_the_account_writable() {
    let env = Environment::Production;
    let ctx = CpiContext::new(token_program_id(env), SyncNative { account: addr(5), token_program: token_program_id(env) });
    let inv = sync_native(env, ctx).unwrap();
    assert_eq!(inv.instruction.data, vec![17]);
    assert_eq!(inv.instruction.program_id.bytes, spl_token::id().to_bytes());
    assert_eq!(inv.instruction.accounts.len(), 1);
    assert_eq!(inv.instruction.accounts[0].pubkey.bytes, [5; 32]);
    assert!(inv.instruction.accounts[0].is_writable);
    assert!(!inv.instruction.accounts[0].is_signer);
    assert_eq!(inv.account_infos.len(), 2);
    assert_eq!(inv.account_infos[0].bytes, [5; 32]);
}

#[test]
fn sync_native_refuses_another_program() {
    let env = Environment::Production;
    let ctx = CpiContext::new(addr(1), SyncNative { account: addr(5), token_program: addr(1) });
    assert_eq!(sync_native(env, ctx).err(), Some(AdapterError::IdentityMismatch));
}

#[test]
fn marinade_id_matches_its_base58_form() {
    let id = Pubkey::from_str("MarBmsSgKXdrN1egZf5sqe1TMai9K1rChYNDJgjq7aD").unwrap();
    assert_eq!(Marinade::id(Environment::Production).bytes, id.to_bytes());
}

#[test]
fn marinade_deposit_carries_the_lamports() {
    let env = Environment::Production;
    let seeds = vec![vec![b"pda".to_vec()]];
    let ctx = CpiContext::new(Marinade::id(env), marinade_metas()).with_signer(seeds.clone());
    let inv = marinade::deposit(env, ctx, 1_000_000).unwrap();
    assert_eq!(inv.instruction.instruction, MarinadeInstruction::Deposit { lamports: 1_000_000 });
    assert_eq!(inv.instruction.accounts.len(), 11);
    assert!(inv.instruction.accounts[6].is_signer);
    assert!(inv.instruction.accounts[1].is_writable);
    let infos: Vec<[u8; 32]> = inv.account_infos.iter().map(|a| a.bytes).collect();
    assert_eq!(infos, (1..=11u8).map(|n| [n; 32]).collect::<Vec<_>>());
    match inv.dispatch {
        Dispatch::Signed(s) => assert_eq!(s, seeds),
        Dispatch::Unsigned => panic!("expected a signed invocation"),
    }
}

#[test]
fn marinade_liquid_unstake_carries_the_amount() {
    let env = Environment::Development;
    let ctx = CpiContext::new(Marinade::id(env), marinade_metas()).with_remaining_accounts(vec![addr(50)]);
    let inv = marinade::liquid_unstake(env, ctx, 25).unwrap();
    assert_eq!(inv.instruction.instruction, MarinadeInstruction::LiquidUnstake { msol_amount: 25 });
    assert_eq!(inv.account_infos.len(), 12);
    assert_eq!(inv.account_infos[11].bytes, [50; 32]);
}

#[test]
fn marinade_refuses_another_program() {
    let env = Environment::Production;
    let r = marinade::deposit(env, CpiContext::new(addr(3), marinade_metas()), 1);
    assert_eq!(r.err(), Some(AdapterError::IdentityMismatch));
    let r = marinade::liquid_unstake(env, CpiContext::new(addr(3), marinade_metas()), 1);
    assert_eq!(r.err(), Some(AdapterError::IdentityMismatch));
}

#[test]
fn runtime_failures_are_surfaced_unchanged() {
    assert_eq!(surface(Ok(())), Ok(()));
    assert_eq!(surface(Err(0x1_0000_0000)), Err(AdapterError::InvocationError(0x1_0000_0000)));
}
