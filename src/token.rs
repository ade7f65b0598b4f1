use vstd::prelude::*;
use solana_program::pubkey::Pubkey;
use crate::cpi::{
    account_list, delivers, guarded, meta, plan, token_program_bytes, AccountMeta, AccountSchema,
    AdapterError, Address, CpiContext, Environment, InstructionDescriptor, InstructionView, Invocation,
};

verus! {

pub open spec fn sync_native_ix(token_program: Seq<u8>, account: Seq<u8>) -> InstructionView {
    InstructionView { program_id: token_program, accounts: seq![meta(account, false, true)], data: seq![17u8] }
}

/// Relies on spl_token::instruction::sync_native (3.5.0): it refuses every
/// program address but the token program's, and otherwise names the account
/// alone, writable, with the one-byte payload `SyncNative` (17).
#[verifier::external_body]
fn sync_native_instruction(token_program: &Address, account: &Address) -> (r: Option<InstructionDescriptor>)
    ensures
        r is Some <==> token_program@ == token_program_bytes(),
        r matches Some(ix) ==> ix@ == sync_native_ix(token_program@, account@),
{
    let k = |a: &Address| Pubkey::new_from_array(a.bytes);
    let ix = spl_token::instruction::sync_native(&k(token_program), &k(account)).ok()?;
    let m = |m: &solana_program::instruction::AccountMeta| AccountMeta { pubkey: Address { bytes: m.pubkey.to_bytes() }, is_signer: m.is_signer, is_writable: m.is_writable };
    Some(InstructionDescriptor { program_id: Address { bytes: ix.program_id.to_bytes() }, accounts: ix.accounts.iter().map(m).collect(), data: ix.data })
}

/// The SPL token program: one address in every environment.
pub fn token_program_id(env: Environment) -> (r: Address)
    ensures
        r@ == token_program_bytes(),
{
    let r = Address {
        bytes: [
            6u8, 221, 246, 225, 215, 101, 161, 147, 217, 203, 225, 70, 206, 235, 121, 172,
            28, 180, 133, 237, 95, 91, 55, 145, 58, 140, 245, 133, 126, 255, 0, 169,
        ],
    };
    assert(r@ =~= token_program_bytes());
    r
}

/// Accounts of a native-balance sync: the wrapped-SOL account and the token program.
#[derive(Clone, Copy)]
pub struct SyncNative {
    pub account: Address,
    pub token_program: Address,
}

impl AccountSchema for SyncNative {
    open spec fn keys(&self) -> Seq<Address> {
        seq![self.account, self.token_program]
    }

    fn to_account_infos(&self) -> (r: Vec<Address>) {
        let r = vec![self.account, self.token_program];
        assert(r@ =~= self.keys());
        r
    }
}

pub open spec fn sync_native_outcome(
    program: Address,
    a: SyncNative,
    remaining: Seq<Address>,
) -> Result<(InstructionView, Seq<Address>), AdapterError> {
    guarded(program@ == token_program_bytes(), Ok((sync_native_ix(program@, a.account@), account_list(a, remaining))))
}

/// Brings the token balance of a wrapped-SOL account in line with its lamports.
pub fn sync_native(env: Environment, ctx: CpiContext<SyncNative>) -> (r: Result<
    Invocation<InstructionDescriptor>,
    AdapterError,
>)
    ensures
        delivers(r, sync_native_outcome(ctx.program, ctx.accounts, ctx.remaining_accounts@), ctx.signer_seeds.deep_view()),
{
    if !ctx.program.same_as(&token_program_id(env)) {
        return Err(AdapterError::IdentityMismatch);
    }
    match sync_native_instruction(&ctx.program, &ctx.accounts.account) {
        Some(ix) => Ok(plan(ctx, ix)),
        None => Err(AdapterError::EncodingError),
    }
}

} // verus!
