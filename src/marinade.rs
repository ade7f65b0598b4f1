use vstd::prelude::*;
use crate::cpi::{
    account_list, delivers, guarded, plan, AccountMeta, AccountSchema, AdapterError, Address,
    CpiContext, Environment, Invocation, MetaView,
};

verus! {

/// Marinade has one address in both environments.
pub open spec fn marinade_id(env: Environment) -> Seq<u8> {
    seq![
        5u8, 69, 227, 101, 190, 242, 113, 173, 117, 53, 3, 103, 86, 93, 164, 13,
        163, 54, 220, 28, 135, 155, 177, 84, 138, 122, 252, 197, 90, 169, 57, 30,
    ]
}

/// The Marinade liquid-staking program.
#[derive(Clone, Copy)]
pub struct Marinade;

impl Marinade {
    /// The canonical Marinade program address of `env`.
    pub fn id(env: Environment) -> (r: Address)
        ensures
            r@ == marinade_id(env),
    {
        let r = Address {
            bytes: [
                5u8, 69, 227, 101, 190, 242, 113, 173, 117, 53, 3, 103, 86, 93, 164, 13,
                163, 54, 220, 28, 135, 155, 177, 84, 138, 122, 252, 197, 90, 169, 57, 30,
            ],
        };
        assert(r@ =~= marinade_id(env));
        r
    }
}

/// Checks that the supplied program address is the Marinade program of `env`.
pub fn check_program_account(env: Environment, marinade_program_id: &Address) -> (r: Result<
    (),
    AdapterError,
>)
    ensures
        r is Ok <==> marinade_program_id@ == marinade_id(env),
        r is Err ==> r == Err::<(), AdapterError>(AdapterError::IdentityMismatch),
{
    if marinade_program_id.same_as(&Marinade::id(env)) {
        Ok(())
    } else {
        Err(AdapterError::IdentityMismatch)
    }
}

/// The Marinade instructions this layer sends, with their typed arguments.
#[derive(Clone, Copy, Debug, PartialEq, Eq, Structural)]
pub enum MarinadeInstruction {
    Deposit { lamports: u64 },
    LiquidUnstake { msol_amount: u64 },
}

/// Marinade's account list comes whole from the caller, already flagged.
impl AccountSchema for Vec<AccountMeta> {
    open spec fn keys(&self) -> Seq<Address> {
        self@.map_values(|m: AccountMeta| m.pubkey)
    }

    fn to_account_infos(&self) -> (r: Vec<Address>) {
        let mut r: Vec<Address> = Vec::new();
        let mut i: usize = 0;
        while i < self.len()
            invariant
                0 <= i <= self@.len(),
                r@ == self@.subrange(0, i as int).map_values(|m: AccountMeta| m.pubkey),
            decreases self@.len() - i,
        {
            r.push(self[i].pubkey);
            i = i + 1;
            assert(r@ =~= self@.subrange(0, i as int).map_values(|m: AccountMeta| m.pubkey));
        }
        assert(self@.subrange(0, i as int) =~= self@);
        r
    }
}

fn copy_metas(metas: &Vec<AccountMeta>) -> (r: Vec<AccountMeta>)
    ensures
        r@ == metas@,
{
    let mut r: Vec<AccountMeta> = Vec::new();
    let mut i: usize = 0;
    while i < metas.len()
        invariant
            0 <= i <= metas@.len(),
            r@ == metas@.subrange(0, i as int),
        decreases metas@.len() - i,
    {
        r.push(metas[i]);
        i = i + 1;
        assert(r@ =~= metas@.subrange(0, i as int));
    }
    assert(metas@.subrange(0, i as int) =~= metas@);
    r
}

/// A Marinade call: the program, the accounts with their flags, and the
/// instruction that Marinade's encoder turns into the payload.
pub struct MarinadeCall {
    pub program_id: Address,
    pub accounts: Vec<AccountMeta>,
    pub instruction: MarinadeInstruction,
}

pub struct MarinadeCallView {
    pub program_id: Address,
    pub accounts: Seq<MetaView>,
    pub instruction: MarinadeInstruction,
}

impl View for MarinadeCall {
    type V = MarinadeCallView;

    open spec fn view(&self) -> MarinadeCallView {
        MarinadeCallView {
            program_id: self.program_id,
            accounts: self.accounts@.map_values(|m: AccountMeta| m@),
            instruction: self.instruction,
        }
    }
}

pub open spec fn marinade_outcome(
    env: Environment,
    program: Address,
    accounts: Vec<AccountMeta>,
    remaining: Seq<Address>,
    instruction: MarinadeInstruction,
) -> Result<(MarinadeCallView, Seq<Address>), AdapterError> {
    guarded(
        program@ == marinade_id(env),
        Ok((
            MarinadeCallView { program_id: program, accounts: accounts@.map_values(|m: AccountMeta| m@), instruction },
            account_list(accounts, remaining),
        )),
    )
}

fn marinade_call(env: Environment, ctx: CpiContext<Vec<AccountMeta>>, instruction: MarinadeInstruction) -> (r: Result<
    Invocation<MarinadeCall>,
    AdapterError,
>)
    ensures
        delivers(
            r,
            marinade_outcome(env, ctx.program, ctx.accounts, ctx.remaining_accounts@, instruction),
            ctx.signer_seeds.deep_view(),
        ),
{
    check_program_account(env, &ctx.program)?;
    let call = MarinadeCall { program_id: ctx.program, accounts: copy_metas(&ctx.accounts), instruction };
    Ok(plan(ctx, call))
}

/// Stakes `deposit_lamports` lamports for mSOL.
pub fn deposit(env: Environment, ctx: CpiContext<Vec<AccountMeta>>, deposit_lamports: u64) -> (r: Result<
    Invocation<MarinadeCall>,
    AdapterError,
>)
    ensures
        delivers(
            r,
            marinade_outcome(
                env,
                ctx.program,
                ctx.accounts,
                ctx.remaining_accounts@,
                MarinadeInstruction::Deposit { lamports: deposit_lamports },
            ),
            ctx.signer_seeds.deep_view(),
        ),
{
    marinade_call(env, ctx, MarinadeInstruction::Deposit { lamports: deposit_lamports })
}

/// Swaps `msol_liquid_unstake_amount` mSOL back to SOL through the liquidity pool.
pub fn liquid_unstake(env: Environment, ctx: CpiContext<Vec<AccountMeta>>, msol_liquid_unstake_amount: u64) -> (r: Result<
    Invocation<MarinadeCall>,
    AdapterError,
>)
    ensures
        delivers(
            r,
            marinade_outcome(
                env,
                ctx.program,
                ctx.accounts,
                ctx.remaining_accounts@,
                MarinadeInstruction::LiquidUnstake { msol_amount: msol_liquid_unstake_amount },
            ),
            ctx.signer_seeds.deep_view(),
        ),
{
    marinade_call(env, ctx, MarinadeInstruction::LiquidUnstake { msol_amount: msol_liquid_unstake_amount })
}

} // verus!
