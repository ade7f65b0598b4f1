use vstd::prelude::*;

verus! {

/// A 32-byte account or program address.
#[derive(Clone, Copy, Debug)]
pub struct Address {
    pub bytes: [u8; 32],
}

impl View for Address {
    type V = Seq<u8>;

    open spec fn view(&self) -> Seq<u8> {
        self.bytes@
    }
}

/// The address made of 32 zero bytes, used for an unused slot.
pub open spec fn null_bytes() -> Seq<u8> {
    Seq::new(32, |i: int| 0u8)
}

impl Address {
    pub fn new(bytes: [u8; 32]) -> (r: Address)
        ensures
            r@ == bytes@,
    {
        Address { bytes }
    }

    pub fn null() -> (r: Address)
        ensures
            r@ == null_bytes(),
    {
        let r = Address { bytes: [0u8; 32] };
        assert(r@ =~= null_bytes());
        r
    }

    /// Byte-wise comparison of two addresses.
    pub fn same_as(&self, other: &Address) -> (r: bool)
        ensures
            r == (self@ == other@),
    {
        let mut i: usize = 0;
        while i < 32
            invariant
                0 <= i <= 32,
                self@.len() == 32,
                other@.len() == 32,
                forall|j: int| 0 <= j < i ==> self@[j] == other@[j],
            decreases 32 - i,
        {
            if self.bytes[i] != other.bytes[i] {
                return false;
            }
            i = i + 1;
        }
        assert(self@ =~= other@);
        true
    }
}

/// The address of the SPL token program, which governance instructions name.
pub open spec fn token_program_bytes() -> Seq<u8> {
    seq![
        6u8, 221, 246, 225, 215, 101, 161, 147, 217, 203, 225, 70, 206, 235, 121, 172,
        28, 180, 133, 237, 95, 91, 55, 145, 58, 140, 245, 133, 126, 255, 0, 169,
    ]
}

/// The deployment whose program addresses are in force.
#[derive(Clone, Copy, Debug, PartialEq, Eq, Structural)]
pub enum Environment {
    Development,
    Production,
}

/// The three ways an operation can fail.
#[derive(Clone, Copy, Debug, PartialEq, Eq, Structural)]
pub enum AdapterError {
    /// The target program is not the canonical one of the active environment.
    IdentityMismatch,
    /// The arguments could not be put into the foreign program's wire format.
    EncodingError,
    /// The runtime rejected the invocation; the runtime's error code is kept.
    InvocationError(u64),
}

/// One account of an instruction, with its signer and mutability flags.
#[derive(Clone, Copy)]
pub struct AccountMeta {
    pub pubkey: Address,
    pub is_signer: bool,
    pub is_writable: bool,
}

pub struct MetaView {
    pub pubkey: Seq<u8>,
    pub is_signer: bool,
    pub is_writable: bool,
}

impl View for AccountMeta {
    type V = MetaView;

    open spec fn view(&self) -> MetaView {
        MetaView { pubkey: self.pubkey@, is_signer: self.is_signer, is_writable: self.is_writable }
    }
}

pub open spec fn meta(pubkey: Seq<u8>, is_signer: bool, is_writable: bool) -> MetaView {
    MetaView { pubkey, is_signer, is_writable }
}

/// A fully built instruction: target program, ordered accounts and payload.
pub struct InstructionDescriptor {
    pub program_id: Address,
    pub accounts: Vec<AccountMeta>,
    pub data: Vec<u8>,
}

pub struct InstructionView {
    pub program_id: Seq<u8>,
    pub accounts: Seq<MetaView>,
    pub data: Seq<u8>,
}

impl View for InstructionDescriptor {
    type V = InstructionView;

    open spec fn view(&self) -> InstructionView {
        InstructionView {
            program_id: self.program_id@,
            accounts: self.accounts@.map_values(|m: AccountMeta| m@),
            data: self.data@,
        }
    }
}

/// Which entry point of the runtime performs the invocation.
pub enum Dispatch {
    /// Plain invocation: every authority is already a signer of the transaction.
    Unsigned,
    /// Invocation signed for program-derived addresses with these seed sets.
    Signed(Vec<Vec<Vec<u8>>>),
}

/// The entry point that a list of signer seed sets selects.
pub open spec fn dispatches(d: Dispatch, seeds: Seq<Seq<Seq<u8>>>) -> bool {
    if seeds.len() == 0 {
        d is Unsigned
    } else {
        d matches Dispatch::Signed(s) && s.deep_view() == seeds
    }
}

/// The fixed accounts of an operation, in the order the foreign program expects.
pub trait AccountSchema {
    spec fn keys(&self) -> Seq<Address>;

    fn to_account_infos(&self) -> (r: Vec<Address>)
        ensures
            r@ == self.keys(),
    ;
}

/// What a caller hands to an operation: the target program, the fixed accounts,
/// the accounts beyond the schema, and the seed sets to sign with.
pub struct CpiContext<T> {
    pub program: Address,
    pub accounts: T,
    pub remaining_accounts: Vec<Address>,
    pub signer_seeds: Vec<Vec<Vec<u8>>>,
}

impl<T> CpiContext<T> {
    pub fn new(program: Address, accounts: T) -> (r: CpiContext<T>)
        ensures
            r.program == program,
            r.accounts == accounts,
            r.remaining_accounts@.len() == 0,
            r.signer_seeds@.len() == 0,
    {
        CpiContext { program, accounts, remaining_accounts: Vec::new(), signer_seeds: Vec::new() }
    }

    pub fn with_remaining_accounts(self, remaining: Vec<Address>) -> (r: CpiContext<T>)
        ensures
            r.program == self.program,
            r.accounts == self.accounts,
            r.remaining_accounts == remaining,
            r.signer_seeds == self.signer_seeds,
    {
        CpiContext { remaining_accounts: remaining, ..self }
    }

    pub fn with_signer(self, seeds: Vec<Vec<Vec<u8>>>) -> (r: CpiContext<T>)
        ensures
            r.program == self.program,
            r.accounts == self.accounts,
            r.remaining_accounts == self.remaining_accounts,
            r.signer_seeds == seeds,
    {
        CpiContext { signer_seeds: seeds, ..self }
    }
}

/// A checked and built operation, ready to be handed to the runtime.
pub struct Invocation<I> {
    pub instruction: I,
    pub account_infos: Vec<Address>,
    pub dispatch: Dispatch,
}

/// The account infos handed to the runtime: the fixed accounts in schema
/// order, then the remaining accounts in the order supplied.
pub open spec fn account_list<T: AccountSchema>(accounts: T, remaining: Seq<Address>) -> Seq<Address> {
    accounts.keys() + remaining
}

/// An operation's outcome once the identity check has been made.
pub open spec fn guarded<V>(program_ok: bool, inner: Result<V, AdapterError>) -> Result<V, AdapterError> {
    if program_ok {
        inner
    } else {
        Err(AdapterError::IdentityMismatch)
    }
}

/// `r` is the invocation that `outcome` describes, dispatched as `seeds` select.
pub open spec fn delivers<I: View>(
    r: Result<Invocation<I>, AdapterError>,
    outcome: Result<(I::V, Seq<Address>), AdapterError>,
    seeds: Seq<Seq<Seq<u8>>>,
) -> bool {
    match r {
        Ok(inv) => outcome == Ok::<(I::V, Seq<Address>), AdapterError>((inv.instruction@, inv.account_infos@))
            && dispatches(inv.dispatch, seeds),
        Err(e) => outcome == Err::<(I::V, Seq<Address>), AdapterError>(e),
    }
}

pub fn dispatch_for(seeds: Vec<Vec<Vec<u8>>>) -> (r: Dispatch)
    ensures
        dispatches(r, seeds.deep_view()),
{
    if seeds.len() == 0 {
        Dispatch::Unsigned
    } else {
        Dispatch::Signed(seeds)
    }
}

/// Puts a built instruction together with the account infos and the entry
/// point that the context asks for.
pub fn plan<T: AccountSchema, I>(ctx: CpiContext<T>, instruction: I) -> (r: Invocation<I>)
    ensures
        r.instruction == instruction,
        r.account_infos@ == account_list(ctx.accounts, ctx.remaining_accounts@),
        dispatches(r.dispatch, ctx.signer_seeds.deep_view()),
{
    let mut infos = ctx.accounts.to_account_infos();
    let mut i: usize = 0;
    while i < ctx.remaining_accounts.len()
        invariant
            0 <= i <= ctx.remaining_accounts@.len(),
            infos@ == ctx.accounts.keys() + ctx.remaining_accounts@.subrange(0, i as int),
        decreases ctx.remaining_accounts@.len() - i,
    {
        infos.push(ctx.remaining_accounts[i]);
        i = i + 1;
        assert(ctx.remaining_accounts@.subrange(0, i as int) =~= ctx.remaining_accounts@.subrange(0, i - 1)
            .push(ctx.remaining_accounts@[i - 1]));
    }
    assert(ctx.remaining_accounts@.subrange(0, i as int) =~= ctx.remaining_accounts@);
    Invocation { instruction, account_infos: infos, dispatch: dispatch_for(ctx.signer_seeds) }
}

/// Surfaces what the runtime reported for an invocation: success as it is,
/// a failure code unchanged inside `InvocationError`.
pub fn surface(outcome: Result<(), u64>) -> (r: Result<(), AdapterError>)
    ensures
        outcome is Ok ==> r is Ok,
        outcome matches Err(code) ==> r == Err::<(), AdapterError>(AdapterError::InvocationError(code)),
{
    match outcome {
        Ok(()) => Ok(()),
        Err(code) => Err(AdapterError::InvocationError(code)),
    }
}

/// An operation aimed at any program but the canonical one fails with
/// `IdentityMismatch` and yields no invocation at all.
pub proof fn lemma_wrong_program_never_invokes<I: View>(
    r: Result<Invocation<I>, AdapterError>,
    program_ok: bool,
    inner: Result<(I::V, Seq<Address>), AdapterError>,
    seeds: Seq<Seq<Seq<u8>>>,
)
    requires
        delivers(r, guarded(program_ok, inner), seeds),
        !program_ok,
    ensures
        r == Err::<Invocation<I>, AdapterError>(AdapterError::IdentityMismatch),
{
}

/// The account infos are the fixed accounts in schema order followed by the
/// remaining accounts in the order supplied: nothing is moved, dropped or merged.
pub proof fn lemma_account_order_kept<T: AccountSchema>(accounts: T, remaining: Seq<Address>)
    ensures
        account_list(accounts, remaining).len() == accounts.keys().len() + remaining.len(),
        forall|i: int| 0 <= i < accounts.keys().len() ==> account_list(accounts, remaining)[i] == accounts.keys()[i],
        forall|j: int| 0 <= j < remaining.len()
            ==> account_list(accounts, remaining)[accounts.keys().len() + j] == remaining[j],
{
}

/// Signing changes only the entry point: with seeds the invocation is signed
/// with exactly those seeds, without them it is unsigned, and the instruction
/// and the account infos are the same either way.
pub proof fn lemma_seeds_pick_only_entry_point<I: View>(
    signed: Result<Invocation<I>, AdapterError>,
    unsigned: Result<Invocation<I>, AdapterError>,
    outcome: Result<(I::V, Seq<Address>), AdapterError>,
    seeds: Seq<Seq<Seq<u8>>>,
)
    requires
        seeds.len() > 0,
        delivers(signed, outcome, seeds),
        delivers(unsigned, outcome, Seq::empty()),
    ensures
        signed is Ok <==> unsigned is Ok,
        signed is Err ==> signed == unsigned,
        signed is Ok ==> {
            &&& signed->Ok_0.instruction@ == unsigned->Ok_0.instruction@
            &&& signed->Ok_0.account_infos@ == unsigned->Ok_0.account_infos@
            &&& signed->Ok_0.dispatch matches Dispatch::Signed(s) && s.deep_view() == seeds
            &&& unsigned->Ok_0.dispatch is Unsigned
        },
{
}

} // verus!
