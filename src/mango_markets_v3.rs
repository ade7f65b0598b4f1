use vstd::prelude::*;
use crate::cpi::{
    account_list, delivers, guarded, null_bytes, plan, AccountSchema, AdapterError, Address,
    CpiContext, Environment, Invocation,
};

verus! {

/// The number of open-order slots that a Mango v3 account carries.
pub const MAX_PAIRS: usize = 15;

/// Mango v3 has a development and a production deployment.
pub open spec fn mango_id(env: Environment) -> Seq<u8> {
    match env {
        Environment::Development => seq![
            57u8, 147, 14, 38, 221, 20, 229, 173, 141, 84, 213, 48, 232, 168, 241, 233,
            135, 132, 144, 165, 97, 224, 193, 78, 77, 12, 236, 124, 165, 181, 46, 49,
        ],
        Environment::Production => seq![
            11u8, 129, 136, 217, 110, 11, 207, 49, 238, 37, 70, 198, 50, 87, 144, 157,
            211, 141, 129, 216, 200, 164, 178, 213, 174, 41, 177, 146, 223, 8, 83, 37,
        ],
    }
}

/// The Mango Markets v3 program.
#[derive(Clone, Copy)]
pub struct MangoMarketV3;

impl MangoMarketV3 {
    /// The canonical Mango v3 program address of `env`.
    pub fn id(env: Environment) -> (r: Address)
        ensures
            r@ == mango_id(env),
    {
        let r = match env {
            Environment::Development => Address {
                bytes: [
                    57u8, 147, 14, 38, 221, 20, 229, 173, 141, 84, 213, 48, 232, 168, 241, 233,
                    135, 132, 144, 165, 97, 224, 193, 78, 77, 12, 236, 124, 165, 181, 46, 49,
                ],
            },
            Environment::Production => Address {
                bytes: [
                    11u8, 129, 136, 217, 110, 11, 207, 49, 238, 37, 70, 198, 50, 87, 144, 157,
                    211, 141, 129, 216, 200, 164, 178, 213, 174, 41, 177, 146, 223, 8, 83, 37,
                ],
            },
        };
        assert(r@ =~= mango_id(env));
        r
    }
}

/// Checks that the supplied program address is the Mango v3 program of `env`.
pub fn check_program_account(env: Environment, mango_program_id: &Address) -> (r: Result<
    (),
    AdapterError,
>)
    ensures
        r is Ok <==> mango_program_id@ == mango_id(env),
        r is Err ==> r == Err::<(), AdapterError>(AdapterError::IdentityMismatch),
{
    if mango_program_id.same_as(&MangoMarketV3::id(env)) {
        Ok(())
    } else {
        Err(AdapterError::IdentityMismatch)
    }
}

/// The open-order block handed to Mango: exactly `MAX_PAIRS` slots, the
/// supplied sub-accounts first, every unused slot the null address.
pub open spec fn open_order_slots(supplied: Seq<Address>) -> Seq<Seq<u8>> {
    Seq::new(
        MAX_PAIRS as nat,
        |i: int|
            if i < supplied.len() {
                supplied[i]@
            } else {
                null_bytes()
            },
    )
}

/// Fills the open-order block from `supplied[skip..]`.
fn fill_open_order_slots(supplied: &Vec<Address>, skip: usize) -> (r: Vec<Address>)
    requires
        skip <= supplied@.len(),
    ensures
        r@.map_values(|a: Address| a@) == open_order_slots(supplied@.subrange(skip as int, supplied@.len() as int)),
{
    let ghost tail = supplied@.subrange(skip as int, supplied@.len() as int);
    let mut slots: Vec<Address> = Vec::new();
    let mut i: usize = 0;
    while i < MAX_PAIRS
        invariant
            0 <= i <= MAX_PAIRS,
            skip <= supplied@.len(),
            tail == supplied@.subrange(skip as int, supplied@.len() as int),
            slots@.len() == i,
            forall|j: int| 0 <= j < i ==> slots@[j]@ == open_order_slots(tail)[j],
        decreases MAX_PAIRS - i,
    {
        if i < supplied.len() - skip {
            slots.push(supplied[skip + i]);
        } else {
            slots.push(Address::null());
        }
        i = i + 1;
    }
    assert(slots@.map_values(|a: Address| a@) =~= open_order_slots(tail));
    slots
}

/// The open-order block always has `MAX_PAIRS` slots, however many
/// sub-accounts are supplied; those come first, in order, and every slot after
/// them holds the null address.
pub proof fn lemma_open_order_block_is_full(supplied: Seq<Address>)
    ensures
        open_order_slots(supplied).len() == MAX_PAIRS,
        forall|i: int| 0 <= i < MAX_PAIRS && i < supplied.len() ==> open_order_slots(supplied)[i] == supplied[i]@,
        forall|i: int| supplied.len() <= i < MAX_PAIRS ==> open_order_slots(supplied)[i] == null_bytes(),
{
}

// ---------------------------------------------------------------------------
// Account schemas
// ---------------------------------------------------------------------------

#[derive(Clone, Copy)]
pub struct CreateMangoAccount {
    pub mango_group: Address,
    pub mango_account: Address,
    pub owner: Address,
    pub system_prog: Address,
    pub payer: Address,
}

impl AccountSchema for CreateMangoAccount {
    open spec fn keys(&self) -> Seq<Address> {
        seq![self.mango_group, self.mango_account, self.owner, self.system_prog, self.payer]
    }

    fn to_account_infos(&self) -> (r: Vec<Address>) {
        let r = vec![self.mango_group, self.mango_account, self.owner, self.system_prog, self.payer];
        assert(r@ =~= self.keys());
        r
    }
}

#[derive(Clone, Copy)]
pub struct Deposit {
    pub mango_group: Address,
    pub mango_account: Address,
    pub owner: Address,
    pub mango_cache: Address,
    pub root_bank: Address,
    pub node_bank: Address,
    pub vault: Address,
    pub owner_token_account: Address,
}

impl AccountSchema for Deposit {
    open spec fn keys(&self) -> Seq<Address> {
        seq![
            self.mango_group, self.mango_account, self.owner, self.mango_cache,
            self.root_bank, self.node_bank, self.vault, self.owner_token_account,
        ]
    }

    fn to_account_infos(&self) -> (r: Vec<Address>) {
        let r = vec![
            self.mango_group, self.mango_account, self.owner, self.mango_cache,
            self.root_bank, self.node_bank, self.vault, self.owner_token_account,
        ];
        assert(r@ =~= self.keys());
        r
    }
}

/// Accounts of a withdrawal. The open-order sub-accounts go into the
/// context's remaining accounts, at most `MAX_PAIRS` of them.
#[derive(Clone, Copy)]
pub struct Withdraw {
    pub mango_group: Address,
    pub mango_account: Address,
    pub owner: Address,
    pub mango_cache: Address,
    pub root_bank: Address,
    pub node_bank: Address,
    pub vault: Address,
    pub token_account: Address,
    pub signer: Address,
}

impl AccountSchema for Withdraw {
    open spec fn keys(&self) -> Seq<Address> {
        seq![
            self.mango_group, self.mango_account, self.owner, self.mango_cache,
            self.root_bank, self.node_bank, self.vault, self.token_account, self.signer,
        ]
    }

    fn to_account_infos(&self) -> (r: Vec<Address>) {
        let r = vec![
            self.mango_group, self.mango_account, self.owner, self.mango_cache,
            self.root_bank, self.node_bank, self.vault, self.token_account, self.signer,
        ];
        assert(r@ =~= self.keys());
        r
    }
}

/// Accounts of a perp order. The first remaining account, when there is one,
/// is the referrer; the open-order sub-accounts follow it.
#[derive(Clone, Copy)]
pub struct PlacePerpOrder2 {
    pub mango_group: Address,
    pub mango_account: Address,
    pub owner: Address,
    pub mango_cache: Address,
    pub perp_market: Address,
    pub bids: Address,
    pub asks: Address,
    pub event_queue: Address,
}

impl AccountSchema for PlacePerpOrder2 {
    open spec fn keys(&self) -> Seq<Address> {
        seq![
            self.mango_group, self.mango_account, self.owner, self.mango_cache,
            self.perp_market, self.bids, self.asks, self.event_queue,
        ]
    }

    fn to_account_infos(&self) -> (r: Vec<Address>) {
        let r = vec![
            self.mango_group, self.mango_account, self.owner, self.mango_cache,
            self.perp_market, self.bids, self.asks, self.event_queue,
        ];
        assert(r@ =~= self.keys());
        r
    }
}

// ---------------------------------------------------------------------------
// Calls handed to the Mango v3 instruction encoder
// ---------------------------------------------------------------------------

/// Side of a perp order.
#[derive(Clone, Copy, Debug, PartialEq, Eq, Structural)]
pub enum Side {
    Bid,
    Ask,
}

/// Kind of a perp order.
#[derive(Clone, Copy, Debug, PartialEq, Eq, Structural)]
pub enum OrderType {
    Limit,
    ImmediateOrCancel,
    PostOnly,
    Market,
    PostOnlySlide,
}

/// The typed arguments of a perp order.
#[derive(Clone, Copy)]
pub struct PerpOrder {
    pub side: Side,
    pub price: i64,
    pub max_base_quantity: i64,
    pub max_quote_quantity: i64,
    pub client_order_id: u64,
    pub order_type: OrderType,
    pub reduce_only: bool,
    /// `Some(0)` is Mango's sentinel for "no time-in-force limit".
    pub expiry_timestamp: Option<u64>,
    /// The largest number of fill events to process before stopping.
    pub limit: u8,
}

#[derive(Clone, Copy)]
pub struct CreateMangoAccountCall {
    pub program_id: Address,
    pub accounts: CreateMangoAccount,
    pub account_num: u64,
}

impl View for CreateMangoAccountCall {
    type V = CreateMangoAccountCall;

    open spec fn view(&self) -> CreateMangoAccountCall {
        *self
    }
}

#[derive(Clone, Copy)]
pub struct DepositCall {
    pub program_id: Address,
    pub accounts: Deposit,
    pub quantity: u64,
}

impl View for DepositCall {
    type V = DepositCall;

    open spec fn view(&self) -> DepositCall {
        *self
    }
}

pub struct WithdrawCall {
    pub program_id: Address,
    pub accounts: Withdraw,
    pub open_orders: Vec<Address>,
    pub quantity: u64,
    pub allow_borrow: bool,
}

pub struct WithdrawCallView {
    pub program_id: Address,
    pub accounts: Withdraw,
    pub open_orders: Seq<Seq<u8>>,
    pub quantity: u64,
    pub allow_borrow: bool,
}

impl View for WithdrawCall {
    type V = WithdrawCallView;

    open spec fn view(&self) -> WithdrawCallView {
        WithdrawCallView {
            program_id: self.program_id,
            accounts: self.accounts,
            open_orders: self.open_orders@.map_values(|a: Address| a@),
            quantity: self.quantity,
            allow_borrow: self.allow_borrow,
        }
    }
}

pub struct PlacePerpOrder2Call {
    pub program_id: Address,
    pub accounts: PlacePerpOrder2,
    pub referral: Option<Address>,
    pub open_orders: Vec<Address>,
    pub order: PerpOrder,
}

pub struct PlacePerpOrder2CallView {
    pub program_id: Address,
    pub accounts: PlacePerpOrder2,
    pub referral: Option<Address>,
    pub open_orders: Seq<Seq<u8>>,
    pub order: PerpOrder,
}

impl View for PlacePerpOrder2Call {
    type V = PlacePerpOrder2CallView;

    open spec fn view(&self) -> PlacePerpOrder2CallView {
        PlacePerpOrder2CallView {
            program_id: self.program_id,
            accounts: self.accounts,
            referral: self.referral,
            open_orders: self.open_orders@.map_values(|a: Address| a@),
            order: self.order,
        }
    }
}

// ---------------------------------------------------------------------------
// Operations
// ---------------------------------------------------------------------------

pub open spec fn create_mango_account_outcome(
    env: Environment,
    program: Address,
    accounts: CreateMangoAccount,
    remaining: Seq<Address>,
    account_num: u64,
) -> Result<(CreateMangoAccountCall, Seq<Address>), AdapterError> {
    guarded(
        program@ == mango_id(env),
        Ok((CreateMangoAccountCall { program_id: program, accounts, account_num }, account_list(accounts, remaining))),
    )
}

/// Creates the Mango account number `account_num` of `owner`.
pub fn create_mango_account(
    env: Environment,
    ctx: CpiContext<CreateMangoAccount>,
    account_num: u64,
) -> (r: Result<Invocation<CreateMangoAccountCall>, AdapterError>)
    ensures
        delivers(
            r,
            create_mango_account_outcome(env, ctx.program, ctx.accounts, ctx.remaining_accounts@, account_num),
            ctx.signer_seeds.deep_view(),
        ),
{
    check_program_account(env, &ctx.program)?;
    let call = CreateMangoAccountCall { program_id: ctx.program, accounts: ctx.accounts, account_num };
    Ok(plan(ctx, call))
}

pub open spec fn deposit_outcome(
    env: Environment,
    program: Address,
    accounts: Deposit,
    remaining: Seq<Address>,
    quantity: u64,
) -> Result<(DepositCall, Seq<Address>), AdapterError> {
    guarded(
        program@ == mango_id(env),
        Ok((DepositCall { program_id: program, accounts, quantity }, account_list(accounts, remaining))),
    )
}

/// Deposits `quantity` native tokens from the owner's token account into the
/// Mango account.
pub fn deposit(env: Environment, ctx: CpiContext<Deposit>, quantity: u64) -> (r: Result<
    Invocation<DepositCall>,
    AdapterError,
>)
    ensures
        delivers(
            r,
            deposit_outcome(env, ctx.program, ctx.accounts, ctx.remaining_accounts@, quantity),
            ctx.signer_seeds.deep_view(),
        ),
{
    check_program_account(env, &ctx.program)?;
    let call = DepositCall { program_id: ctx.program, accounts: ctx.accounts, quantity };
    Ok(plan(ctx, call))
}

pub open spec fn withdraw_outcome(
    env: Environment,
    program: Address,
    accounts: Withdraw,
    remaining: Seq<Address>,
    quantity: u64,
    allow_borrow: bool,
) -> Result<(WithdrawCallView, Seq<Address>), AdapterError> {
    guarded(
        program@ == mango_id(env),
        Ok((
            WithdrawCallView {
                program_id: program,
                accounts,
                open_orders: open_order_slots(remaining),
                quantity,
                allow_borrow,
            },
            account_list(accounts, remaining),
        )),
    )
}

/// Withdraws `quantity` native tokens, borrowing if `allow_borrow` and the
/// balance is short. The remaining accounts are the open-order sub-accounts.
pub fn withdraw(
    env: Environment,
    ctx: CpiContext<Withdraw>,
    quantity: u64,
    allow_borrow: bool,
) -> (r: Result<Invocation<WithdrawCall>, AdapterError>)
    ensures
        delivers(
            r,
            withdraw_outcome(env, ctx.program, ctx.accounts, ctx.remaining_accounts@, quantity, allow_borrow),
            ctx.signer_seeds.deep_view(),
        ),
{
    check_program_account(env, &ctx.program)?;
    let open_orders = fill_open_order_slots(&ctx.remaining_accounts, 0);
    assert(ctx.remaining_accounts@.subrange(0, ctx.remaining_accounts@.len() as int) =~= ctx.remaining_accounts@);
    let call = WithdrawCall { program_id: ctx.program, accounts: ctx.accounts, open_orders, quantity, allow_borrow };
    Ok(plan(ctx, call))
}

/// The referrer of a perp order: the first remaining account, if any.
pub open spec fn referral_of(remaining: Seq<Address>) -> Option<Address> {
    if remaining.len() == 0 {
        None
    } else {
        Some(remaining[0])
    }
}

/// The open-order sub-accounts of a perp order: the remaining accounts after the referrer.
pub open spec fn perp_open_orders(remaining: Seq<Address>) -> Seq<Address> {
    if remaining.len() == 0 {
        remaining
    } else {
        remaining.drop_first()
    }
}

pub open spec fn place_perp_order2_outcome(
    env: Environment,
    program: Address,
    accounts: PlacePerpOrder2,
    remaining: Seq<Address>,
    order: PerpOrder,
) -> Result<(PlacePerpOrder2CallView, Seq<Address>), AdapterError> {
    guarded(
        program@ == mango_id(env),
        Ok((
            PlacePerpOrder2CallView {
                program_id: program,
                accounts,
                referral: referral_of(remaining),
                open_orders: open_order_slots(perp_open_orders(remaining)),
                order,
            },
            account_list(accounts, remaining),
        )),
    )
}

/// Places a perp order. The first remaining account, if any, is the referrer;
/// the open-order sub-accounts follow it.
pub fn place_perp_order2(
    env: Environment,
    ctx: CpiContext<PlacePerpOrder2>,
    side: Side,
    price: i64,
    max_base_quantity: i64,
    max_quote_quantity: i64,
    client_order_id: u64,
    order_type: OrderType,
    reduce_only: bool,
    expiry_timestamp: Option<u64>,
    limit: u8,
) -> (r: Result<Invocation<PlacePerpOrder2Call>, AdapterError>)
    ensures
        delivers(
            r,
            place_perp_order2_outcome(
                env,
                ctx.program,
                ctx.accounts,
                ctx.remaining_accounts@,
                PerpOrder {
                    side,
                    price,
                    max_base_quantity,
                    max_quote_quantity,
                    client_order_id,
                    order_type,
                    reduce_only,
                    expiry_timestamp,
                    limit,
                },
            ),
            ctx.signer_seeds.deep_view(),
        ),
{
    check_program_account(env, &ctx.program)?;
    let (referral, skip) = if ctx.remaining_accounts.len() == 0 {
        (None, 0usize)
    } else {
        (Some(ctx.remaining_accounts[0]), 1usize)
    };
    let open_orders = fill_open_order_slots(&ctx.remaining_accounts, skip);
    assert(ctx.remaining_accounts@.subrange(skip as int, ctx.remaining_accounts@.len() as int)
        =~= perp_open_orders(ctx.remaining_accounts@));
    let order = PerpOrder {
        side,
        price,
        max_base_quantity,
        max_quote_quantity,
        client_order_id,
        order_type,
        reduce_only,
        expiry_timestamp,
        limit,
    };
    let call = PlacePerpOrder2Call { program_id: ctx.program, accounts: ctx.accounts, referral, open_orders, order };
    Ok(plan(ctx, call))
}

/// A referrer that is supplied or absent changes only the call's referral
/// field, and the account infos by that one account at the end; the
/// open-order block is the same either way.
pub proof fn lemma_referral_fills_one_field(
    env: Environment,
    program: Address,
    accounts: PlacePerpOrder2,
    order: PerpOrder,
    referrer: Address,
)
    requires
        program@ == mango_id(env),
    ensures
        ({
            let with = place_perp_order2_outcome(env, program, accounts, seq![referrer], order)->Ok_0;
            let without = place_perp_order2_outcome(env, program, accounts, Seq::empty(), order)->Ok_0;
            &&& with.0.referral == Some(referrer)
            &&& without.0.referral is None
            &&& with.0.open_orders == without.0.open_orders
            &&& with.0.program_id == without.0.program_id
            &&& with.0.accounts == without.0.accounts
            &&& with.0.order == without.0.order
            &&& with.1 == without.1.push(referrer)
        }),
{
    assert(perp_open_orders(seq![referrer]) =~= Seq::<Address>::empty());
    assert(account_list(accounts, seq![referrer]) =~= account_list(accounts, Seq::empty()).push(referrer));
}

} // verus!
