use vstd::prelude::*;
use solana_program::pubkey::Pubkey;
use spl_governance::instruction as gov;
use solana_program::instruction::AccountMeta as SolMeta;
pub use spl_governance::state::vote_record::{Vote, VoteChoice};
use crate::cpi::{
    account_list, delivers, guarded, meta, null_bytes, plan, token_program_bytes, AccountMeta, AccountSchema,
    AdapterError, Address, CpiContext, Environment, InstructionDescriptor, InstructionView,
    Invocation, MetaView,
};

verus! {

/// The governance program has one address in both environments.
pub open spec fn governance_id(env: Environment) -> Seq<u8> {
    seq![
        234u8, 228, 53, 189, 238, 117, 183, 52, 205, 89, 62, 207, 154, 48, 75, 128,
        36, 186, 40, 152, 103, 183, 105, 177, 249, 60, 167, 187, 184, 142, 70, 254,
    ]
}

/// The SPL Governance v2 program.
#[derive(Clone, Copy)]
pub struct SplGovernanceV2;

impl SplGovernanceV2 {
    /// The canonical governance program address of `env`.
    pub fn id(env: Environment) -> (r: Address)
        ensures
            r@ == governance_id(env),
    {
        let r = Address {
            bytes: [
                234u8, 228, 53, 189, 238, 117, 183, 52, 205, 89, 62, 207, 154, 48, 75, 128,
                36, 186, 40, 152, 103, 183, 105, 177, 249, 60, 167, 187, 184, 142, 70, 254,
            ],
        };
        assert(r@ =~= governance_id(env));
        r
    }
}

/// Checks that the supplied program address is the governance program of `env`.
pub fn check_program_account(env: Environment, spl_governance_program_id: &Address) -> (r: Result<
    (),
    AdapterError,
>)
    ensures
        r is Ok <==> spl_governance_program_id@ == governance_id(env),
        r is Err ==> r == Err::<(), AdapterError>(AdapterError::IdentityMismatch),
{
    if spl_governance_program_id.same_as(&SplGovernanceV2::id(env)) {
        Ok(())
    } else {
        Err(AdapterError::IdentityMismatch)
    }
}

// ---------------------------------------------------------------------------
// Wire format
// ---------------------------------------------------------------------------

/// `x` as `n` little-endian bytes.
pub open spec fn le_bytes(x: nat, n: nat) -> Seq<u8>
    decreases n,
{
    if n == 0 {
        Seq::empty()
    } else {
        seq![(x % 256) as u8] + le_bytes(x / 256, (n - 1) as nat)
    }
}

/// spl-governance's vote choice, whose fields are public plain values.
#[verifier::external_type_specification]
pub struct ExVoteChoice(spl_governance::state::vote_record::VoteChoice);

/// spl-governance's vote, whose variants hold public plain values.
#[verifier::external_type_specification]
pub struct ExVote(spl_governance::state::vote_record::Vote);

pub open spec fn choices_bytes(cs: Seq<VoteChoice>) -> Seq<u8>
    decreases cs.len(),
{
    if cs.len() == 0 {
        Seq::empty()
    } else {
        seq![cs[0].rank, cs[0].weight_percentage] + choices_bytes(cs.drop_first())
    }
}

/// The borsh encoding of a vote: the variant's index, then for an approval
/// the number of choices as a `u32` and each choice's two bytes.
pub open spec fn vote_bytes(v: Vote) -> Seq<u8> {
    match v {
        Vote::Approve(cs) => seq![0u8] + le_bytes(cs@.len(), 4) + choices_bytes(cs@),
        Vote::Deny => seq![1u8],
        Vote::Abstain => seq![2u8],
        Vote::Veto => seq![3u8],
    }
}

/// A vote that borsh can encode: an approval holds at most `u32::MAX` choices.
pub open spec fn vote_encodable(v: Vote) -> bool {
    v matches Vote::Approve(cs) ==> cs@.len() <= u32::MAX
}

/// The borsh encoding of an optional address.
pub open spec fn option_bytes(a: Option<Seq<u8>>) -> Seq<u8> {
    match a {
        None => seq![0u8],
        Some(k) => seq![1u8] + k,
    }
}

pub open spec fn opt_view(a: Option<Address>) -> Option<Seq<u8>> {
    match a {
        None => None,
        Some(k) => Some(k@),
    }
}

pub open spec fn opt_meta(a: Option<Seq<u8>>, is_signer: bool, is_writable: bool) -> Seq<MetaView> {
    match a {
        None => Seq::empty(),
        Some(k) => seq![meta(k, is_signer, is_writable)],
    }
}

/// The token-owner record that governance derives from program, realm, mint and owner.
pub uninterp spec fn token_owner_record_address(program: Seq<u8>, realm: Seq<u8>, mint: Seq<u8>, owner: Seq<u8>) -> Seq<u8>;

/// The holding account that governance derives from program, realm and mint.
pub uninterp spec fn governing_token_holding_address(program: Seq<u8>, realm: Seq<u8>, mint: Seq<u8>) -> Seq<u8>;

/// The vote record that governance derives from program, proposal and token-owner record.
pub uninterp spec fn vote_record_address(program: Seq<u8>, proposal: Seq<u8>, token_owner_record: Seq<u8>) -> Seq<u8>;

/// The realm configuration account that governance derives from program and realm.
pub uninterp spec fn realm_config_address(program: Seq<u8>, realm: Seq<u8>) -> Seq<u8>;

pub open spec fn deposit_governing_tokens_ix(
    program: Seq<u8>,
    realm: Seq<u8>,
    source: Seq<u8>,
    owner: Seq<u8>,
    transfer_authority: Seq<u8>,
    payer: Seq<u8>,
    amount: u64,
    mint: Seq<u8>,
    holding: Seq<u8>,
    token_owner_record: Seq<u8>,
) -> InstructionView {
    InstructionView {
        program_id: program,
        accounts: seq![
            meta(realm, false, false),
            meta(holding, false, true),
            meta(source, false, true),
            meta(owner, true, false),
            meta(transfer_authority, true, false),
            meta(token_owner_record, false, true),
            meta(payer, true, true),
            meta(null_bytes(), false, false),
            meta(token_program_bytes(), false, false),
        ],
        data: seq![1u8] + le_bytes(amount as nat, 8),
    }
}

pub open spec fn withdraw_governing_tokens_ix(
    program: Seq<u8>,
    realm: Seq<u8>,
    destination: Seq<u8>,
    owner: Seq<u8>,
    mint: Seq<u8>,
    holding: Seq<u8>,
    token_owner_record: Seq<u8>,
) -> InstructionView {
    InstructionView {
        program_id: program,
        accounts: seq![
            meta(realm, false, false),
            meta(holding, false, true),
            meta(destination, false, true),
            meta(owner, true, false),
            meta(token_owner_record, false, true),
            meta(token_program_bytes(), false, false),
        ],
        data: seq![2u8],
    }
}

pub open spec fn set_governance_delegate_ix(
    program: Seq<u8>,
    authority: Seq<u8>,
    realm: Seq<u8>,
    mint: Seq<u8>,
    owner: Seq<u8>,
    delegate: Option<Seq<u8>>,
    token_owner_record: Seq<u8>,
) -> InstructionView {
    InstructionView {
        program_id: program,
        accounts: seq![
            meta(authority, true, false),
            meta(token_owner_record, false, true),
        ],
        data: seq![3u8] + option_bytes(delegate),
    }
}

pub open spec fn cast_vote_ix(
    program: Seq<u8>,
    realm: Seq<u8>,
    governance: Seq<u8>,
    proposal: Seq<u8>,
    proposal_owner_record: Seq<u8>,
    voter_token_owner_record: Seq<u8>,
    authority: Seq<u8>,
    mint: Seq<u8>,
    payer: Seq<u8>,
    voter_weight_record: Option<Seq<u8>>,
    max_voter_weight_record: Option<Seq<u8>>,
    vote: Seq<u8>,
    vote_record: Seq<u8>,
    realm_config: Seq<u8>,
) -> InstructionView {
    InstructionView {
        program_id: program,
        accounts: seq![
            meta(realm, false, true),
            meta(governance, false, true),
            meta(proposal, false, true),
            meta(proposal_owner_record, false, true),
            meta(voter_token_owner_record, false, true),
            meta(authority, true, false),
            meta(vote_record, false, true),
            meta(mint, false, false),
            meta(payer, true, true),
            meta(null_bytes(), false, false),
            meta(realm_config, false, false),
        ] + opt_meta(voter_weight_record, false, false) + opt_meta(max_voter_weight_record, false, false),
        data: seq![13u8] + vote,
    }
}

pub open spec fn relinquish_vote_ix(
    program: Seq<u8>,
    governance: Seq<u8>,
    proposal: Seq<u8>,
    token_owner_record: Seq<u8>,
    mint: Seq<u8>,
    authority: Option<Seq<u8>>,
    beneficiary: Option<Seq<u8>>,
    vote_record: Seq<u8>,
) -> InstructionView {
    InstructionView {
        program_id: program,
        accounts: seq![
            meta(governance, false, false),
            meta(proposal, false, true),
            meta(token_owner_record, false, true),
            meta(vote_record, false, true),
            meta(mint, false, false),
        ] + (if authority is Some {
            opt_meta(authority, true, false) + opt_meta(beneficiary, false, true)
        } else {
            Seq::empty()
        }),
        data: seq![15u8],
    }
}

// ---------------------------------------------------------------------------
// The governance instruction builders
// ---------------------------------------------------------------------------

/// Relies on spl_governance::instruction::deposit_governing_tokens (2.2.4):
/// the account list it derives and the borsh payload `DepositGoverningTokens { amount }`.
#[verifier::external_body]
fn deposit_governing_tokens_instruction(
    program: &Address,
    realm: &Address,
    source: &Address,
    owner: &Address,
    transfer_authority: &Address,
    payer: &Address,
    amount: u64,
    mint: &Address,
) -> (r: InstructionDescriptor)
    ensures
        r@ == deposit_governing_tokens_ix(
            program@, realm@, source@, owner@, transfer_authority@, payer@, amount, mint@,
            governing_token_holding_address(program@, realm@, mint@),
            token_owner_record_address(program@, realm@, mint@, owner@),
        ),
{
    let k = |a: &Address| Pubkey::new_from_array(a.bytes);
    let ix = gov::deposit_governing_tokens(&k(program), &k(realm), &k(source), &k(owner), &k(transfer_authority), &k(payer), amount, &k(mint));
    let m = |m: &solana_program::instruction::AccountMeta| AccountMeta { pubkey: Address { bytes: m.pubkey.to_bytes() }, is_signer: m.is_signer, is_writable: m.is_writable };
    InstructionDescriptor { program_id: Address { bytes: ix.program_id.to_bytes() }, accounts: ix.accounts.iter().map(m).collect(), data: ix.data }
}

/// Relies on spl_governance::instruction::withdraw_governing_tokens (2.2.4):
/// the account list it derives and the borsh payload `WithdrawGoverningTokens {}`.
#[verifier::external_body]
fn withdraw_governing_tokens_instruction(
    program: &Address,
    realm: &Address,
    destination: &Address,
    owner: &Address,
    mint: &Address,
) -> (r: InstructionDescriptor)
    ensures
        r@ == withdraw_governing_tokens_ix(
            program@, realm@, destination@, owner@, mint@,
            governing_token_holding_address(program@, realm@, mint@),
            token_owner_record_address(program@, realm@, mint@, owner@),
        ),
{
    let k = |a: &Address| Pubkey::new_from_array(a.bytes);
    let ix = gov::withdraw_governing_tokens(&k(program), &k(realm), &k(destination), &k(owner), &k(mint));
    let m = |m: &solana_program::instruction::AccountMeta| AccountMeta { pubkey: Address { bytes: m.pubkey.to_bytes() }, is_signer: m.is_signer, is_writable: m.is_writable };
    InstructionDescriptor { program_id: Address { bytes: ix.program_id.to_bytes() }, accounts: ix.accounts.iter().map(m).collect(), data: ix.data }
}

/// Relies on spl_governance::instruction::set_governance_delegate (2.2.4):
/// the account list it derives and the borsh payload `SetGovernanceDelegate { new_governance_delegate }`.
#[verifier::external_body]
fn set_governance_delegate_instruction(
    program: &Address,
    authority: &Address,
    realm: &Address,
    mint: &Address,
    owner: &Address,
    delegate: Option<Address>,
) -> (r: InstructionDescriptor)
    ensures
        r@ == set_governance_delegate_ix(
            program@, authority@, realm@, mint@, owner@, opt_view(delegate),
            token_owner_record_address(program@, realm@, mint@, owner@),
        ),
{
    let k = |a: &Address| Pubkey::new_from_array(a.bytes);
    let ix = gov::set_governance_delegate(&k(program), &k(authority), &k(realm), &k(mint), &k(owner), &delegate.map(|d| k(&d)));
    let m = |m: &solana_program::instruction::AccountMeta| AccountMeta { pubkey: Address { bytes: m.pubkey.to_bytes() }, is_signer: m.is_signer, is_writable: m.is_writable };
    InstructionDescriptor { program_id: Address { bytes: ix.program_id.to_bytes() }, accounts: ix.accounts.iter().map(m).collect(), data: ix.data }
}

/// Relies on spl_governance::instruction::cast_vote (2.2.4): the account list
/// it derives, with the realm configuration accounts, and the borsh payload
/// `CastVote { vote }`. Borsh refuses, and the builder panics on, an approval
/// of more than `u32::MAX` choices.
#[verifier::external_body]
fn cast_vote_instruction(
    program: Address,
    realm: Address,
    governance: Address,
    proposal: Address,
    proposal_owner_record: Address,
    voter_token_owner_record: Address,
    authority: Address,
    mint: Address,
    payer: Address,
    voter_weight_record: Option<Address>,
    max_voter_weight_record: Option<Address>,
    vote: Vote,
) -> (r: InstructionDescriptor)
    requires
        vote_encodable(vote),
    ensures
        r@ == cast_vote_ix(
            program@, realm@, governance@, proposal@, proposal_owner_record@, voter_token_owner_record@,
            authority@, mint@, payer@, opt_view(voter_weight_record), opt_view(max_voter_weight_record),
            vote_bytes(vote), vote_record_address(program@, proposal@, voter_token_owner_record@),
            realm_config_address(program@, realm@),
        ),
{
    let k = |a: Address| Pubkey::new_from_array(a.bytes);
    let ix = gov::cast_vote(&k(program), &k(realm), &k(governance), &k(proposal), &k(proposal_owner_record), &k(voter_token_owner_record), &k(authority), &k(mint), &k(payer), voter_weight_record.map(k), max_voter_weight_record.map(k), vote);
    let m = |&SolMeta { pubkey, is_signer, is_writable }| AccountMeta { pubkey: Address { bytes: pubkey.to_bytes() }, is_signer, is_writable };
    InstructionDescriptor { program_id: Address { bytes: ix.program_id.to_bytes() }, accounts: ix.accounts.iter().map(m).collect(), data: ix.data }
}

/// Relies on spl_governance::instruction::relinquish_vote (2.2.4): the account
/// list it derives and the borsh payload `RelinquishVote`. The builder panics
/// when an authority comes without a beneficiary.
#[verifier::external_body]
fn relinquish_vote_instruction(
    program: &Address,
    governance: &Address,
    proposal: &Address,
    token_owner_record: &Address,
    mint: &Address,
    authority: Option<Address>,
    beneficiary: Option<Address>,
) -> (r: InstructionDescriptor)
    requires
        authority is Some ==> beneficiary is Some,
    ensures
        r@ == relinquish_vote_ix(
            program@, governance@, proposal@, token_owner_record@, mint@, opt_view(authority), opt_view(beneficiary),
            vote_record_address(program@, proposal@, token_owner_record@),
        ),
{
    let k = |a: &Address| Pubkey::new_from_array(a.bytes);
    let ix = gov::relinquish_vote(&k(program), &k(governance), &k(proposal), &k(token_owner_record), &k(mint), authority.map(|x| k(&x)), beneficiary.map(|x| k(&x)));
    let m = |m: &solana_program::instruction::AccountMeta| AccountMeta { pubkey: Address { bytes: m.pubkey.to_bytes() }, is_signer: m.is_signer, is_writable: m.is_writable };
    InstructionDescriptor { program_id: Address { bytes: ix.program_id.to_bytes() }, accounts: ix.accounts.iter().map(m).collect(), data: ix.data }
}

// ---------------------------------------------------------------------------
// Account schemas
// ---------------------------------------------------------------------------

#[derive(Clone, Copy)]
pub struct CastVote {
    pub governance: Address,
    pub governance_realm_account: Address,
    pub governance_authority: Address,
    pub proposal: Address,
    pub proposal_owner_record: Address,
    pub voter_token_owner_record: Address,
    pub governing_authority: Address,
    pub governing_token_mint: Address,
    pub payer: Address,
}

impl AccountSchema for CastVote {
    open spec fn keys(&self) -> Seq<Address> {
        seq![
            self.governance, self.governance_realm_account, self.governance_authority,
            self.proposal, self.proposal_owner_record, self.voter_token_owner_record,
            self.governing_authority, self.governing_token_mint, self.payer,
        ]
    }

    fn to_account_infos(&self) -> (r: Vec<Address>) {
        let r = vec![
            self.governance, self.governance_realm_account, self.governance_authority,
            self.proposal, self.proposal_owner_record, self.voter_token_owner_record,
            self.governing_authority, self.governing_token_mint, self.payer,
        ];
        assert(r@ =~= self.keys());
        r
    }
}

/// Accounts of a delegate change. The new delegate, if any, is the first
/// remaining account; without one the delegate is cleared.
#[derive(Clone, Copy)]
pub struct SetGovernanceDelegate {
    pub governance_authority: Address,
    pub governance_realm_account: Address,
    pub governing_token_mint: Address,
    pub governing_token_owner: Address,
}

impl AccountSchema for SetGovernanceDelegate {
    open spec fn keys(&self) -> Seq<Address> {
        seq![self.governance_authority, self.governance_realm_account, self.governing_token_mint, self.governing_token_owner]
    }

    fn to_account_infos(&self) -> (r: Vec<Address>) {
        let r = vec![self.governance_authority, self.governance_realm_account, self.governing_token_mint, self.governing_token_owner];
        assert(r@ =~= self.keys());
        r
    }
}

#[derive(Clone, Copy)]
pub struct DepositGoverningTokens {
    pub governance_realm_account: Address,
    pub governing_token_mint: Address,
    pub governing_token_source_account: Address,
    pub governing_token_owner_account: Address,
    pub governing_token_transfer_authority: Address,
    pub payer: Address,
    pub governing_token_holding_address: Address,
}

impl AccountSchema for DepositGoverningTokens {
    open spec fn keys(&self) -> Seq<Address> {
        seq![self.governance_realm_account, self.governing_token_mint, self.governing_token_source_account, self.governing_token_owner_account, self.governing_token_transfer_authority, self.payer, self.governing_token_holding_address]
    }

    fn to_account_infos(&self) -> (r: Vec<Address>) {
        let r = vec![self.governance_realm_account, self.governing_token_mint, self.governing_token_source_account, self.governing_token_owner_account, self.governing_token_transfer_authority, self.payer, self.governing_token_holding_address];
        assert(r@ =~= self.keys());
        r
    }
}

#[derive(Clone, Copy)]
pub struct WithdrawGoverningTokens {
    pub governance_realm_account: Address,
    pub governing_token_destination_account: Address,
    pub governing_token_owner_account: Address,
    pub governing_token_mint: Address,
}

impl AccountSchema for WithdrawGoverningTokens {
    open spec fn keys(&self) -> Seq<Address> {
        seq![self.governance_realm_account, self.governing_token_destination_account, self.governing_token_owner_account, self.governing_token_mint]
    }

    fn to_account_infos(&self) -> (r: Vec<Address>) {
        let r = vec![self.governance_realm_account, self.governing_token_destination_account, self.governing_token_owner_account, self.governing_token_mint];
        assert(r@ =~= self.keys());
        r
    }
}

/// Accounts of a vote withdrawal. The first two remaining accounts, if any,
/// are the governance authority and the beneficiary of the refund.
#[derive(Clone, Copy)]
pub struct RelinquishVote {
    pub governance: Address,
    pub proposal: Address,
    pub voter_token_owner_record: Address,
    pub governing_token_mint: Address,
}

impl AccountSchema for RelinquishVote {
    open spec fn keys(&self) -> Seq<Address> {
        seq![self.governance, self.proposal, self.voter_token_owner_record, self.governing_token_mint]
    }

    fn to_account_infos(&self) -> (r: Vec<Address>) {
        let r = vec![self.governance, self.proposal, self.voter_token_owner_record, self.governing_token_mint];
        assert(r@ =~= self.keys());
        r
    }
}

// ---------------------------------------------------------------------------
// Operations
// ---------------------------------------------------------------------------

/// The `i`-th remaining account, if there is one.
pub open spec fn opt_at(remaining: Seq<Address>, i: int) -> Option<Address> {
    if 0 <= i < remaining.len() {
        Some(remaining[i])
    } else {
        None
    }
}

fn get_pubkey_from_opt_account_info(remaining: &Vec<Address>, i: usize) -> (r: Option<Address>)
    ensures
        r == opt_at(remaining@, i as int),
{
    if i < remaining.len() {
        Some(remaining[i])
    } else {
        None
    }
}

pub open spec fn set_governance_delegate_outcome(
    env: Environment,
    program: Address,
    a: SetGovernanceDelegate,
    remaining: Seq<Address>,
) -> Result<(InstructionView, Seq<Address>), AdapterError> {
    guarded(
        program@ == governance_id(env),
        Ok((
            set_governance_delegate_ix(
                program@, a.governance_authority@, a.governance_realm_account@, a.governing_token_mint@,
                a.governing_token_owner@, opt_view(opt_at(remaining, 0)),
                token_owner_record_address(program@, a.governance_realm_account@, a.governing_token_mint@, a.governing_token_owner@),
            ),
            account_list(a, remaining),
        )),
    )
}

/// Sets the governance delegate of a token owner to the first remaining
/// account, or clears it when there is none.
pub fn set_governance_delegate(env: Environment, ctx: CpiContext<SetGovernanceDelegate>) -> (r: Result<
    Invocation<InstructionDescriptor>,
    AdapterError,
>)
    ensures
        delivers(
            r,
            set_governance_delegate_outcome(env, ctx.program, ctx.accounts, ctx.remaining_accounts@),
            ctx.signer_seeds.deep_view(),
        ),
{
    check_program_account(env, &ctx.program)?;
    let new_governance_delegate = get_pubkey_from_opt_account_info(&ctx.remaining_accounts, 0);
    let a = &ctx.accounts;
    let ix = set_governance_delegate_instruction(
        &ctx.program,
        &a.governance_authority,
        &a.governance_realm_account,
        &a.governing_token_mint,
        &a.governing_token_owner,
        new_governance_delegate,
    );
    Ok(plan(ctx, ix))
}

pub open spec fn deposit_governing_tokens_outcome(
    env: Environment,
    program: Address,
    a: DepositGoverningTokens,
    remaining: Seq<Address>,
    amount: u64,
) -> Result<(InstructionView, Seq<Address>), AdapterError> {
    guarded(
        program@ == governance_id(env),
        Ok((
            deposit_governing_tokens_ix(
                program@, a.governance_realm_account@, a.governing_token_source_account@,
                a.governing_token_owner_account@, a.governing_token_transfer_authority@, a.payer@, amount,
                a.governing_token_mint@,
                governing_token_holding_address(program@, a.governance_realm_account@, a.governing_token_mint@),
                token_owner_record_address(
                    program@, a.governance_realm_account@, a.governing_token_mint@, a.governing_token_owner_account@,
                ),
            ),
            account_list(a, remaining),
        )),
    )
}

/// Deposits `amount` governing tokens of the owner into the realm.
pub fn deposit_governing_tokens(
    env: Environment,
    ctx: CpiContext<DepositGoverningTokens>,
    amount: u64,
) -> (r: Result<Invocation<InstructionDescriptor>, AdapterError>)
    ensures
        delivers(
            r,
            deposit_governing_tokens_outcome(env, ctx.program, ctx.accounts, ctx.remaining_accounts@, amount),
            ctx.signer_seeds.deep_view(),
        ),
{
    check_program_account(env, &ctx.program)?;
    let a = &ctx.accounts;
    let ix = deposit_governing_tokens_instruction(
        &ctx.program,
        &a.governance_realm_account,
        &a.governing_token_source_account,
        &a.governing_token_owner_account,
        &a.governing_token_transfer_authority,
        &a.payer,
        amount,
        &a.governing_token_mint,
    );
    Ok(plan(ctx, ix))
}

pub open spec fn withdraw_governing_tokens_outcome(
    env: Environment,
    program: Address,
    a: WithdrawGoverningTokens,
    remaining: Seq<Address>,
) -> Result<(InstructionView, Seq<Address>), AdapterError> {
    guarded(
        program@ == governance_id(env),
        Ok((
            withdraw_governing_tokens_ix(
                program@, a.governance_realm_account@, a.governing_token_destination_account@,
                a.governing_token_owner_account@, a.governing_token_mint@,
                governing_token_holding_address(program@, a.governance_realm_account@, a.governing_token_mint@),
                token_owner_record_address(
                    program@, a.governance_realm_account@, a.governing_token_mint@, a.governing_token_owner_account@,
                ),
            ),
            account_list(a, remaining),
        )),
    )
}

/// Withdraws all governing tokens of the owner from the realm.
pub fn withdraw_governing_tokens(env: Environment, ctx: CpiContext<WithdrawGoverningTokens>) -> (r: Result<
    Invocation<InstructionDescriptor>,
    AdapterError,
>)
    ensures
        delivers(
            r,
            withdraw_governing_tokens_outcome(env, ctx.program, ctx.accounts, ctx.remaining_accounts@),
            ctx.signer_seeds.deep_view(),
        ),
{
    check_program_account(env, &ctx.program)?;
    let a = &ctx.accounts;
    let ix = withdraw_governing_tokens_instruction(
        &ctx.program,
        &a.governance_realm_account,
        &a.governing_token_destination_account,
        &a.governing_token_owner_account,
        &a.governing_token_mint,
    );
    Ok(plan(ctx, ix))
}

pub open spec fn cast_vote_outcome(
    env: Environment,
    program: Address,
    a: CastVote,
    remaining: Seq<Address>,
    vote: Vote,
) -> Result<(InstructionView, Seq<Address>), AdapterError> {
    guarded(
        program@ == governance_id(env),
        if !vote_encodable(vote) {
            Err(AdapterError::EncodingError)
        } else {
            Ok((
                cast_vote_ix(
                    program@, a.governance_realm_account@, a.governance@, a.proposal@, a.proposal_owner_record@,
                    a.voter_token_owner_record@, a.governance_authority@, a.governing_token_mint@, a.payer@,
                    opt_view(opt_at(remaining, 0)), opt_view(opt_at(remaining, 1)), vote_bytes(vote),
                    vote_record_address(program@, a.proposal@, a.voter_token_owner_record@),
                    realm_config_address(program@, a.governance_realm_account@),
                ),
                account_list(a, remaining),
            ))
        },
    )
}

/// Casts `vote` on a proposal. The first two remaining accounts, if any, are
/// the voter-weight record and the max-voter-weight record.
pub fn cast_vote(env: Environment, ctx: CpiContext<CastVote>, vote: Vote) -> (r: Result<
    Invocation<InstructionDescriptor>,
    AdapterError,
>)
    ensures
        delivers(
            r,
            cast_vote_outcome(env, ctx.program, ctx.accounts, ctx.remaining_accounts@, vote),
            ctx.signer_seeds.deep_view(),
        ),
{
    check_program_account(env, &ctx.program)?;
    let encodable = match &vote {
        Vote::Approve(cs) => cs.len() <= u32::MAX as usize,
        _ => true,
    };
    if !encodable {
        return Err(AdapterError::EncodingError);
    }
    let voter_weight_record = get_pubkey_from_opt_account_info(&ctx.remaining_accounts, 0);
    let max_voter_weight_record = get_pubkey_from_opt_account_info(&ctx.remaining_accounts, 1);
    let a = &ctx.accounts;
    let ix = cast_vote_instruction(
        ctx.program,
        a.governance_realm_account,
        a.governance,
        a.proposal,
        a.proposal_owner_record,
        a.voter_token_owner_record,
        a.governance_authority,
        a.governing_token_mint,
        a.payer,
        voter_weight_record,
        max_voter_weight_record,
        vote,
    );
    Ok(plan(ctx, ix))
}

pub open spec fn relinquish_vote_outcome(
    env: Environment,
    program: Address,
    a: RelinquishVote,
    remaining: Seq<Address>,
) -> Result<(InstructionView, Seq<Address>), AdapterError> {
    guarded(
        program@ == governance_id(env),
        if opt_at(remaining, 0) is Some && opt_at(remaining, 1) is None {
            Err(AdapterError::EncodingError)
        } else {
            Ok((
                relinquish_vote_ix(
                    program@, a.governance@, a.proposal@, a.voter_token_owner_record@, a.governing_token_mint@,
                    opt_view(opt_at(remaining, 0)), opt_view(opt_at(remaining, 1)),
                    vote_record_address(program@, a.proposal@, a.voter_token_owner_record@),
                ),
                account_list(a, remaining),
            ))
        },
    )
}

/// Withdraws the voter's vote from a proposal. An authority given without a
/// beneficiary cannot be encoded.
pub fn relinquish_vote(env: Environment, ctx: CpiContext<RelinquishVote>) -> (r: Result<
    Invocation<InstructionDescriptor>,
    AdapterError,
>)
    ensures
        delivers(
            r,
            relinquish_vote_outcome(env, ctx.program, ctx.accounts, ctx.remaining_accounts@),
            ctx.signer_seeds.deep_view(),
        ),
{
    check_program_account(env, &ctx.program)?;
    let governance_authority = get_pubkey_from_opt_account_info(&ctx.remaining_accounts, 0);
    let beneficiary = get_pubkey_from_opt_account_info(&ctx.remaining_accounts, 1);
    if governance_authority.is_some() && beneficiary.is_none() {
        return Err(AdapterError::EncodingError);
    }
    let a = &ctx.accounts;
    let ix = relinquish_vote_instruction(
        &ctx.program,
        &a.governance,
        &a.proposal,
        &a.voter_token_owner_record,
        &a.governing_token_mint,
        governance_authority,
        beneficiary,
    );
    Ok(plan(ctx, ix))
}

/// A voter-weight record that is supplied adds exactly one read-only account,
/// right after the realm configuration; one that is absent is left out, as
/// governance expects. Nothing else of the instruction changes.
pub proof fn lemma_voter_weight_record_fills_one_slot(
    program: Seq<u8>,
    realm: Seq<u8>,
    governance: Seq<u8>,
    proposal: Seq<u8>,
    proposal_owner_record: Seq<u8>,
    voter_token_owner_record: Seq<u8>,
    authority: Seq<u8>,
    mint: Seq<u8>,
    payer: Seq<u8>,
    record: Seq<u8>,
    max_record: Option<Seq<u8>>,
    vote: Seq<u8>,
    vote_record: Seq<u8>,
    realm_config: Seq<u8>,
)
    ensures
        ({
            let with = cast_vote_ix(
                program, realm, governance, proposal, proposal_owner_record, voter_token_owner_record,
                authority, mint, payer, Some(record), max_record, vote, vote_record, realm_config,
            );
            let without = cast_vote_ix(
                program, realm, governance, proposal, proposal_owner_record, voter_token_owner_record,
                authority, mint, payer, None, max_record, vote, vote_record, realm_config,
            );
            &&& with.program_id == without.program_id
            &&& with.data == without.data
            &&& with.accounts == without.accounts.insert(11, meta(record, false, false))
        }),
{
    let with = cast_vote_ix(
        program, realm, governance, proposal, proposal_owner_record, voter_token_owner_record,
        authority, mint, payer, Some(record), max_record, vote, vote_record, realm_config,
    );
    let without = cast_vote_ix(
        program, realm, governance, proposal, proposal_owner_record, voter_token_owner_record,
        authority, mint, payer, None, max_record, vote, vote_record, realm_config,
    );
    assert(with.accounts =~= without.accounts.insert(11, meta(record, false, false)));
}

/// A new delegate that is supplied or absent changes only the payload's
/// optional field: tag 1 followed by the address, or tag 0 alone.
pub proof fn lemma_delegate_fills_one_field(
    program: Seq<u8>,
    authority: Seq<u8>,
    realm: Seq<u8>,
    mint: Seq<u8>,
    owner: Seq<u8>,
    delegate: Seq<u8>,
    token_owner_record: Seq<u8>,
)
    ensures
        ({
            let with = set_governance_delegate_ix(program, authority, realm, mint, owner, Some(delegate), token_owner_record);
            let without = set_governance_delegate_ix(program, authority, realm, mint, owner, None, token_owner_record);
            &&& with.program_id == without.program_id
            &&& with.accounts == without.accounts
            &&& without.data == seq![3u8, 0u8]
            &&& with.data == seq![3u8, 1u8] + delegate
        }),
{
    assert(seq![3u8] + option_bytes(None) =~= seq![3u8, 0u8]);
    assert(seq![3u8] + option_bytes(Some(delegate)) =~= seq![3u8, 1u8] + delegate);
}

} // verus!
