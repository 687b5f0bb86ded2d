//! The chamber's lifecycle steps. Each step checks what the ledger holds, updates the
//! chamber's own records, and returns, in order, the external calls that the caller must
//! make in the same transaction, each signed by the chamber authority.

use crate::address::{
    authority_signer_seeds_spec, chamber_address_with_bump, chamber_authority_seeds, chamber_authority_with_bump,
    chamber_seeds, derive_chamber_address, derive_leg_obligation, leg_obligation_seeds, derive_chamber_authority, derive_user_position, derived_view, is_canonical,
    lemma_canonical_unique, matches_derived, program_id_spec, seeded_address, user_position_seeds,
    user_position_with_bump, Address,
};
use crate::decimal::{price_of_feed, read_price};
use crate::error::ChamberError;
use crate::sizing::{leg_sizing, size_legs, LegFunding};
use crate::state::{Chamber, ProtocolType, UserPosition};
use vstd::prelude::*;

verus! {

/// Lamports that the lending service's new accounts cost: the farm record, an obligation
/// and a token account.
pub const STRATEGY_ACCOUNTS_LAMPORTS: u64 = 2610000 + 2999760 + 4565760;

/// How many times the account cost the authority is funded with.
pub const STRATEGY_FUNDING_FACTOR: u64 = 5;

/// How far a chamber has come, for a caller that tracks its progress between transactions.
/// Each step makes its calls for both legs in one transaction, so the stages are per step
/// rather than per leg. The chamber record itself keeps no stage.
#[derive(Debug, Clone, Copy, PartialEq, Eq, Structural)]
pub enum Stage {
    Uninitialized,
    ChamberInitialized,
    StrategyInitialized,
    PositionsFunded,
    Settled,
    Staked,
}

/// The lifecycle steps, one transaction each.
#[derive(Debug, Clone, Copy, PartialEq, Eq, Structural)]
pub enum Step {
    InitializeChamber,
    InitializeChamberStrategy,
    DepositChamber,
    SettleChamberPosition,
    SettleChamberPosition2,
}

/// Position of a stage in the forward order.
pub open spec fn stage_rank(stage: Stage) -> nat {
    match stage {
        Stage::Uninitialized => 0,
        Stage::ChamberInitialized => 1,
        Stage::StrategyInitialized => 2,
        Stage::PositionsFunded => 3,
        Stage::Settled => 4,
        Stage::Staked => 5,
    }
}

/// The stage that a step reaches.
pub open spec fn step_target(step: Step) -> Stage {
    match step {
        Step::InitializeChamber => Stage::ChamberInitialized,
        Step::InitializeChamberStrategy => Stage::StrategyInitialized,
        Step::DepositChamber => Stage::PositionsFunded,
        Step::SettleChamberPosition => Stage::Settled,
        Step::SettleChamberPosition2 => Stage::Staked,
    }
}

/// The stage after `step`, or `None` where the step is not the next one: the lifecycle
/// only moves forward, one stage at a time, and has no way back.
pub fn next_stage(stage: Stage, step: Step) -> (r: Option<Stage>)
    ensures
        r == (if stage_rank(step_target(step)) == stage_rank(stage) + 1 {
            Some(step_target(step))
        } else {
            None
        }),
        r matches Some(next) ==> stage_rank(next) == stage_rank(stage) + 1,
{
    let target = match step {
        Step::InitializeChamber => Stage::ChamberInitialized,
        Step::InitializeChamberStrategy => Stage::StrategyInitialized,
        Step::DepositChamber => Stage::PositionsFunded,
        Step::SettleChamberPosition => Stage::Settled,
        Step::SettleChamberPosition2 => Stage::Staked,
    };
    let follows = match (stage, target) {
        (Stage::Uninitialized, Stage::ChamberInitialized) => true,
        (Stage::ChamberInitialized, Stage::StrategyInitialized) => true,
        (Stage::StrategyInitialized, Stage::PositionsFunded) => true,
        (Stage::PositionsFunded, Stage::Settled) => true,
        (Stage::Settled, Stage::Staked) => true,
        _ => false,
    };
    if follows {
        Some(target)
    } else {
        None
    }
}

/// Which of the chamber's two assets a transfer moves.
#[derive(Debug, Clone, Copy, PartialEq, Eq, Structural)]
pub enum Asset {
    Base,
    Quote,
}

/// One call into an outside service, signed by the chamber authority where it acts for the
/// chamber. A leg is 0 or 1.
#[derive(Debug, Clone, Copy, PartialEq, Eq)]
pub enum ExternalCall {
    /// Create the associated token account `account` of `mint`, owned by `owner`.
    CreateHoldingAccount { account: Address, mint: Address, owner: Address },
    /// Move native lamports from the payer to the chamber authority.
    FundAuthority { lamports: u64 },
    /// Move tokens of one asset from the depositor to the chamber's holding account.
    TransferToChamber { asset: Asset, amount: u64 },
    /// Create the chamber's farm record with the obligation of a leg and its LP account.
    CreateFarm { leg: u8 },
    /// Create the obligation of a leg and its LP account.
    CreateObligation { leg: u8 },
    /// Deposit a leg's own funds as collateral and borrow against them.
    DepositBorrow { leg: u8, funding: LegFunding },
    /// Swap a leg's balance into the two pool assets.
    Swap { leg: u8 },
    /// Add a leg's two pool assets as liquidity.
    AddLiquidity { leg: u8 },
    /// Stake a leg's liquidity tokens in the yield vault.
    VaultDeposit { leg: u8, nonce: u8, meta_nonce: u8 },
}

/// The calls of a step as a sequence.
pub open spec fn calls_view(r: Result<Vec<ExternalCall>, ChamberError>) -> Result<Seq<ExternalCall>, ChamberError> {
    match r {
        Ok(calls) => Ok(calls@),
        Err(e) => Err(e),
    }
}

/// Refusal of a chamber whose protocol is not the implemented one.
pub fn check_protocol(chamber: &Chamber) -> (r: Result<(), ChamberError>)
    ensures
        chamber.protocol_type == ProtocolType::Tulip <==> r is Ok,
        r is Err ==> r == Err::<(), ChamberError>(ChamberError::UnsupportedProtocol),
{
    if chamber.protocol_type.is_supported() {
        Ok(())
    } else {
        Err(ChamberError::UnsupportedProtocol)
    }
}

/// The calls that create a chamber's two holding accounts, owned by its authority.
pub open spec fn holding_account_calls(
    authority: Address,
    base_ata: Address,
    quote_ata: Address,
    base_mint: Address,
    quote_mint: Address,
) -> Seq<ExternalCall> {
    seq![
        ExternalCall::CreateHoldingAccount { account: base_ata, mint: base_mint, owner: authority },
        ExternalCall::CreateHoldingAccount { account: quote_ata, mint: quote_mint, owner: authority },
    ]
}

/// Whether `chamber_key` is the record that the chamber's own farm and bump seed give.
pub open spec fn is_chamber_record_spec(chamber_key: Address, chamber: Chamber) -> bool {
    seeded_address(chamber_seeds(chamber.leveraged_farm@).push(seq![chamber.bump]), program_id_spec())
        == Some(chamber_key@)
}

/// Whether `authority` is the chamber's recorded authority and the address that the
/// chamber's key and authority bump seed give.
pub open spec fn is_chamber_authority_spec(chamber_key: Address, authority: Address, chamber: Chamber) -> bool {
    chamber.authority@ == authority@ && seeded_address(
        authority_signer_seeds_spec(chamber_key@, chamber.authority_bump),
        program_id_spec(),
    ) == Some(authority@)
}

/// Checks that a chamber record sits at the address that its own seeds give.
pub fn is_chamber_record(chamber_key: &Address, chamber: &Chamber) -> (r: bool)
    ensures
        r == is_chamber_record_spec(*chamber_key, *chamber),
{
    let derived = chamber_address_with_bump(&chamber.leveraged_farm, chamber.bump);
    matches_derived(chamber_key, &derived)
}

/// Checks that `authority` is the chamber's authority, re-derived from the chamber's key.
pub fn is_chamber_authority(chamber_key: &Address, authority: &Address, chamber: &Chamber) -> (r: bool)
    ensures
        r == is_chamber_authority_spec(*chamber_key, *authority, *chamber),
{
    if !chamber.authority.same_as(authority) {
        return false;
    }
    let derived = chamber_authority_with_bump(chamber_key, chamber.authority_bump);
    matches_derived(authority, &derived)
}

/// Checks that a user position sits at the address that its owner, its chamber and its
/// bump seed give.
pub fn is_user_position(position_key: &Address, owner: &Address, chamber_key: &Address, position: &UserPosition) -> (r:
    bool)
    ensures
        r == (seeded_address(user_position_seeds(owner@, chamber_key@).push(seq![position.bump]), program_id_spec())
            == Some(position_key@)),
{
    let derived = user_position_with_bump(owner, chamber_key, position.bump);
    matches_derived(position_key, &derived)
}

/// Whether `key` and `bump` are the canonical derivation of `seeds` under this program.
pub open spec fn canonical_under_program(seeds: Seq<Seq<u8>>, key: Address, bump: u8) -> bool {
    is_canonical(seeds, program_id_spec(), Some((key@, bump)))
}

/// Whether a derivation gave exactly `key` with `bump`.
fn derived_is(derived: &Option<(Address, u8)>, key: &Address, bump: u8) -> (r: bool)
    ensures
        r == (derived_view(*derived) == Some((key@, bump))),
{
    match derived {
        Some((a, b)) => *b == bump && a.same_as(key),
        None => false,
    }
}

/// Checks that `key` and `bump` are the canonical chamber record of `leveraged_farm`.
pub fn is_canonical_chamber(key: &Address, leveraged_farm: &Address, bump: u8) -> (r: bool)
    ensures
        r == canonical_under_program(chamber_seeds(leveraged_farm@), *key, bump),
{
    let derived = derive_chamber_address(leveraged_farm);
    let r = derived_is(&derived, key, bump);
    proof {
        if canonical_under_program(chamber_seeds(leveraged_farm@), *key, bump) {
            lemma_canonical_unique(chamber_seeds(leveraged_farm@), program_id_spec(), derived_view(derived), Some((key@, bump)));
        }
    }
    r
}

/// Checks that `key` and `bump` are the canonical authority of the chamber at `chamber_key`.
pub fn is_canonical_authority(key: &Address, chamber_key: &Address, bump: u8) -> (r: bool)
    ensures
        r == canonical_under_program(chamber_authority_seeds(chamber_key@), *key, bump),
{
    let derived = derive_chamber_authority(chamber_key);
    let r = derived_is(&derived, key, bump);
    proof {
        if canonical_under_program(chamber_authority_seeds(chamber_key@), *key, bump) {
            lemma_canonical_unique(chamber_authority_seeds(chamber_key@), program_id_spec(), derived_view(derived), Some((key@, bump)));
        }
    }
    r
}

/// Checks that `key` and `bump` are the canonical position of `owner` in the chamber at
/// `chamber_key`.
pub fn is_canonical_user_position(key: &Address, owner: &Address, chamber_key: &Address, bump: u8) -> (r: bool)
    ensures
        r == canonical_under_program(user_position_seeds(owner@, chamber_key@), *key, bump),
{
    let derived = derive_user_position(owner, chamber_key);
    let r = derived_is(&derived, key, bump);
    proof {
        if canonical_under_program(user_position_seeds(owner@, chamber_key@), *key, bump) {
            lemma_canonical_unique(user_position_seeds(owner@, chamber_key@), program_id_spec(), derived_view(derived), Some((key@, bump)));
        }
    }
    r
}

/// Whether `key` is the obligation of `leg` of the chamber farm record `chamber_farm`, held
/// by `authority` under the leveraged farm program.
pub open spec fn is_leg_obligation_spec(key: Address, authority: Address, chamber_farm: Address, levfarm_program: Address, leg: u8) -> bool {
    exists|b: u8| is_canonical(leg_obligation_seeds(authority@, chamber_farm@, leg), levfarm_program@, Some((key@, b)))
}

/// Checks that `key` is the obligation of a leg, re-derived from the chamber authority and
/// its farm record.
pub fn is_leg_obligation(key: &Address, authority: &Address, chamber_farm: &Address, levfarm_program: &Address, leg: u8) -> (r:
    bool)
    ensures
        r == is_leg_obligation_spec(*key, *authority, *chamber_farm, *levfarm_program, leg),
{
    let derived = derive_leg_obligation(authority, chamber_farm, levfarm_program, leg);
    let seeds = Ghost(leg_obligation_seeds(authority@, chamber_farm@, leg));
    match derived {
        Some((a, b)) => {
            let r = a.same_as(key);
            proof {
                if is_leg_obligation_spec(*key, *authority, *chamber_farm, *levfarm_program, leg) {
                    let c = choose|c: u8| is_canonical(seeds@, levfarm_program@, Some((key@, c)));
                    lemma_canonical_unique(seeds@, levfarm_program@, derived_view(derived), Some((key@, c)));
                }
                if r {
                    assert(is_canonical(seeds@, levfarm_program@, Some((key@, b))));
                }
            }
            r
        },
        None => {
            proof {
                if is_leg_obligation_spec(*key, *authority, *chamber_farm, *levfarm_program, leg) {
                    let c = choose|c: u8| is_canonical(seeds@, levfarm_program@, Some((key@, c)));
                    lemma_canonical_unique(seeds@, levfarm_program@, derived_view(derived), Some((key@, c)));
                }
            }
            false
        },
    }
}

/// Whether the chamber record and its authority sit at the addresses that the record's
/// stored seeds and bump seeds give.
pub open spec fn chamber_accounts_valid(chamber_key: Address, authority: Address, chamber: Chamber) -> bool {
    is_chamber_record_spec(chamber_key, chamber) && is_chamber_authority_spec(chamber_key, authority, chamber)
}

/// Refusal of a chamber record or authority that is not where its seeds put it.
pub fn check_chamber_accounts(chamber_key: &Address, authority: &Address, chamber: &Chamber) -> (r: Result<
    (),
    ChamberError,
>)
    ensures
        r is Ok <==> chamber_accounts_valid(*chamber_key, *authority, *chamber),
        r is Err ==> r == Err::<(), ChamberError>(ChamberError::AddressMismatch),
{
    if is_chamber_record(chamber_key, chamber) && is_chamber_authority(chamber_key, authority, chamber) {
        Ok(())
    } else {
        Err(ChamberError::AddressMismatch)
    }
}

/// Accounts of the step that creates a chamber.
pub struct InitializeChamber {
    /// The record to write.
    pub chamber: Chamber,
    /// Address of the record.
    pub chamber_key: Address,
    /// The derived signing authority of the chamber.
    pub authority: Address,
    pub base_ata: Address,
    pub quote_ata: Address,
    pub base_mint: Address,
    pub quote_mint: Address,
}

/// Whether a chamber may be created at `step`'s addresses: the record and the authority
/// are the canonical derivations, with the given bump seeds.
pub open spec fn initialize_accounts_valid(step: InitializeChamber, leveraged_farm: Address, bump: u8, authority_bump: u8) -> bool {
    canonical_under_program(chamber_seeds(leveraged_farm@), step.chamber_key, bump) && canonical_under_program(
        chamber_authority_seeds(step.chamber_key@),
        step.authority,
        authority_bump,
    )
}

impl InitializeChamber {
    /// Writes the chamber record of `leveraged_farm` and asks for its two holding accounts.
    /// The record and the authority must sit at their canonical addresses, and the bump
    /// seeds must be the canonical ones, which later steps re-derive the addresses from.
    pub fn process(&mut self, leveraged_farm: Address, bump: u8, authority_bump: u8, protocol_type: ProtocolType) -> (r:
        Result<Vec<ExternalCall>, ChamberError>)
        ensures
            calls_view(r) == (if protocol_type != ProtocolType::Tulip {
                Err(ChamberError::UnsupportedProtocol)
            } else if !initialize_accounts_valid(*old(self), leveraged_farm, bump, authority_bump) {
                Err(ChamberError::AddressMismatch)
            } else {
                Ok(holding_account_calls(old(self).authority, old(self).base_ata, old(self).quote_ata, old(self).base_mint, old(self).quote_mint))
            }),
            final(self).chamber == (if r is Ok {
                Chamber {
                    leveraged_farm,
                    authority: old(self).authority,
                    base_ata: old(self).base_ata,
                    quote_ata: old(self).quote_ata,
                    base_mint: old(self).base_mint,
                    quote_mint: old(self).quote_mint,
                    protocol_type,
                    bump,
                    authority_bump,
                }
            } else {
                old(self).chamber
            }),
            final(self).chamber_key == old(self).chamber_key,
            final(self).authority == old(self).authority,
            final(self).base_ata == old(self).base_ata,
            final(self).quote_ata == old(self).quote_ata,
            final(self).base_mint == old(self).base_mint,
            final(self).quote_mint == old(self).quote_mint,
    {
        if !protocol_type.is_supported() {
            return Err(ChamberError::UnsupportedProtocol);
        }
        if !is_canonical_chamber(&self.chamber_key, &leveraged_farm, bump) || !is_canonical_authority(
            &self.authority,
            &self.chamber_key,
            authority_bump,
        ) {
            return Err(ChamberError::AddressMismatch);
        }
        let authority = self.authority;
        let base_ata = self.base_ata;
        let quote_ata = self.quote_ata;
        let base_mint = self.base_mint;
        let quote_mint = self.quote_mint;
        self.chamber.init(
            &leveraged_farm,
            &authority,
            &base_ata,
            &quote_ata,
            &base_mint,
            &quote_mint,
            protocol_type,
            bump,
            authority_bump,
        );
        let mut calls: Vec<ExternalCall> = Vec::new();
        calls.push(ExternalCall::CreateHoldingAccount { account: base_ata, mint: base_mint, owner: authority });
        calls.push(ExternalCall::CreateHoldingAccount { account: quote_ata, mint: quote_mint, owner: authority });
        assert(calls@ =~= holding_account_calls(authority, base_ata, quote_ata, base_mint, quote_mint));
        Ok(calls)
    }
}

/// What a step on an existing chamber gives: a refusal of another protocol, then of
/// accounts away from their seeds, then `calls`.
pub open spec fn chamber_step_outcome(chamber_key: Address, authority: Address, chamber: Chamber, calls: Seq<ExternalCall>) -> Result<
    Seq<ExternalCall>,
    ChamberError,
> {
    if chamber.protocol_type != ProtocolType::Tulip {
        Err(ChamberError::UnsupportedProtocol)
    } else if !chamber_accounts_valid(chamber_key, authority, chamber) {
        Err(ChamberError::AddressMismatch)
    } else {
        Ok(calls)
    }
}

/// The calls that set up the lending side of a chamber: fund its authority, create the farm
/// record with the first leg's obligation, then the second leg's obligation.
pub open spec fn strategy_calls() -> Seq<ExternalCall> {
    seq![
        ExternalCall::FundAuthority { lamports: (STRATEGY_ACCOUNTS_LAMPORTS * STRATEGY_FUNDING_FACTOR) as u64 },
        ExternalCall::CreateFarm { leg: 0 },
        ExternalCall::CreateObligation { leg: 1 },
    ]
}

/// Accounts of the step that sets up the lending side of a chamber.
pub struct InitializeChamberStrategy {
    pub chamber: Chamber,
    /// Address of the chamber record.
    pub chamber_key: Address,
    /// The account that signs as the chamber authority.
    pub authority: Address,
}

impl InitializeChamberStrategy {
    /// The calls that set up the chamber's farm record and both obligations.
    pub fn process(&self) -> (r: Result<Vec<ExternalCall>, ChamberError>)
        ensures
            calls_view(r) == chamber_step_outcome(self.chamber_key, self.authority, self.chamber, strategy_calls()),
    {
        match check_protocol(&self.chamber) {
            Ok(()) => {},
            Err(e) => return Err(e),
        }
        match check_chamber_accounts(&self.chamber_key, &self.authority, &self.chamber) {
            Ok(()) => {},
            Err(e) => return Err(e),
        }
        let mut calls: Vec<ExternalCall> = Vec::new();
        calls.push(ExternalCall::FundAuthority { lamports: STRATEGY_ACCOUNTS_LAMPORTS * STRATEGY_FUNDING_FACTOR });
        calls.push(ExternalCall::CreateFarm { leg: 0 });
        calls.push(ExternalCall::CreateObligation { leg: 1 });
        assert(calls@ =~= strategy_calls());
        Ok(calls)
    }
}

/// The calls that move a depositor's two amounts into the chamber.
pub open spec fn user_deposit_calls(base_amount: u64, quote_amount: u64) -> Seq<ExternalCall> {
    seq![
        ExternalCall::TransferToChamber { asset: Asset::Base, amount: base_amount },
        ExternalCall::TransferToChamber { asset: Asset::Quote, amount: quote_amount },
    ]
}

/// Accounts of the step that opens a depositor's position and takes the first deposit.
pub struct InitializeUserPosition {
    /// The record to write.
    pub user_position: UserPosition,
    /// Address of the record.
    pub position_key: Address,
    /// The depositor, who pays and owns the position.
    pub payer: Address,
    /// Address of the chamber record.
    pub chamber: Address,
}

impl InitializeUserPosition {
    /// Opens the position with the deposited amounts and asks for the transfers. The record
    /// must sit at the canonical address of its owner and chamber, with the canonical bump.
    pub fn process(&mut self, bump: u8, base_amount: u64, quote_amount: u64) -> (r: Result<Vec<ExternalCall>, ChamberError>)
        ensures
            calls_view(r) == (if canonical_under_program(
                user_position_seeds(old(self).payer@, old(self).chamber@),
                old(self).position_key,
                bump,
            ) {
                Ok(user_deposit_calls(base_amount, quote_amount))
            } else {
                Err(ChamberError::AddressMismatch)
            }),
            final(self).user_position == (if r is Ok {
                UserPosition { owner: old(self).payer, chamber: old(self).chamber, base_amount, quote_amount, bump }
            } else {
                old(self).user_position
            }),
            final(self).position_key == old(self).position_key,
            final(self).payer == old(self).payer,
            final(self).chamber == old(self).chamber,
    {
        let payer = self.payer;
        let chamber = self.chamber;
        if !is_canonical_user_position(&self.position_key, &payer, &chamber, bump) {
            return Err(ChamberError::AddressMismatch);
        }
        self.user_position.init(&payer, &chamber, bump);
        let mut calls: Vec<ExternalCall> = Vec::new();
        calls.push(ExternalCall::TransferToChamber { asset: Asset::Base, amount: base_amount });
        match self.user_position.deposit_base(base_amount) {
            Ok(()) => {},
            Err(e) => return Err(e),
        }
        calls.push(ExternalCall::TransferToChamber { asset: Asset::Quote, amount: quote_amount });
        match self.user_position.deposit_quote(quote_amount) {
            Ok(()) => {},
            Err(e) => return Err(e),
        }
        assert(calls@ =~= user_deposit_calls(base_amount, quote_amount));
        Ok(calls)
    }
}

/// The calls that fund both legs: deposit and borrow, first leg then second.
pub open spec fn deposit_borrow_calls(a: LegFunding, b: LegFunding) -> Seq<ExternalCall> {
    seq![ExternalCall::DepositBorrow { leg: 0, funding: a }, ExternalCall::DepositBorrow { leg: 1, funding: b }]
}

/// Accounts of the step that funds both legs from a depositor's position. The step checks
/// the position's balances but leaves them as they are: what the legs hold stays recorded
/// as the depositor's.
pub struct DepositChamber {
    pub chamber: Chamber,
    /// Address of the chamber record.
    pub chamber_key: Address,
    /// The account that signs as the chamber authority.
    pub authority: Address,
    pub user_position: UserPosition,
    /// Address of the position record.
    pub position_key: Address,
    /// The depositor.
    pub payer: Address,
}

/// The first refusal of a deposit, before any price is read: another protocol, accounts
/// away from their seeds, or more than the position holds.
pub open spec fn deposit_refusal(step: DepositChamber, base_amount: u64, quote_amount: u64) -> Option<ChamberError> {
    if step.chamber.protocol_type != ProtocolType::Tulip {
        Some(ChamberError::UnsupportedProtocol)
    } else if !chamber_accounts_valid(step.chamber_key, step.authority, step.chamber) || seeded_address(
        user_position_seeds(step.payer@, step.chamber_key@).push(seq![step.user_position.bump]),
        program_id_spec(),
    ) != Some(step.position_key@) {
        Some(ChamberError::AddressMismatch)
    } else if base_amount > step.user_position.base_amount || quote_amount > step.user_position.quote_amount {
        Some(ChamberError::InsufficientUserPositionFunds)
    } else {
        None
    }
}

/// What funding the legs from a deposit of `base_amount` and `quote_amount` gives, at the
/// given prices (scaled decimals): the refusals in order, then the two calls.
pub open spec fn deposit_outcome(
    step: DepositChamber,
    base_amount: u64,
    quote_amount: u64,
    base_price: u128,
    quote_price: u128,
) -> Result<Seq<ExternalCall>, ChamberError> {
    match deposit_refusal(step, base_amount, quote_amount) {
        Some(e) => Err(e),
        None => match leg_sizing(base_amount, quote_amount, base_price, quote_price) {
            Some((a, b)) => Ok(deposit_borrow_calls(a, b)),
            None => Err(ChamberError::MathOverflow),
        },
    }
}

impl DepositChamber {
    /// The first refusal of a deposit, before any price is read.
    fn refusal(&self, base_amount: u64, quote_amount: u64) -> (r: Option<ChamberError>)
        ensures
            r == deposit_refusal(*self, base_amount, quote_amount),
    {
        match check_protocol(&self.chamber) {
            Ok(()) => {},
            Err(e) => return Some(e),
        }
        match check_chamber_accounts(&self.chamber_key, &self.authority, &self.chamber) {
            Ok(()) => {},
            Err(e) => return Some(e),
        }
        if !is_user_position(&self.position_key, &self.payer, &self.chamber_key, &self.user_position) {
            return Some(ChamberError::AddressMismatch);
        }
        if base_amount > self.user_position.base_amount || quote_amount > self.user_position.quote_amount {
            return Some(ChamberError::InsufficientUserPositionFunds);
        }
        None
    }

    /// The calls that fund both legs from a deposit, at prices already read.
    pub fn plan(&self, base_amount: u64, quote_amount: u64, base_price: u128, quote_price: u128) -> (r: Result<
        Vec<ExternalCall>,
        ChamberError,
    >)
        ensures
            calls_view(r) == deposit_outcome(*self, base_amount, quote_amount, base_price, quote_price),
    {
        match self.refusal(base_amount, quote_amount) {
            Some(e) => return Err(e),
            None => {},
        }
        let legs = match size_legs(base_amount, quote_amount, base_price, quote_price) {
            Ok(legs) => legs,
            Err(e) => return Err(e),
        };
        let mut calls: Vec<ExternalCall> = Vec::new();
        calls.push(ExternalCall::DepositBorrow { leg: 0, funding: legs[0] });
        calls.push(ExternalCall::DepositBorrow { leg: 1, funding: legs[1] });
        assert(calls@ =~= deposit_borrow_calls(legs@[0], legs@[1]));
        Ok(calls)
    }

    /// The calls that fund both legs from a deposit, at the prices that the two price feed
    /// records hold; a record without a price refuses the step.
    pub fn process(&self, base_price_data: &Vec<u8>, quote_price_data: &Vec<u8>, base_amount: u64, quote_amount: u64) -> (r:
        Result<Vec<ExternalCall>, ChamberError>)
        ensures
            calls_view(r) == (match deposit_refusal(*self, base_amount, quote_amount) {
                Some(e) => Err(e),
                None => match (price_of_feed(base_price_data@), price_of_feed(quote_price_data@)) {
                    (Some(base_price), Some(quote_price)) => deposit_outcome(
                        *self,
                        base_amount,
                        quote_amount,
                        base_price,
                        quote_price,
                    ),
                    _ => Err(ChamberError::InvalidPriceFeed),
                },
            }),
    {
        match self.refusal(base_amount, quote_amount) {
            Some(e) => return Err(e),
            None => {},
        }
        let base_price = match read_price(base_price_data) {
            Some(p) => p,
            None => return Err(ChamberError::InvalidPriceFeed),
        };
        let quote_price = match read_price(quote_price_data) {
            Some(p) => p,
            None => return Err(ChamberError::InvalidPriceFeed),
        };
        self.plan(base_amount, quote_amount, base_price, quote_price)
    }
}

/// The calls that settle both legs: swap each, then add each one's liquidity.
pub open spec fn settle_calls() -> Seq<ExternalCall> {
    seq![
        ExternalCall::Swap { leg: 0 },
        ExternalCall::Swap { leg: 1 },
        ExternalCall::AddLiquidity { leg: 0 },
        ExternalCall::AddLiquidity { leg: 1 },
    ]
}

/// Accounts of the step that turns both legs' balances into pool liquidity.
pub struct SettleChamberPosition {
    pub chamber: Chamber,
    /// Address of the chamber record.
    pub chamber_key: Address,
    /// The account that signs as the chamber authority.
    pub authority: Address,
}

impl SettleChamberPosition {
    /// The swap and add-liquidity calls of both legs.
    pub fn process(&self) -> (r: Result<Vec<ExternalCall>, ChamberError>)
        ensures
            calls_view(r) == chamber_step_outcome(self.chamber_key, self.authority, self.chamber, settle_calls()),
    {
        match check_protocol(&self.chamber) {
            Ok(()) => {},
            Err(e) => return Err(e),
        }
        match check_chamber_accounts(&self.chamber_key, &self.authority, &self.chamber) {
            Ok(()) => {},
            Err(e) => return Err(e),
        }
        let mut calls: Vec<ExternalCall> = Vec::new();
        calls.push(ExternalCall::Swap { leg: 0 });
        calls.push(ExternalCall::Swap { leg: 1 });
        calls.push(ExternalCall::AddLiquidity { leg: 0 });
        calls.push(ExternalCall::AddLiquidity { leg: 1 });
        assert(calls@ =~= settle_calls());
        Ok(calls)
    }
}

/// The calls that stake both legs' liquidity in the yield vault.
pub open spec fn stake_calls(nonce_0: u8, nonce_1: u8, meta_nonce_0: u8, meta_nonce_1: u8) -> Seq<ExternalCall> {
    seq![
        ExternalCall::VaultDeposit { leg: 0, nonce: nonce_0, meta_nonce: meta_nonce_0 },
        ExternalCall::VaultDeposit { leg: 1, nonce: nonce_1, meta_nonce: meta_nonce_1 },
    ]
}

/// Accounts of the step that stakes both legs' liquidity.
pub struct SettleChamberPosition2 {
    pub chamber: Chamber,
    /// Address of the chamber record.
    pub chamber_key: Address,
    /// The account that signs as the chamber authority.
    pub authority: Address,
}

impl SettleChamberPosition2 {
    /// The vault deposit calls of both legs, with the bump seeds of each leg's vault balance
    /// record and its metadata.
    pub fn process(&self, nonce_0: u8, nonce_1: u8, meta_nonce_0: u8, meta_nonce_1: u8) -> (r: Result<
        Vec<ExternalCall>,
        ChamberError,
    >)
        ensures
            calls_view(r) == chamber_step_outcome(
                self.chamber_key,
                self.authority,
                self.chamber,
                stake_calls(nonce_0, nonce_1, meta_nonce_0, meta_nonce_1),
            ),
    {
        match check_protocol(&self.chamber) {
            Ok(()) => {},
            Err(e) => return Err(e),
        }
        match check_chamber_accounts(&self.chamber_key, &self.authority, &self.chamber) {
            Ok(()) => {},
            Err(e) => return Err(e),
        }
        let mut calls: Vec<ExternalCall> = Vec::new();
        calls.push(ExternalCall::VaultDeposit { leg: 0, nonce: nonce_0, meta_nonce: meta_nonce_0 });
        calls.push(ExternalCall::VaultDeposit { leg: 1, nonce: nonce_1, meta_nonce: meta_nonce_1 });
        assert(calls@ =~= stake_calls(nonce_0, nonce_1, meta_nonce_0, meta_nonce_1));
        Ok(calls)
    }
}

/// A deposit that passes the step's checks, at prices at which the sizing succeeds, funds
/// both legs: the first leg's call borrows only the quote asset, the second's only the base
/// asset, and their own funds add up to the deposit.
pub proof fn lemma_deposit_funds_both_legs(
    step: DepositChamber,
    base_amount: u64,
    quote_amount: u64,
    base_price: u128,
    quote_price: u128,
)
    requires
        deposit_refusal(step, base_amount, quote_amount) is None,
        leg_sizing(base_amount, quote_amount, base_price, quote_price) is Some,
    ensures
        deposit_outcome(step, base_amount, quote_amount, base_price, quote_price) is Ok,
        leg_sizing(base_amount, quote_amount, base_price, quote_price) matches Some((a, b)) ==> {
            &&& deposit_outcome(step, base_amount, quote_amount, base_price, quote_price) == Ok::<
                Seq<ExternalCall>,
                ChamberError,
            >(deposit_borrow_calls(a, b))
            &&& a.base_borrow == 0 && b.quote_borrow == 0
            &&& a.base_amount + b.base_amount == base_amount
            &&& a.quote_amount + b.quote_amount == quote_amount
        },
{
}

} // verus!
