use cetra_chamber::address::{derive_chamber_address, derive_leg_obligation, derive_chamber_authority, derive_user_position, Address};
use cetra_chamber::decimal::{read_price, PRICE_ACCOUNT_LEN};
use cetra_chamber::error::ChamberError;
use cetra_chamber::lifecycle::{
    is_chamber_authority, is_chamber_record, is_leg_obligation, is_user_position, next_stage, Asset, Stage, Step, DepositChamber, ExternalCall, InitializeChamber, InitializeChamberStrategy, InitializeUserPosition,
    SettleChamberPosition, SettleChamberPosition2,
};
use cetra_chamber::sizing::LegFunding;
use cetra_chamber::state::{Chamber, ProtocolType, UserPosition};

const WAD: u128 = 1_000_000_000_000_000_000;

fn addr(b: u8) -> Address {
    Address { bytes: [b; 32] }
}

/// A price feed record: price type at byte 16, exponent at 20, aggregate price at 208.
fn price_feed(price: i64, expo: i32) -> Vec<u8> {
    let mut data = vec![0u8; PRICE_ACCOUNT_LEN];
    data[16..20].copy_from_slice(&1u32.to_le_bytes());
    data[20..24].copy_from_slice(&expo.to_le_bytes());
    data[208..216].copy_from_slice(&price.to_le_bytes());
    data
}

fn blank_chamber() -> Chamber {
    Chamber {
        leveraged_farm: addr(0),
        authority: addr(0),
        base_ata: addr(0),
        quote_ata: addr(0),
        base_mint: addr(0),
        quote_mint: addr(0),
        protocol_type: ProtocolType::Tulip,
        bump: 0,
        authority_bump: 0,
    }
}

const FARM: u8 = 77;
const WALLET: u8 = 30;

/// The canonical chamber of `FARM`: its record address and authority.
fn chamber_keys() -> (Address, Address) {
    let (chamber_key, _) = derive_chamber_address(&addr(FARM)).unwrap();
    let (authority, _) = derive_chamber_authority(&chamber_key).unwrap();
    (chamber_key, authority)
}

fn chamber_with(protocol_type: ProtocolType) -> Chamber {
    let (chamber_key, authority) = chamber_keys();
    let (_, bump) = derive_chamber_address(&addr(FARM)).unwrap();
    let (_, authority_bump) = derive_chamber_authority(&chamber_key).unwrap();
    Chamber { leveraged_farm: addr(FARM), authority, bump, authority_bump, protocol_type, ..blank_chamber() }
}

fn position(base_amount: u64, quote_amount: u64) -> UserPosition {
    let (chamber_key, _) = chamber_keys();
    let (_, bump) = derive_user_position(&addr(WALLET), &chamber_key).unwrap();
    UserPosition { owner: addr(WALLET), chamber: chamber_key, base_amount, quote_amount, bump }
}

fn deposit_step(chamber: Chamber, user_position: UserPosition) -> DepositChamber {
    let (chamber_key, authority) = chamber_keys();
    let (position_key, _) = derive_user_position(&addr(WALLET), &chamber_key).unwrap();
    DepositChamber { chamber, chamber_key, authority, user_position, position_key, payer: addr(WALLET) }
}

fn strategy_step(chamber: Chamber) -> InitializeChamberStrategy {
    let (chamber_key, authority) = chamber_keys();
    InitializeChamberStrategy { chamber, chamber_key, authority }
}

fn settle_step(chamber: Chamber) -> SettleChamberPosition {
    let (chamber_key, authority) = chamber_keys();
    SettleChamberPosition { chamber, chamber_key, authority }
}

fn stake_step(chamber: Chamber) -> SettleChamberPosition2 {
    let (chamber_key, authority) = chamber_keys();
    SettleChamberPosition2 { chamber, chamber_key, authority }
}

/// An in-memory stand-in for the lending, swap and vault services.
#[derive(Default)]
struct FakeServices {
    authority_lamports: u64,
    chamber_base: u64,
    chamber_quote: u64,
    farm: bool,
    obligation: [bool; 2],
    collateral_base: [u64; 2],
    collateral_quote: [u64; 2],
    debt_base: [u64; 2],
    debt_quote: [u64; 2],
    swapped: [bool; 2],
    lp: [u64; 2],
    vault_balance: [u64; 2],
    holding_accounts: usize,
}

impl FakeServices {
    fn apply(&mut self, call: &ExternalCall) -> Result<(), String> {
        match *call {
            ExternalCall::CreateHoldingAccount { .. } => self.holding_accounts += 1,
            ExternalCall::FundAuthority { lamports } => self.authority_lamports += lamports,
            ExternalCall::TransferToChamber { asset: Asset::Base, amount } => self.chamber_base += amount,
            ExternalCall::TransferToChamber { asset: Asset::Quote, amount } => self.chamber_quote += amount,
            ExternalCall::CreateFarm { leg } => {
                self.farm = true;
                self.obligation[leg as usize] = true;
            },
            ExternalCall::CreateObligation { leg } => {
                if !self.farm {
                    return Err("no farm".to_string());
                }
                self.obligation[leg as usize] = true;
            },
            ExternalCall::DepositBorrow { leg, funding } => {
                let l = leg as usize;
                if !self.obligation[l] {
                    return Err("no obligation".to_string());
                }
                self.chamber_base = self.chamber_base.checked_sub(funding.base_amount).ok_or("base")?;
                self.chamber_quote = self.chamber_quote.checked_sub(funding.quote_amount).ok_or("quote")?;
                self.collateral_base[l] += funding.base_amount + funding.base_borrow;
                self.collateral_quote[l] += funding.quote_amount + funding.quote_borrow;
                self.debt_base[l] += funding.base_borrow;
                self.debt_quote[l] += funding.quote_borrow;
            },
            ExternalCall::Swap { leg } => {
                if self.collateral_base[leg as usize] + self.collateral_quote[leg as usize] == 0 {
                    return Err("nothing to swap".to_string());
                }
                self.swapped[leg as usize] = true;
            },
            ExternalCall::AddLiquidity { leg } => {
                let l = leg as usize;
                if !self.swapped[l] {
                    return Err("not swapped".to_string());
                }
                self.lp[l] += 1 + self.collateral_quote[l] / 2;
            },
            ExternalCall::VaultDeposit { leg, .. } => {
                let l = leg as usize;
                if self.lp[l] == 0 {
                    return Err("no liquidity".to_string());
                }
                self.vault_balance[l] += self.lp[l];
                self.lp[l] = 0;
            },
        }
        Ok(())
    }

    fn apply_all(&mut self, calls: &[ExternalCall]) -> Result<(), String> {
        for c in calls {
            self.apply(c)?;
        }
        Ok(())
    }
}

#[test]
fn initialize_chamber_success() {
    let farm = addr(77);
    let (chamber_key, bump) = derive_chamber_address(&farm).unwrap();
    let (authority, authority_bump) = derive_chamber_authority(&chamber_key).unwrap();
    let mut ix = InitializeChamber {
        chamber: blank_chamber(),
        chamber_key,
        authority,
        base_ata: addr(10),
        quote_ata: addr(11),
        base_mint: addr(12),
        quote_mint: addr(13),
    };
    let calls = ix.process(farm, bump, authority_bump, ProtocolType::Tulip).unwrap();
    assert_eq!(
        calls,
        vec![
            ExternalCall::CreateHoldingAccount { account: addr(10), mint: addr(12), owner: authority },
            ExternalCall::CreateHoldingAccount { account: addr(11), mint: addr(13), owner: authority },
        ]
    );
    assert_eq!(ix.chamber.leveraged_farm, farm);
    assert_eq!(ix.chamber.authority, authority);
    assert_eq!(ix.chamber.bump, bump);
    assert_eq!(ix.chamber.authority_bump, authority_bump);
    assert_eq!(ix.chamber.protocol_type, ProtocolType::Tulip);
}

#[test]
fn initialize_chamber_rejects_other_protocol() {
    let mut ix = InitializeChamber {
        chamber: blank_chamber(),
        chamber_key: addr(6),
        authority: addr(1),
        base_ata: addr(2),
        quote_ata: addr(3),
        base_mint: addr(4),
        quote_mint: addr(5),
    };
    assert_eq!(ix.process(addr(9), 1, 2, ProtocolType::Francium), Err(ChamberError::UnsupportedProtocol));
    assert_eq!(ix.chamber, blank_chamber());
}

#[test]
fn strategy_funds_authority_and_creates_obligations() {
    let calls = strategy_step(chamber_with(ProtocolType::Tulip)).process().unwrap();
    assert_eq!(
        calls,
        vec![
            ExternalCall::FundAuthority { lamports: 50_877_600 },
            ExternalCall::CreateFarm { leg: 0 },
            ExternalCall::CreateObligation { leg: 1 },
        ]
    );
}

#[test]
fn wrong_protocol_fails_every_transition() {
    let chamber = chamber_with(ProtocolType::Francium);
    assert_eq!(strategy_step(chamber).process(), Err(ChamberError::UnsupportedProtocol));
    let deposit = deposit_step(chamber, position(2_500_000_000, 100_000_000));
    assert_eq!(
        deposit.process(&price_feed(100, 0), &price_feed(1, 0), 2_500_000_000, 100_000_000),
        Err(ChamberError::UnsupportedProtocol)
    );
    assert_eq!(deposit.plan(1, 1, WAD, WAD), Err(ChamberError::UnsupportedProtocol));
    assert_eq!(settle_step(chamber).process(), Err(ChamberError::UnsupportedProtocol));
    assert_eq!(stake_step(chamber).process(1, 2, 3, 4), Err(ChamberError::UnsupportedProtocol));
}

#[test]
fn initialize_user_position_success() {
    let (position_key, bump) = derive_user_position(&addr(21), &addr(22)).unwrap();
    let mut ix =
        InitializeUserPosition { user_position: position(0, 0), position_key, payer: addr(21), chamber: addr(22) };
    let calls = ix.process(bump, 2_500_000_000, 100_000_000).unwrap();
    assert_eq!(
        calls,
        vec![
            ExternalCall::TransferToChamber { asset: Asset::Base, amount: 2_500_000_000 },
            ExternalCall::TransferToChamber { asset: Asset::Quote, amount: 100_000_000 },
        ]
    );
    assert_eq!(ix.user_position.base_amount, 2500000000);
    assert_eq!(ix.user_position.quote_amount, 100000000);
    assert_eq!(ix.user_position.chamber, addr(22));
    assert_eq!(ix.user_position.owner, addr(21));
    assert_eq!(ix.user_position.bump, bump);
}

#[test]
fn deposit_chamber_success() {
    let deposit = deposit_step(chamber_with(ProtocolType::Tulip), position(2500000000, 100000000));
    // 100 with eight decimals, and 1 with six.
    let calls = deposit
        .process(&price_feed(10_000_000_000, -8), &price_feed(1_000_000, -6), 2500000000, 100000000)
        .unwrap();
    assert_eq!(
        calls,
        vec![
            ExternalCall::DepositBorrow {
                leg: 0,
                funding: LegFunding { base_amount: 625_000_000, quote_amount: 25_000_000, base_borrow: 0, quote_borrow: 175_000_000 },
            },
            ExternalCall::DepositBorrow {
                leg: 1,
                funding: LegFunding {
                    base_amount: 1_875_000_000,
                    quote_amount: 75_000_000,
                    base_borrow: 5_250_000_000,
                    quote_borrow: 0,
                },
            },
        ]
    );
}

#[test]
fn deposit_beyond_position_is_refused() {
    let deposit = deposit_step(chamber_with(ProtocolType::Tulip), position(10, 10));
    assert_eq!(deposit.plan(11, 10, WAD, WAD), Err(ChamberError::InsufficientUserPositionFunds));
    assert_eq!(deposit.plan(10, 11, WAD, WAD), Err(ChamberError::InsufficientUserPositionFunds));
    assert_eq!(
        deposit.process(&price_feed(1, 0), &price_feed(1, 0), 10, 11),
        Err(ChamberError::InsufficientUserPositionFunds)
    );
}

#[test]
fn deposit_with_bad_price_feed_is_refused() {
    let deposit = deposit_step(chamber_with(ProtocolType::Tulip), position(10, 10));
    assert_eq!(deposit.process(&vec![0u8; 100], &price_feed(1, 0), 4, 4), Err(ChamberError::InvalidPriceFeed));
    let mut not_a_price = price_feed(1, 0);
    not_a_price[16] = 2;
    assert_eq!(deposit.process(&price_feed(1, 0), &not_a_price, 4, 4), Err(ChamberError::InvalidPriceFeed));
}

#[test]
fn deposit_with_zero_price_overflows() {
    let deposit = deposit_step(chamber_with(ProtocolType::Tulip), position(10, 10));
    assert_eq!(deposit.process(&price_feed(0, 0), &price_feed(1, 0), 4, 4), Err(ChamberError::MathOverflow));
}

#[test]
fn read_price_scales_by_exponent() {
    assert_eq!(read_price(&price_feed(10_000_000_000, -8)), Some(100 * WAD));
    assert_eq!(read_price(&price_feed(-250, -2)), Some(25 * WAD / 10));
    assert_eq!(read_price(&price_feed(7, 0)), Some(7 * WAD));
    assert_eq!(read_price(&vec![0u8; PRICE_ACCOUNT_LEN - 1]), None);
}

#[test]
fn settle_swaps_then_adds_liquidity() {
    let calls = settle_step(chamber_with(ProtocolType::Tulip)).process().unwrap();
    assert_eq!(
        calls,
        vec![
            ExternalCall::Swap { leg: 0 },
            ExternalCall::Swap { leg: 1 },
            ExternalCall::AddLiquidity { leg: 0 },
            ExternalCall::AddLiquidity { leg: 1 },
        ]
    );
}

#[test]
fn settle2_stakes_both_legs() {
    let calls = stake_step(chamber_with(ProtocolType::Tulip)).process(5, 6, 7, 8).unwrap();
    assert_eq!(
        calls,
        vec![
            ExternalCall::VaultDeposit { leg: 0, nonce: 5, meta_nonce: 7 },
            ExternalCall::VaultDeposit { leg: 1, nonce: 6, meta_nonce: 8 },
        ]
    );
}

#[test]
fn full_lifecycle_leaves_both_legs_staked() {
    let mut services = FakeServices::default();
    let mut stage = Stage::Uninitialized;
    let farm = addr(77);
    let (chamber_key, bump) = derive_chamber_address(&farm).unwrap();
    let (authority, authority_bump) = derive_chamber_authority(&chamber_key).unwrap();

    let mut init = InitializeChamber {
        chamber: blank_chamber(),
        chamber_key,
        authority,
        base_ata: addr(10),
        quote_ata: addr(11),
        base_mint: addr(12),
        quote_mint: addr(13),
    };
    services.apply_all(&init.process(farm, bump, authority_bump, ProtocolType::Tulip).unwrap()).unwrap();
    let chamber = init.chamber;
    assert_eq!(services.holding_accounts, 2);
    stage = next_stage(stage, Step::InitializeChamber).unwrap();

    services.apply_all(&strategy_step(chamber).process().unwrap()).unwrap();
    assert!(services.farm && services.obligation[0] && services.obligation[1]);
    assert!(services.authority_lamports > 0);
    stage = next_stage(stage, Step::InitializeChamberStrategy).unwrap();

    let wallet = addr(30);
    let (position_key, position_bump) = derive_user_position(&wallet, &chamber_key).unwrap();
    assert_ne!(position_key, chamber_key);
    let mut open =
        InitializeUserPosition { user_position: position(0, 0), position_key, payer: wallet, chamber: chamber_key };
    services.apply_all(&open.process(position_bump, 2_500_000_000, 100_000_000).unwrap()).unwrap();

    let deposit = deposit_step(chamber, open.user_position);
    let calls = deposit
        .process(&price_feed(10_000_000_000, -8), &price_feed(1_000_000, -6), 2_500_000_000, 100_000_000)
        .unwrap();
    services.apply_all(&calls).unwrap();
    assert_eq!(services.chamber_base, 0);
    assert_eq!(services.chamber_quote, 0);
    stage = next_stage(stage, Step::DepositChamber).unwrap();

    services.apply_all(&settle_step(chamber).process().unwrap()).unwrap();
    stage = next_stage(stage, Step::SettleChamberPosition).unwrap();
    services.apply_all(&stake_step(chamber).process(1, 2, 3, 4).unwrap()).unwrap();
    stage = next_stage(stage, Step::SettleChamberPosition2).unwrap();
    assert_eq!(stage, Stage::Staked);

    for leg in 0..2 {
        assert!(services.obligation[leg]);
        assert!(services.collateral_base[leg] + services.collateral_quote[leg] > 0);
        assert!(services.debt_base[leg] + services.debt_quote[leg] > 0);
        assert!(services.vault_balance[leg] > 0);
    }
}

#[test]
fn chamber_accounts_are_checked_against_their_seeds() {
    let farm = addr(77);
    let (chamber_key, bump) = derive_chamber_address(&farm).unwrap();
    let (authority, authority_bump) = derive_chamber_authority(&chamber_key).unwrap();
    let chamber = Chamber { leveraged_farm: farm, authority, bump, authority_bump, ..blank_chamber() };
    assert!(is_chamber_record(&chamber_key, &chamber));
    assert!(!is_chamber_record(&addr(5), &chamber));
    assert!(!is_chamber_record(&chamber_key, &Chamber { leveraged_farm: addr(78), ..chamber }));
    assert!(is_chamber_authority(&chamber_key, &authority, &chamber));
    assert!(!is_chamber_authority(&chamber_key, &addr(6), &chamber));
    assert!(!is_chamber_authority(&chamber_key, &addr(6), &Chamber { authority: addr(6), ..chamber }));
    let wallet = addr(30);
    let (position_key, position_bump) = derive_user_position(&wallet, &chamber_key).unwrap();
    let p = UserPosition { owner: wallet, chamber: chamber_key, base_amount: 0, quote_amount: 0, bump: position_bump };
    assert!(is_user_position(&position_key, &wallet, &chamber_key, &p));
    assert!(!is_user_position(&position_key, &addr(31), &chamber_key, &p));
}

#[test]
fn lifecycle_only_moves_forward() {
    let steps = [
        Step::InitializeChamber,
        Step::InitializeChamberStrategy,
        Step::DepositChamber,
        Step::SettleChamberPosition,
        Step::SettleChamberPosition2,
    ];
    let mut stage = Stage::Uninitialized;
    for step in steps {
        stage = next_stage(stage, step).unwrap();
    }
    assert_eq!(stage, Stage::Staked);
    for step in steps {
        assert_eq!(next_stage(Stage::Staked, step), None);
    }
    assert_eq!(next_stage(Stage::Uninitialized, Step::DepositChamber), None);
    assert_eq!(next_stage(Stage::Settled, Step::SettleChamberPosition), None);
    assert_eq!(next_stage(Stage::PositionsFunded, Step::InitializeChamber), None);
    assert_eq!(next_stage(Stage::StrategyInitialized, Step::DepositChamber), Some(Stage::PositionsFunded));
}

#[test]
fn initialize_chamber_requires_canonical_addresses() {
    let farm = addr(FARM);
    let (chamber_key, bump) = derive_chamber_address(&farm).unwrap();
    let (authority, authority_bump) = derive_chamber_authority(&chamber_key).unwrap();
    let fresh = |chamber_key: Address, authority: Address| InitializeChamber {
        chamber: blank_chamber(),
        chamber_key,
        authority,
        base_ata: addr(10),
        quote_ata: addr(11),
        base_mint: addr(12),
        quote_mint: addr(13),
    };
    let mut wrong_key = fresh(addr(3), authority);
    assert_eq!(wrong_key.process(farm, bump, authority_bump, ProtocolType::Tulip), Err(ChamberError::AddressMismatch));
    assert_eq!(wrong_key.chamber, blank_chamber());
    let mut wrong_bump = fresh(chamber_key, authority);
    assert_eq!(wrong_bump.process(farm, bump - 1, authority_bump, ProtocolType::Tulip), Err(ChamberError::AddressMismatch));
    let mut wrong_authority = fresh(chamber_key, addr(4));
    assert_eq!(
        wrong_authority.process(farm, bump, authority_bump, ProtocolType::Tulip),
        Err(ChamberError::AddressMismatch)
    );
    let mut wrong_authority_bump = fresh(chamber_key, authority);
    assert_eq!(
        wrong_authority_bump.process(farm, bump, authority_bump.wrapping_sub(1), ProtocolType::Tulip),
        Err(ChamberError::AddressMismatch)
    );
}

#[test]
fn steps_refuse_accounts_away_from_their_seeds() {
    let chamber = chamber_with(ProtocolType::Tulip);
    let (chamber_key, authority) = chamber_keys();
    let moved = InitializeChamberStrategy { chamber, chamber_key: addr(3), authority };
    assert_eq!(moved.process(), Err(ChamberError::AddressMismatch));
    let impostor = SettleChamberPosition { chamber, chamber_key, authority: addr(4) };
    assert_eq!(impostor.process(), Err(ChamberError::AddressMismatch));
    let other_bump = SettleChamberPosition2 { chamber: Chamber { bump: chamber.bump - 1, ..chamber }, chamber_key, authority };
    assert_eq!(other_bump.process(1, 2, 3, 4), Err(ChamberError::AddressMismatch));
    let mut deposit = deposit_step(chamber, position(10, 10));
    deposit.payer = addr(31);
    assert_eq!(deposit.plan(4, 4, WAD, WAD), Err(ChamberError::AddressMismatch));
    let (position_key, bump) = derive_user_position(&addr(21), &addr(22)).unwrap();
    let mut open = InitializeUserPosition { user_position: position(0, 0), position_key, payer: addr(21), chamber: addr(23) };
    assert_eq!(open.process(bump, 1, 1), Err(ChamberError::AddressMismatch));
    assert_eq!(open.user_position, position(0, 0));
}

#[test]
fn price_feed_with_unknown_status_is_refused() {
    let mut data = price_feed(7, 0);
    data[224] = 9;
    assert_eq!(read_price(&data), None);
    let mut data = price_feed(7, 0);
    data[240 + 96 * 31 + 84] = 1;
    assert_eq!(read_price(&data), None);
    let mut data = price_feed(7, 0);
    data.push(0);
    assert_eq!(read_price(&data), Some(7 * WAD));
    assert_eq!(read_price(&price_feed(5, -20)), None);
    assert_eq!(read_price(&price_feed(i64::MIN, 0)), None);
}

#[test]
fn leg_obligations_are_checked_against_their_seeds() {
    let levfarm = addr(5);
    let (_, authority) = chamber_keys();
    let farm = addr(40);
    let (obligation_0, _) = derive_leg_obligation(&authority, &farm, &levfarm, 0).unwrap();
    let (obligation_1, _) = derive_leg_obligation(&authority, &farm, &levfarm, 1).unwrap();
    assert!(is_leg_obligation(&obligation_0, &authority, &farm, &levfarm, 0));
    assert!(is_leg_obligation(&obligation_1, &authority, &farm, &levfarm, 1));
    assert!(!is_leg_obligation(&obligation_0, &authority, &farm, &levfarm, 1));
    assert!(!is_leg_obligation(&obligation_0, &authority, &addr(41), &levfarm, 0));
}
