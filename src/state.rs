//! The chamber's persistent records: the strategy record and the positions of depositors.

use crate::address::Address;
use crate::error::ChamberError;
use vstd::prelude::*;

verus! {

/// The lending and farming backend a chamber is built on.
#[derive(Debug, Clone, Copy, PartialEq, Eq, Structural)]
pub enum ProtocolType {
    Tulip,
    Francium,
}

impl ProtocolType {
    /// Whether the backend is the one that this program implements.
    pub fn is_supported(&self) -> (r: bool)
        ensures
            r == (*self == ProtocolType::Tulip),
    {
        match self {
            ProtocolType::Tulip => true,
            ProtocolType::Francium => false,
        }
    }
}

/// One leveraged strategy instance: the vault and strategy controller of a farm.
#[derive(Debug, Clone, Copy, PartialEq, Eq)]
pub struct Chamber {
    /// Leveraged farm that the chamber manages.
    pub leveraged_farm: Address,
    /// Derived authority that signs for the chamber.
    pub authority: Address,
    /// Holding account of the base asset.
    pub base_ata: Address,
    /// Holding account of the quote asset.
    pub quote_ata: Address,
    pub base_mint: Address,
    pub quote_mint: Address,
    pub protocol_type: ProtocolType,
    pub bump: u8,
    pub authority_bump: u8,
}

/// Space taken by a chamber record: discriminator, six addresses and three bytes.
pub const CHAMBER_LEN: usize = 8 + (32 + 32 + 32 + 32 + 32 + 32 + 1 + 1 + 1);

impl Chamber {
    /// Writes every field of the record.
    pub fn init(
        &mut self,
        leveraged_farm: &Address,
        authority: &Address,
        base_ata: &Address,
        quote_ata: &Address,
        base_mint: &Address,
        quote_mint: &Address,
        protocol_type: ProtocolType,
        bump: u8,
        authority_bump: u8,
    )
        ensures
            *final(self) == (Chamber {
                leveraged_farm: *leveraged_farm,
                authority: *authority,
                base_ata: *base_ata,
                quote_ata: *quote_ata,
                base_mint: *base_mint,
                quote_mint: *quote_mint,
                protocol_type,
                bump,
                authority_bump,
            }),
    {
        self.leveraged_farm = *leveraged_farm;
        self.authority = *authority;
        self.base_ata = *base_ata;
        self.quote_ata = *quote_ata;
        self.base_mint = *base_mint;
        self.quote_mint = *quote_mint;
        self.protocol_type = protocol_type;
        self.bump = bump;
        self.authority_bump = authority_bump;
    }
}

/// The deposited, not yet deployed balances of one depositor in one chamber.
#[derive(Debug, Clone, Copy, PartialEq, Eq)]
pub struct UserPosition {
    pub owner: Address,
    pub chamber: Address,
    pub base_amount: u64,
    pub quote_amount: u64,
    pub bump: u8,
}

/// Space taken by a user position record: discriminator, two addresses, two amounts, a byte.
pub const USER_POSITION_LEN: usize = 8 + (32 + 32 + 8 + 8 + 1);

/// A balance after a deposit, or `None` where the sum overflows.
pub open spec fn deposited(balance: u64, amount: u64) -> Option<u64> {
    if balance + amount <= u64::MAX {
        Some((balance + amount) as u64)
    } else {
        None
    }
}

/// A balance after a withdrawal, or `None` where the amount exceeds the balance.
pub open spec fn withdrawn(balance: u64, amount: u64) -> Option<u64> {
    if amount <= balance {
        Some((balance - amount) as u64)
    } else {
        None
    }
}

impl UserPosition {
    /// Starts the position of `owner` in `chamber` with empty balances.
    pub fn init(&mut self, owner: &Address, chamber: &Address, bump: u8)
        ensures
            *final(self) == (UserPosition {
                owner: *owner,
                chamber: *chamber,
                base_amount: 0,
                quote_amount: 0,
                bump,
            }),
    {
        self.owner = *owner;
        self.chamber = *chamber;
        self.base_amount = 0;
        self.quote_amount = 0;
        self.bump = bump;
    }

    /// Adds `amount` to the base balance.
    pub fn deposit_base(&mut self, amount: u64) -> (r: Result<(), ChamberError>)
        ensures
            match deposited(old(self).base_amount, amount) {
                Some(b) => r is Ok && *final(self) == (UserPosition { base_amount: b, ..*old(self) }),
                None => r == Err::<(), ChamberError>(ChamberError::MathOverflow) && *final(self) == *old(self),
            },
    {
        match self.base_amount.checked_add(amount) {
            Some(b) => {
                self.base_amount = b;
                Ok(())
            },
            None => Err(ChamberError::MathOverflow),
        }
    }

    /// Takes `amount` from the base balance.
    pub fn withdraw_base(&mut self, amount: u64) -> (r: Result<(), ChamberError>)
        ensures
            match withdrawn(old(self).base_amount, amount) {
                Some(b) => r is Ok && *final(self) == (UserPosition { base_amount: b, ..*old(self) }),
                None => r == Err::<(), ChamberError>(ChamberError::InsufficientUserPositionFunds)
                    && *final(self) == *old(self),
            },
    {
        if amount > self.base_amount {
            return Err(ChamberError::InsufficientUserPositionFunds);
        }
        self.base_amount = self.base_amount - amount;
        Ok(())
    }

    /// Adds `amount` to the quote balance.
    pub fn deposit_quote(&mut self, amount: u64) -> (r: Result<(), ChamberError>)
        ensures
            match deposited(old(self).quote_amount, amount) {
                Some(q) => r is Ok && *final(self) == (UserPosition { quote_amount: q, ..*old(self) }),
                None => r == Err::<(), ChamberError>(ChamberError::MathOverflow) && *final(self) == *old(self),
            },
    {
        match self.quote_amount.checked_add(amount) {
            Some(q) => {
                self.quote_amount = q;
                Ok(())
            },
            None => Err(ChamberError::MathOverflow),
        }
    }

    /// Takes `amount` from the quote balance.
    pub fn withdraw_quote(&mut self, amount: u64) -> (r: Result<(), ChamberError>)
        ensures
            match withdrawn(old(self).quote_amount, amount) {
                Some(q) => r is Ok && *final(self) == (UserPosition { quote_amount: q, ..*old(self) }),
                None => r == Err::<(), ChamberError>(ChamberError::InsufficientUserPositionFunds)
                    && *final(self) == *old(self),
            },
    {
        if amount > self.quote_amount {
            return Err(ChamberError::InsufficientUserPositionFunds);
        }
        self.quote_amount = self.quote_amount - amount;
        Ok(())
    }
}

/// A deposit followed by a withdrawal of the same amount restores the balance, and a
/// withdrawal of more than the balance is refused.
pub proof fn lemma_deposit_withdraw_round_trip(balance: u64, amount: u64)
    ensures
        deposited(balance, amount) matches Some(b) ==> withdrawn(b, amount) == Some(balance),
        amount > balance ==> withdrawn(balance, amount) is None,
{
}

} // verus!
