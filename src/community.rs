//! A community energy grid: producers mint tokens for the kilowatt-hours
//! they feed in, consumers spend tokens to draw energy. Each resident's
//! token balance is kept on its resident record.
use crate::auth::{authorized, Principal};
use vstd::prelude::*;

verus! {

/// Decimal places of one energy token.
pub const ENERGY_TOKEN_DECIMALS: u8 = 6;

/// Token units minted for one kWh.
pub const KWH_TO_TOKEN_RATIO: u64 = 100_000;

/// What a resident does on the grid.
#[derive(Clone, Copy, Debug, PartialEq, Eq, Structural)]
pub enum ResidentType {
    Producer,
    Consumer,
}

/// A community: its name, its owner and the token it mints.
#[derive(Debug)]
pub struct Community {
    /// The community's own identity, which its residents refer to.
    pub key: Principal,
    pub community_name: String,
    pub owner: Principal,
    pub energy_token_mint: Principal,
}

/// A resident of a community, with its balance in token units.
#[derive(Debug)]
pub struct Resident {
    pub community: Principal,
    pub authority: Principal,
    pub resident_type: ResidentType,
    pub name: String,
    pub energy_balance: u64,
}

/// The record of a successful mint.
#[derive(Clone, Copy, Debug, PartialEq, Eq, Structural)]
pub struct EnergyMinted {
    pub resident: Principal,
    pub amount: u64,
    pub kwh: u64,
}

/// The record of a successful purchase.
#[derive(Clone, Copy, Debug, PartialEq, Eq, Structural)]
pub struct EnergyPurchased {
    pub resident: Principal,
    pub amount: u64,
}

/// Why a grid operation was refused.
#[derive(Clone, Copy, Debug, PartialEq, Eq, Structural)]
pub enum EnergyGridError {
    /// The signer is not the resident's authority.
    Unauthorized,
    /// Only a producer may mint.
    NotAProducer,
    /// Only a consumer may purchase.
    NotAConsumer,
    /// The resident holds fewer tokens than the purchase spends.
    InsufficientBalance,
    /// Nothing to mint: zero kWh.
    InvalidAmount,
    /// The token amount or the new balance would not fit in a `u64`.
    Overflow,
}

/// What `mint_energy_tokens` returns for a resident with the given
/// authority, type and balance.
pub open spec fn mint_tokens_result(authority: Principal, resident_type: ResidentType, balance: int, signer: Principal, kwh_amount: int) -> Result<EnergyMinted, EnergyGridError> {
    if signer != authority {
        Err(EnergyGridError::Unauthorized)
    } else if resident_type != ResidentType::Producer {
        Err(EnergyGridError::NotAProducer)
    } else if kwh_amount == 0 {
        Err(EnergyGridError::InvalidAmount)
    } else if kwh_amount * KWH_TO_TOKEN_RATIO > u64::MAX || balance + kwh_amount * KWH_TO_TOKEN_RATIO > u64::MAX {
        Err(EnergyGridError::Overflow)
    } else {
        Ok(
            EnergyMinted {
                resident: authority,
                amount: (kwh_amount * KWH_TO_TOKEN_RATIO) as u64,
                kwh: kwh_amount as u64,
            },
        )
    }
}

/// What `purchase_energy` returns for a resident with the given authority,
/// type and balance.
pub open spec fn purchase_result(authority: Principal, resident_type: ResidentType, balance: int, signer: Principal, token_amount: int) -> Result<EnergyPurchased, EnergyGridError> {
    if signer != authority {
        Err(EnergyGridError::Unauthorized)
    } else if resident_type != ResidentType::Consumer {
        Err(EnergyGridError::NotAConsumer)
    } else if balance < token_amount {
        Err(EnergyGridError::InsufficientBalance)
    } else {
        Ok(EnergyPurchased { resident: authority, amount: token_amount as u64 })
    }
}

/// Sets up a community named `community_name`, owned by `authority`.
pub fn initialize_community(key: Principal, authority: Principal, energy_token_mint: Principal, community_name: String) -> (r: Community)
    ensures
        r == (Community { key, community_name, owner: authority, energy_token_mint }),
{
    Community { key, community_name, owner: authority, energy_token_mint }
}

/// A new resident of `community`, acting through `authority`, with no tokens.
pub fn register_resident(community: &Community, authority: Principal, resident_type: ResidentType, name: String) -> (r: Resident)
    ensures
        r == (Resident { community: community.key, authority, resident_type, name, energy_balance: 0 }),
{
    Resident { community: community.key, authority, resident_type, name, energy_balance: 0 }
}

/// Credits a producer with `KWH_TO_TOKEN_RATIO` token units for each of
/// the `kwh_amount` kWh it fed in. Only the resident's authority may sign.
pub fn mint_energy_tokens(resident: &mut Resident, signer: Principal, kwh_amount: u64) -> (r: Result<EnergyMinted, EnergyGridError>)
    ensures
        r == mint_tokens_result(
            old(resident).authority,
            old(resident).resident_type,
            old(resident).energy_balance as int,
            signer,
            kwh_amount as int,
        ),
        r is Ok ==> *final(resident) == (Resident {
            energy_balance: (old(resident).energy_balance + r->Ok_0.amount) as u64,
            ..*old(resident)
        }),
        r is Err ==> *final(resident) == *old(resident),
{
    if !authorized(signer, resident.authority) {
        return Err(EnergyGridError::Unauthorized);
    }
    if resident.resident_type != ResidentType::Producer {
        return Err(EnergyGridError::NotAProducer);
    }
    if kwh_amount == 0 {
        return Err(EnergyGridError::InvalidAmount);
    }
    let token_amount = match kwh_amount.checked_mul(KWH_TO_TOKEN_RATIO) {
        Some(t) => t,
        None => return Err(EnergyGridError::Overflow),
    };
    let balance = match resident.energy_balance.checked_add(token_amount) {
        Some(b) => b,
        None => return Err(EnergyGridError::Overflow),
    };
    resident.energy_balance = balance;
    Ok(EnergyMinted { resident: resident.authority, amount: token_amount, kwh: kwh_amount })
}

/// Spends `token_amount` of a consumer's tokens on energy from the grid.
/// Only the resident's authority may sign, and only up to its balance.
pub fn purchase_energy(resident: &mut Resident, signer: Principal, token_amount: u64) -> (r: Result<EnergyPurchased, EnergyGridError>)
    ensures
        r == purchase_result(
            old(resident).authority,
            old(resident).resident_type,
            old(resident).energy_balance as int,
            signer,
            token_amount as int,
        ),
        r is Ok ==> *final(resident) == (Resident {
            energy_balance: (old(resident).energy_balance - token_amount) as u64,
            ..*old(resident)
        }),
        r is Err ==> *final(resident) == *old(resident),
{
    if !authorized(signer, resident.authority) {
        return Err(EnergyGridError::Unauthorized);
    }
    if resident.resident_type != ResidentType::Consumer {
        return Err(EnergyGridError::NotAConsumer);
    }
    if resident.energy_balance < token_amount {
        return Err(EnergyGridError::InsufficientBalance);
    }
    resident.energy_balance = resident.energy_balance - token_amount;
    Ok(EnergyPurchased { resident: resident.authority, amount: token_amount })
}

} // verus!
