//! What the merchant account contract reports back: its error codes and the
//! payloads of its restriction and verification events. The protocol calls
//! that contract for refunds and restriction; callers decode its failures and
//! events with these types.
use vstd::prelude::*;
use crate::types::Address;

verus! {

/// Failures of the merchant account contract.
#[derive(Clone, Copy, Debug, PartialEq, Eq, Structural)]
pub enum ContractError {
    AlreadyInitialized,
    NotInitialized,
    AccountRestricted,
    NotAuthorized,
    InsufficientBalance,
}

impl ContractError {
    /// The stable numeric code of the error.
    pub open spec fn spec_code(self) -> u32 {
        match self {
            ContractError::AlreadyInitialized => 1,
            ContractError::NotInitialized => 2,
            ContractError::AccountRestricted => 3,
            ContractError::NotAuthorized => 4,
            ContractError::InsufficientBalance => 5,
        }
    }

    /// The stable numeric code of the error.
    pub fn code(&self) -> (r: u32)
        ensures
            r == self.spec_code(),
    {
        match self {
            ContractError::AlreadyInitialized => 1,
            ContractError::NotInitialized => 2,
            ContractError::AccountRestricted => 3,
            ContractError::NotAuthorized => 4,
            ContractError::InsufficientBalance => 5,
        }
    }

    /// The error with numeric code `code`, if there is one.
    pub fn from_code(code: u32) -> (r: Option<ContractError>)
        ensures
            r matches Some(e) ==> e.spec_code() == code,
            r is None ==> !(1 <= code <= 5),
    {
        match code {
            1 => Some(ContractError::AlreadyInitialized),
            2 => Some(ContractError::NotInitialized),
            3 => Some(ContractError::AccountRestricted),
            4 => Some(ContractError::NotAuthorized),
            5 => Some(ContractError::InsufficientBalance),
            _ => None,
        }
    }
}

/// Emitted when an account is set up for a merchant.
#[derive(Clone, Copy, Debug)]
pub struct AccountInitializedEvent {
    pub merchant: Address,
    pub merchant_id: u64,
    pub timestamp: u64,
}

/// Emitted when an account refunds `amount` of `token` to `recipient`.
#[derive(Clone, Copy, Debug)]
pub struct RefundProcessedEvent {
    pub token: Address,
    pub amount: i128,
    pub recipient: Address,
    pub timestamp: u64,
}

/// Emitted when an account starts tracking `token`.
#[derive(Clone, Copy, Debug)]
pub struct TokenAddedEvent {
    pub token: Address,
    pub timestamp: u64,
}

/// Emitted when a merchant withdraws `amount` of `token` to `recipient`.
#[derive(Clone, Copy, Debug)]
pub struct WithdrawalToEvent {
    pub token: Address,
    pub recipient: Address,
    pub amount: i128,
    pub timestamp: u64,
}

/// Emitted when an account's restriction flag is set or cleared.
#[derive(Clone, Copy, Debug, PartialEq, Eq, Structural)]
pub struct AccountRestrictedEvent {
    pub status: bool,
    pub timestamp: u64,
}

/// Emitted when an account is verified.
#[derive(Clone, Copy, Debug, PartialEq, Eq, Structural)]
pub struct AccountVerifiedEvent {
    pub timestamp: u64,
}

} // verus!
