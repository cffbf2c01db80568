use vstd::prelude::*;

verus! {

/// Failures of the protocol's entry points.
///
/// The numeric codes returned by [`ContractError::code`] are part of the
/// public interface and stay stable.
#[derive(Clone, Copy, Debug, PartialEq, Eq, Structural)]
pub enum ContractError {
    NotAuthorized,
    AlreadyInitialized,
    NotInitialized,
    Reentrancy,
    MerchantAlreadyRegistered,
    MerchantNotFound,
    InvalidAmount,
    InvoiceNotFound,
    ContractPaused,
    ContractNotPaused,
    MerchantKeyNotFound,
    TokenNotAccepted,
    InvalidSignature,
    NonceAlreadyUsed,
    InvoiceAlreadyPaid,
    InvalidInvoiceStatus,
    RefundPeriodExpired,
    WasmHashNotSet,
    MerchantAccountNotSet,
    InvalidInterval,
    PlanNotFound,
    PlanNotActive,
    SubscriptionNotFound,
    SubscriptionNotActive,
    ChargeTooEarly,
    InvoiceExpired,
}

impl ContractError {
    /// The stable numeric code of the error.
    pub open spec fn spec_code(self) -> u32 {
        match self {
            ContractError::NotAuthorized => 1,
            ContractError::AlreadyInitialized => 2,
            ContractError::NotInitialized => 3,
            ContractError::Reentrancy => 4,
            ContractError::MerchantAlreadyRegistered => 5,
            ContractError::MerchantNotFound => 6,
            ContractError::InvalidAmount => 7,
            ContractError::InvoiceNotFound => 8,
            ContractError::ContractPaused => 9,
            ContractError::ContractNotPaused => 10,
            ContractError::MerchantKeyNotFound => 11,
            ContractError::TokenNotAccepted => 12,
            ContractError::InvalidSignature => 13,
            ContractError::NonceAlreadyUsed => 14,
            ContractError::InvoiceAlreadyPaid => 15,
            ContractError::InvalidInvoiceStatus => 16,
            ContractError::RefundPeriodExpired => 17,
            ContractError::WasmHashNotSet => 18,
            ContractError::MerchantAccountNotSet => 20,
            ContractError::InvalidInterval => 21,
            ContractError::PlanNotFound => 22,
            ContractError::PlanNotActive => 23,
            ContractError::SubscriptionNotFound => 24,
            ContractError::SubscriptionNotActive => 25,
            ContractError::ChargeTooEarly => 26,
            ContractError::InvoiceExpired => 27,
        }
    }

    /// The stable numeric code of the error.
    pub fn code(&self) -> (r: u32)
        ensures
            r == self.spec_code(),
    {
        match self {
            ContractError::NotAuthorized => 1,
            ContractError::AlreadyInitialized => 2,
            ContractError::NotInitialized => 3,
            ContractError::Reentrancy => 4,
            ContractError::MerchantAlreadyRegistered => 5,
            ContractError::MerchantNotFound => 6,
            ContractError::InvalidAmount => 7,
            ContractError::InvoiceNotFound => 8,
            ContractError::ContractPaused => 9,
            ContractError::ContractNotPaused => 10,
            ContractError::MerchantKeyNotFound => 11,
            ContractError::TokenNotAccepted => 12,
            ContractError::InvalidSignature => 13,
            ContractError::NonceAlreadyUsed => 14,
            ContractError::InvoiceAlreadyPaid => 15,
            ContractError::InvalidInvoiceStatus => 16,
            ContractError::RefundPeriodExpired => 17,
            ContractError::WasmHashNotSet => 18,
            ContractError::MerchantAccountNotSet => 20,
            ContractError::InvalidInterval => 21,
            ContractError::PlanNotFound => 22,
            ContractError::PlanNotActive => 23,
            ContractError::SubscriptionNotFound => 24,
            ContractError::SubscriptionNotActive => 25,
            ContractError::ChargeTooEarly => 26,
            ContractError::InvoiceExpired => 27,
        }
    }
}

} // verus!
