//! The failures an operation can report.

use vstd::prelude::*;

verus! {

/// Why an operation was rejected. Every failure aborts the whole operation:
/// the ledger is left exactly as it was before the call.
#[derive(Clone, Copy, Debug, PartialEq, Eq, Structural)]
pub enum TokenError {
    /// The ledger already has an administrator.
    AlreadyInitialized,
    /// The number of decimals does not fit in eight bits.
    DecimalOverflow,
    /// A negative amount was given where only non-negative ones are allowed.
    NegativeAmount,
    /// The account to debit is frozen.
    AccountFrozen,
    /// The account holds less than the amount to debit.
    InsufficientBalance,
    /// The spender's allowance is smaller than the amount.
    InsufficientAllowance,
    /// The spender's allowance has expired.
    AllowanceExpired,
    /// The authenticated caller is not the identity the operation requires.
    Unauthorized,
    /// A multisig configuration without owners was given.
    EmptyOwnerList,
    /// The threshold is zero or exceeds the number of owners.
    InvalidThreshold,
    /// The sender is not a registered multisig owner.
    NotAnOwner,
    /// No proposal has the given id.
    TransactionNotFound,
    /// The proposal has already been executed.
    AlreadyExecuted,
    /// The proposal has expired.
    TransactionExpired,
    /// The proposal names an operation the ledger does not know.
    UnknownOperation,
    /// The resulting balance would not fit in 128 signed bits.
    BalanceOverflow,
}

impl TokenError {
    /// The text of the failure.
    pub open spec fn spec_message(self) -> Seq<char> {
        match self {
            TokenError::AlreadyInitialized => "already initialized"@,
            TokenError::DecimalOverflow => "Decimal must fit in a u8"@,
            TokenError::NegativeAmount => "negative amount is not allowed"@,
            TokenError::AccountFrozen => "account is frozen"@,
            TokenError::InsufficientBalance => "insufficient balance"@,
            TokenError::InsufficientAllowance => "insufficient allowance"@,
            TokenError::AllowanceExpired => "allowance expired"@,
            TokenError::Unauthorized => "unauthorized"@,
            TokenError::EmptyOwnerList => "owner list cannot be empty"@,
            TokenError::InvalidThreshold => "invalid threshold"@,
            TokenError::NotAnOwner => "sender is not a multisig owner"@,
            TokenError::TransactionNotFound => "transaction not found"@,
            TokenError::AlreadyExecuted => "transaction already executed"@,
            TokenError::TransactionExpired => "transaction expired"@,
            TokenError::UnknownOperation => "unknown operation"@,
            TokenError::BalanceOverflow => "balance overflow"@,
        }
    }

    /// A short human-readable description of the failure.
    pub fn message(&self) -> (text: &'static str)
        ensures
            text@ == self.spec_message(),
    {
        match self {
            TokenError::AlreadyInitialized => "already initialized",
            TokenError::DecimalOverflow => "Decimal must fit in a u8",
            TokenError::NegativeAmount => "negative amount is not allowed",
            TokenError::AccountFrozen => "account is frozen",
            TokenError::InsufficientBalance => "insufficient balance",
            TokenError::InsufficientAllowance => "insufficient allowance",
            TokenError::AllowanceExpired => "allowance expired",
            TokenError::Unauthorized => "unauthorized",
            TokenError::EmptyOwnerList => "owner list cannot be empty",
            TokenError::InvalidThreshold => "invalid threshold",
            TokenError::NotAnOwner => "sender is not a multisig owner",
            TokenError::TransactionNotFound => "transaction not found",
            TokenError::AlreadyExecuted => "transaction already executed",
            TokenError::TransactionExpired => "transaction expired",
            TokenError::UnknownOperation => "unknown operation",
            TokenError::BalanceOverflow => "balance overflow",
        }
    }
}

} // verus!
