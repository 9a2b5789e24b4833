//! The error kinds that reject an invocation.

use vstd::prelude::*;

verus! {

/// Why an invocation was rejected. Every error is final for the invocation
/// that met it: nothing is retried and no effect of the invocation is kept.
#[derive(Clone, Copy, Debug, PartialEq, Eq, Structural)]
pub enum PaymentError {
    /// The instruction bytes are not a well-formed command, or the accounts
    /// that came with it do not have the count or the flags that the command
    /// calls for.
    MalformedInstruction,
    /// An account's bytes are not a well-formed record.
    CorruptAccountData,
    /// The target account already holds an initialized record.
    AlreadyInitialized,
    /// An account that has to hold a record holds none.
    NotInitialized,
    /// An account that has to belong to this program belongs to another.
    InvalidAccountOwner,
    /// A supplied address differs from the one that was derived or recorded
    /// for its place.
    AddressMismatch,
    /// A checked operation left the range of its type.
    ArithmeticOverflow,
    /// The amount paid differs from the amount owed.
    InsufficientPayment,
    /// An ordered item is absent from the merchant's catalog, or the catalog
    /// cannot be read.
    InvalidOrderItems,
    /// The merchant's catalog holds no package of the requested name.
    PackageNotFound,
    /// The merchant's catalog holds no packages at all, or cannot be read.
    NoPackagesDefined,
    /// The order is not in the state that the operation needs.
    InvalidOrderStatus,
    /// The order and the subscription are not bound to each other.
    InvalidSubscriptionLink,
}

impl PaymentError {
    /// The number under which a kind is reported, in the order of declaration.
    pub open spec fn spec_code(self) -> u32 {
        match self {
            PaymentError::MalformedInstruction => 0,
            PaymentError::CorruptAccountData => 1,
            PaymentError::AlreadyInitialized => 2,
            PaymentError::NotInitialized => 3,
            PaymentError::InvalidAccountOwner => 4,
            PaymentError::AddressMismatch => 5,
            PaymentError::ArithmeticOverflow => 6,
            PaymentError::InsufficientPayment => 7,
            PaymentError::InvalidOrderItems => 8,
            PaymentError::PackageNotFound => 9,
            PaymentError::NoPackagesDefined => 10,
            PaymentError::InvalidOrderStatus => 11,
            PaymentError::InvalidSubscriptionLink => 12,
        }
    }

    /// The structured code of this error.
    pub fn code(&self) -> (code: u32)
        ensures
            code == self.spec_code(),
    {
        match self {
            PaymentError::MalformedInstruction => 0,
            PaymentError::CorruptAccountData => 1,
            PaymentError::AlreadyInitialized => 2,
            PaymentError::NotInitialized => 3,
            PaymentError::InvalidAccountOwner => 4,
            PaymentError::AddressMismatch => 5,
            PaymentError::ArithmeticOverflow => 6,
            PaymentError::InsufficientPayment => 7,
            PaymentError::InvalidOrderItems => 8,
            PaymentError::PackageNotFound => 9,
            PaymentError::NoPackagesDefined => 10,
            PaymentError::InvalidOrderStatus => 11,
            PaymentError::InvalidSubscriptionLink => 12,
        }
    }

    /// The kind that is reported under `code`, if there is one.
    pub fn from_code(code: u32) -> (kind: Option<PaymentError>)
        ensures
            match kind {
                Some(e) => e.spec_code() == code,
                None => code > 12,
            },
    {
        match code {
            0 => Some(PaymentError::MalformedInstruction),
            1 => Some(PaymentError::CorruptAccountData),
            2 => Some(PaymentError::AlreadyInitialized),
            3 => Some(PaymentError::NotInitialized),
            4 => Some(PaymentError::InvalidAccountOwner),
            5 => Some(PaymentError::AddressMismatch),
            6 => Some(PaymentError::ArithmeticOverflow),
            7 => Some(PaymentError::InsufficientPayment),
            8 => Some(PaymentError::InvalidOrderItems),
            9 => Some(PaymentError::PackageNotFound),
            10 => Some(PaymentError::NoPackagesDefined),
            11 => Some(PaymentError::InvalidOrderStatus),
            12 => Some(PaymentError::InvalidSubscriptionLink),
            _ => None,
        }
    }

    /// The message that goes with the code.
    pub fn message(&self) -> (text: &'static str)
        ensures
            text@ == self.spec_message(),
    {
        match self {
            PaymentError::MalformedInstruction => "malformed instruction",
            PaymentError::CorruptAccountData => "corrupt account data",
            PaymentError::AlreadyInitialized => "account already initialized",
            PaymentError::NotInitialized => "account not initialized",
            PaymentError::InvalidAccountOwner => "account not owned by this program",
            PaymentError::AddressMismatch => "address mismatch",
            PaymentError::ArithmeticOverflow => "arithmetic overflow",
            PaymentError::InsufficientPayment => "insufficient payment",
            PaymentError::InvalidOrderItems => "invalid order items",
            PaymentError::PackageNotFound => "package not found",
            PaymentError::NoPackagesDefined => "no packages defined",
            PaymentError::InvalidOrderStatus => "invalid order status",
            PaymentError::InvalidSubscriptionLink => "invalid subscription link",
        }
    }

    /// The text of [`PaymentError::message`].
    pub open spec fn spec_message(self) -> Seq<char> {
        match self {
            PaymentError::MalformedInstruction => "malformed instruction"@,
            PaymentError::CorruptAccountData => "corrupt account data"@,
            PaymentError::AlreadyInitialized => "account already initialized"@,
            PaymentError::NotInitialized => "account not initialized"@,
            PaymentError::InvalidAccountOwner => "account not owned by this program"@,
            PaymentError::AddressMismatch => "address mismatch"@,
            PaymentError::ArithmeticOverflow => "arithmetic overflow"@,
            PaymentError::InsufficientPayment => "insufficient payment"@,
            PaymentError::InvalidOrderItems => "invalid order items"@,
            PaymentError::PackageNotFound => "package not found"@,
            PaymentError::NoPackagesDefined => "no packages defined"@,
            PaymentError::InvalidOrderStatus => "invalid order status"@,
            PaymentError::InvalidSubscriptionLink => "invalid subscription link"@,
        }
    }
}

} // verus!
