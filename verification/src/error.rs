//! The errors that the registry, the facets and the guarded operation return.

use vstd::prelude::*;
use vstd::string::*;
use crate::payload::TypeTag;

verus! {

/// Why the registry of an object refused a request.
#[derive(Clone, Copy, Debug, PartialEq, Eq, Structural)]
pub enum FacetError {
    /// A facet of the type is attached already; it stays as it is.
    AlreadyAttached(TypeTag),
    /// No facet of the requested type is attached.
    FacetNotFound(TypeTag),
    /// The slot that stands under the tag of the requested type gave no
    /// value of that type. The payload types of this library are proved
    /// never to cause it: it tells of a `Payload` implementation from
    /// elsewhere that does not keep the contract of the trait.
    InternalInconsistency(TypeTag),
}

impl FacetError {
    /// The text of each error.
    pub open spec fn message_text(self) -> Seq<char> {
        match self {
            FacetError::AlreadyAttached(tag) => "Facet of type "@ + tag.name_text()
                + " already attached"@,
            FacetError::FacetNotFound(tag) => "Required facet not found: "@ + tag.name_text(),
            FacetError::InternalInconsistency(_) => "Failed to downcast facet"@,
        }
    }

    /// The error as text for a reader.
    pub fn message(&self) -> (text: String)
        ensures
            text@ == self.message_text(),
    {
        match self {
            FacetError::AlreadyAttached(tag) => {
                let mut text = "Facet of type ".to_owned();
                text.append(tag.name());
                text.append(" already attached");
                text
            },
            FacetError::FacetNotFound(tag) => {
                let mut text = "Required facet not found: ".to_owned();
                text.append(tag.name());
                text
            },
            FacetError::InternalInconsistency(_) => "Failed to downcast facet".to_owned(),
        }
    }
}

/// Why the account facet refused an operation.
#[derive(Clone, Copy, Debug, PartialEq, Eq, Structural)]
pub enum LedgerError {
    /// A deposit of zero or less.
    NonPositiveDeposit,
    /// A withdrawal of zero or less.
    NonPositiveWithdrawal,
    /// A withdrawal of more than the balance.
    InsufficientFunds,
    /// A deposit that would take the balance past the largest value it can hold.
    LimitExceeded,
}

impl LedgerError {
    /// The text of each error.
    pub open spec fn message_text(self) -> Seq<char> {
        match self {
            LedgerError::NonPositiveDeposit => "Deposit amount must be positive"@,
            LedgerError::NonPositiveWithdrawal => "Withdrawal amount must be positive"@,
            LedgerError::InsufficientFunds => "Insufficient funds"@,
            LedgerError::LimitExceeded => "Balance limit exceeded"@,
        }
    }

    /// The error as text for a reader.
    pub fn message(&self) -> (text: String)
        ensures
            text@ == self.message_text(),
    {
        match self {
            LedgerError::NonPositiveDeposit => "Deposit amount must be positive".to_owned(),
            LedgerError::NonPositiveWithdrawal => "Withdrawal amount must be positive".to_owned(),
            LedgerError::InsufficientFunds => "Insufficient funds".to_owned(),
            LedgerError::LimitExceeded => "Balance limit exceeded".to_owned(),
        }
    }
}

/// Why a guarded operation failed.
#[derive(Clone, Copy, Debug, PartialEq, Eq, Structural)]
pub enum OperationError {
    /// The permission facet is missing or does not grant the permission.
    AuthorizationDenied,
    /// The registry refused the access to the target facet.
    Registry(FacetError),
    /// The target facet refused the operation.
    Domain(LedgerError),
}

impl OperationError {
    /// The text of each error.
    pub open spec fn message_text(self) -> Seq<char> {
        match self {
            OperationError::AuthorizationDenied =>
                "Access denied: insufficient permissions for financial operations"@,
            OperationError::Registry(error) => error.message_text(),
            OperationError::Domain(error) => error.message_text(),
        }
    }

    /// The error as text for a reader.
    pub fn message(&self) -> (text: String)
        ensures
            text@ == self.message_text(),
    {
        match self {
            OperationError::AuthorizationDenied =>
                "Access denied: insufficient permissions for financial operations".to_owned(),
            OperationError::Registry(error) => error.message(),
            OperationError::Domain(error) => error.message(),
        }
    }
}

} // verus!
