use vstd::prelude::*;

verus! {

/// Every way an operation can be refused. A refused operation changes nothing.
#[derive(Clone, Copy, Debug, PartialEq, Eq, Structural)]
pub enum Errors {
    InvalidTotalTokens,
    InvalidTokenPrice,
    InvalidPropertyName,
    InvalidTokenSymbol,
    Unauthorized,
    OverflowError,
    InsufficientAmount,
    NotEnoughTokens,
    DivisionError,
    MultiplicationError,
    InvalidDividendsClaim,
    NoDividendsToClaim,
    PropertyClosed,
    DescriptionTooLong,
    InvalidNewAdmin,
    InvalidAdditionalTokens,
    ProposalAlreadyExecuted,
    AlreadyVoted,
    ProposalNotApproved,
}

/// The broad family an error belongs to.
#[derive(Clone, Copy, Debug, PartialEq, Eq, Structural)]
pub enum ErrorKind {
    Unauthorized,
    Validation,
    InsufficientAmount,
    NotEnoughTokens,
    Arithmetic,
    StateConflict,
}

pub open spec fn kind_of(e: Errors) -> ErrorKind {
    match e {
        Errors::Unauthorized => ErrorKind::Unauthorized,
        Errors::InvalidTotalTokens | Errors::InvalidTokenPrice | Errors::InvalidPropertyName
        | Errors::InvalidTokenSymbol | Errors::DescriptionTooLong | Errors::InvalidNewAdmin
        | Errors::InvalidAdditionalTokens => ErrorKind::Validation,
        Errors::InsufficientAmount => ErrorKind::InsufficientAmount,
        Errors::NotEnoughTokens => ErrorKind::NotEnoughTokens,
        Errors::OverflowError | Errors::DivisionError | Errors::MultiplicationError
        | Errors::InvalidDividendsClaim => ErrorKind::Arithmetic,
        Errors::PropertyClosed | Errors::ProposalAlreadyExecuted | Errors::AlreadyVoted
        | Errors::ProposalNotApproved | Errors::NoDividendsToClaim => ErrorKind::StateConflict,
    }
}

impl Errors {
    pub fn kind(&self) -> (r: ErrorKind)
        ensures
            r == kind_of(*self),
    {
        match self {
            Errors::Unauthorized => ErrorKind::Unauthorized,
            Errors::InvalidTotalTokens | Errors::InvalidTokenPrice | Errors::InvalidPropertyName
            | Errors::InvalidTokenSymbol | Errors::DescriptionTooLong | Errors::InvalidNewAdmin
            | Errors::InvalidAdditionalTokens => ErrorKind::Validation,
            Errors::InsufficientAmount => ErrorKind::InsufficientAmount,
            Errors::NotEnoughTokens => ErrorKind::NotEnoughTokens,
            Errors::OverflowError | Errors::DivisionError | Errors::MultiplicationError
            | Errors::InvalidDividendsClaim => ErrorKind::Arithmetic,
            Errors::PropertyClosed | Errors::ProposalAlreadyExecuted | Errors::AlreadyVoted
            | Errors::ProposalNotApproved | Errors::NoDividendsToClaim => ErrorKind::StateConflict,
        }
    }
}

} // verus!
