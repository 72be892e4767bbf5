//! Accounting and governance rules for fractional ownership of real-estate
//! properties: unit sales, dividend accrual and claims, and proposals that
//! unit holders vote on and execute.
//!
//! Every operation works on the records it is handed and returns the token
//! movements that the hosting ledger must perform for it, so that the whole
//! decision is made (and proved) here while the transfers happen outside.

pub mod dividends;
pub mod error;
pub mod governance;
pub mod identity;
pub mod investment;
pub mod keys;
pub mod laws;
pub mod ledger;
pub mod property;

pub use dividends::{distribute_dividends, redeem_dividends};
pub use error::{ErrorKind, Errors};
pub use governance::{
    build_proposal, create_proposal, execute_proposal, vote_on_proposal, Proposal,
    ProposalAction, ProposalType, VoteRecord,
};
pub use identity::Identity;
pub use investment::{invest_in_property, withdraw_investment, Investor};
pub use ledger::{Holder, LedgerAction, Token};
pub use property::{close_property, create_property, mint_additional_tokens, update_property, Property};
