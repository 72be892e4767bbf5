use vstd::prelude::*;

verus! {

/// The two fungible tokens that operations move.
#[derive(Clone, Copy, Debug, PartialEq, Eq, Structural)]
pub enum Token {
    /// The stable payment currency.
    Payment,
    /// The property's ownership units.
    Units,
}

/// The two parties of an investment or a claim. For the property, payment
/// tokens sit in its payment account and units in its vault.
#[derive(Clone, Copy, Debug, PartialEq, Eq, Structural)]
pub enum Holder {
    Investor,
    Property,
}

/// A token movement that the hosting ledger performs for a successful
/// operation. A transfer is authorized by its sender: the investor's
/// signature, or the property's own derived authority. Minting and burning
/// always act on the vault under the property's derived authority.
#[derive(Clone, Copy, Debug, PartialEq, Eq, Structural)]
pub enum LedgerAction {
    Transfer { token: Token, from: Holder, to: Holder, amount: u64 },
    MintUnits { amount: u64 },
    BurnUnits { amount: u64 },
}

} // verus!
