use vstd::prelude::*;

use crate::error::Errors;
use crate::identity::Identity;
use crate::ledger::{Holder, LedgerAction, Token};
use crate::property::{Property, PropertyModel};

verus! {

/// One investor's position in one property.
#[derive(Clone, Copy, Debug, PartialEq, Eq)]
pub struct Investor {
    pub investor: Identity,
    pub property: Identity,
    pub tokens_owned: u64,
    pub dividends_claimed: u64,
}

/// The mathematical content of an [`Investor`] position.
pub struct PositionModel {
    pub investor: Seq<u8>,
    pub property: Seq<u8>,
    pub tokens_owned: u64,
    pub dividends_claimed: u64,
}

impl View for Investor {
    type V = PositionModel;

    open spec fn view(&self) -> PositionModel {
        PositionModel {
            investor: self.investor@,
            property: self.property@,
            tokens_owned: self.tokens_owned,
            dividends_claimed: self.dividends_claimed,
        }
    }
}

/// How many whole units a payment buys; the remainder buys nothing.
pub open spec fn units_for_payment(p: PropertyModel, usdc_amount: u64) -> u64 {
    usdc_amount / p.token_price_usdc
}

/// The outcome of a purchase: the property after it and the units bought.
pub open spec fn spec_invest(p: PropertyModel, usdc_amount: u64) -> Result<(PropertyModel, u64), Errors> {
    let units = units_for_payment(p, usdc_amount);
    if units == 0 {
        Err(Errors::InsufficientAmount)
    } else if units > p.available_tokens {
        Err(Errors::NotEnoughTokens)
    } else {
        Ok((PropertyModel { available_tokens: (p.available_tokens - units) as u64, ..p }, units))
    }
}

/// The token movements of a purchase of `units` for `usdc_amount`.
pub open spec fn invest_actions(usdc_amount: u64, units: u64) -> Seq<LedgerAction> {
    seq![
        LedgerAction::Transfer {
            token: Token::Payment,
            from: Holder::Investor,
            to: Holder::Property,
            amount: usdc_amount,
        },
        LedgerAction::Transfer {
            token: Token::Units,
            from: Holder::Property,
            to: Holder::Investor,
            amount: units,
        },
    ]
}

/// Buys as many whole units as `usdc_amount` pays for. The whole payment is
/// taken, remainder included, and a new position records the units.
pub fn invest_in_property(
    investor: Identity,
    property_key: Identity,
    property: &mut Property,
    usdc_amount: u64,
) -> (r: Result<(Investor, Vec<LedgerAction>), Errors>)
    requires
        old(property).wf(),
    ensures
        final(property).wf(),
        match spec_invest(old(property)@, usdc_amount) {
            Ok((m, units)) => r matches Ok((pos, actions)) && final(property)@ == m && pos@
                == (PositionModel {
                investor: investor@,
                property: property_key@,
                tokens_owned: units,
                dividends_claimed: 0,
            }) && actions@ == invest_actions(usdc_amount, units),
            Err(e) => r == Err::<(Investor, Vec<LedgerAction>), Errors>(e) && final(property)@
                == old(property)@,
        },
{
    let units = usdc_amount / property.token_price_usdc;
    if units == 0 {
        return Err(Errors::InsufficientAmount);
    }
    if property.available_tokens < units {
        return Err(Errors::NotEnoughTokens);
    }
    property.available_tokens = property.available_tokens - units;
    let position = Investor { investor, property: property_key, tokens_owned: units, dividends_claimed: 0 };
    let actions = vec![
        LedgerAction::Transfer {
            token: Token::Payment,
            from: Holder::Investor,
            to: Holder::Property,
            amount: usdc_amount,
        },
        LedgerAction::Transfer {
            token: Token::Units,
            from: Holder::Property,
            to: Holder::Investor,
            amount: units,
        },
    ];
    Ok((position, actions))
}

/// The outcome of a full withdrawal: the property after it and the refund.
pub open spec fn spec_withdraw(p: PropertyModel, pos: PositionModel) -> Result<(PropertyModel, u64), Errors> {
    if p.is_closed {
        Err(Errors::PropertyClosed)
    } else if pos.tokens_owned * p.token_price_usdc > u64::MAX {
        Err(Errors::MultiplicationError)
    } else if p.available_tokens + pos.tokens_owned > u64::MAX {
        Err(Errors::OverflowError)
    } else {
        Ok(
            (
                PropertyModel {
                    available_tokens: (p.available_tokens + pos.tokens_owned) as u64,
                    ..p
                },
                (pos.tokens_owned * p.token_price_usdc) as u64,
            ),
        )
    }
}

/// The token movements of a withdrawal of `units` refunded with `refund`.
pub open spec fn withdraw_actions(units: u64, refund: u64) -> Seq<LedgerAction> {
    seq![
        LedgerAction::Transfer {
            token: Token::Units,
            from: Holder::Investor,
            to: Holder::Property,
            amount: units,
        },
        LedgerAction::Transfer {
            token: Token::Payment,
            from: Holder::Property,
            to: Holder::Investor,
            amount: refund,
        },
    ]
}

/// Returns every unit of a position to the vault and refunds them at the unit
/// price. The position is emptied; the host then deletes it.
pub fn withdraw_investment(property: &mut Property, position: &mut Investor) -> (r: Result<
    Vec<LedgerAction>,
    Errors,
>)
    ensures
        old(property).wf() && old(property).available_tokens + old(position).tokens_owned
            <= old(property).total_tokens ==> final(property).wf(),
        match spec_withdraw(old(property)@, old(position)@) {
            Ok((m, refund)) => r matches Ok(actions) && final(property)@ == m
                && final(position)@ == (PositionModel { tokens_owned: 0, ..old(position)@ })
                && actions@ == withdraw_actions(old(position).tokens_owned, refund),
            Err(e) => r == Err::<Vec<LedgerAction>, Errors>(e) && final(property)@ == old(
                property,
            )@ && final(position)@ == old(position)@,
        },
{
    if property.is_closed {
        return Err(Errors::PropertyClosed);
    }
    let units = position.tokens_owned;
    let refund = match units.checked_mul(property.token_price_usdc) {
        Some(v) => v,
        None => return Err(Errors::MultiplicationError),
    };
    let available = match property.available_tokens.checked_add(units) {
        Some(v) => v,
        None => return Err(Errors::OverflowError),
    };
    property.available_tokens = available;
    position.tokens_owned = 0;
    let actions = vec![
        LedgerAction::Transfer {
            token: Token::Units,
            from: Holder::Investor,
            to: Holder::Property,
            amount: units,
        },
        LedgerAction::Transfer {
            token: Token::Payment,
            from: Holder::Property,
            to: Holder::Investor,
            amount: refund,
        },
    ];
    Ok(actions)
}

} // verus!
