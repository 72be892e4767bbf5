use vstd::prelude::*;

use crate::error::Errors;
use crate::identity::Identity;
use crate::investment::{Investor, PositionModel};
use crate::ledger::{Holder, LedgerAction, Token};
use crate::property::{Property, PropertyModel};

verus! {

/// The outcome of the administrator declaring `amount` of new income.
pub open spec fn spec_distribute(p: PropertyModel, caller: Seq<u8>, amount: u64) -> Result<
    PropertyModel,
    Errors,
> {
    if caller != p.admin {
        Err(Errors::Unauthorized)
    } else if p.dividends_total + amount > u64::MAX {
        Err(Errors::OverflowError)
    } else {
        Ok(PropertyModel { dividends_total: (p.dividends_total + amount) as u64, ..p })
    }
}

/// Records that `total_dividends` more income exists for the property. No
/// funds move here.
pub fn distribute_dividends(caller: &Identity, property: &mut Property, total_dividends: u64) -> (r:
    Result<(), Errors>)
    ensures
        old(property).wf() ==> final(property).wf(),
        match spec_distribute(old(property)@, caller@, total_dividends) {
            Ok(m) => r is Ok && final(property)@ == m,
            Err(e) => r == Err::<(), Errors>(e) && final(property)@ == old(property)@,
        },
{
    if !caller.same_as(&property.admin) {
        return Err(Errors::Unauthorized);
    }
    property.dividends_total = match property.dividends_total.checked_add(total_dividends) {
        Some(v) => v,
        None => return Err(Errors::OverflowError),
    };
    Ok(())
}

/// Income per unit, computed afresh from the current pool and supply.
pub open spec fn dividend_per_unit(p: PropertyModel) -> int
    recommends
        p.total_tokens > 0,
{
    p.dividends_total as int / p.total_tokens as int
}

/// All that a position has earned so far.
pub open spec fn dividends_due(p: PropertyModel, pos: PositionModel) -> int {
    pos.tokens_owned * dividend_per_unit(p)
}

/// The outcome of a claim: the amount paid out.
pub open spec fn spec_redeem(p: PropertyModel, pos: PositionModel) -> Result<u64, Errors> {
    if p.total_tokens == 0 {
        Err(Errors::DivisionError)
    } else if dividends_due(p, pos) > u64::MAX {
        Err(Errors::MultiplicationError)
    } else if dividends_due(p, pos) < pos.dividends_claimed {
        Err(Errors::InvalidDividendsClaim)
    } else if dividends_due(p, pos) == pos.dividends_claimed {
        Err(Errors::NoDividendsToClaim)
    } else {
        Ok((dividends_due(p, pos) - pos.dividends_claimed) as u64)
    }
}

/// Pays a position what it has earned and not yet received, and raises its
/// claimed total to all that it has earned.
pub fn redeem_dividends(property: &Property, position: &mut Investor) -> (r: Result<
    Vec<LedgerAction>,
    Errors,
>)
    ensures
        final(position).dividends_claimed >= old(position).dividends_claimed,
        match spec_redeem(property@, old(position)@) {
            Ok(amount) => r matches Ok(actions) && final(position)@ == (PositionModel {
                dividends_claimed: dividends_due(property@, old(position)@) as u64,
                ..old(position)@
            }) && actions@ == seq![
                LedgerAction::Transfer {
                    token: Token::Payment,
                    from: Holder::Property,
                    to: Holder::Investor,
                    amount,
                },
            ],
            Err(e) => r == Err::<Vec<LedgerAction>, Errors>(e) && final(position)@ == old(
                position,
            )@,
        },
{
    let per_unit = match property.dividends_total.checked_div(property.total_tokens) {
        Some(v) => v,
        None => return Err(Errors::DivisionError),
    };
    let due = match position.tokens_owned.checked_mul(per_unit) {
        Some(v) => v,
        None => return Err(Errors::MultiplicationError),
    };
    let claimable = match due.checked_sub(position.dividends_claimed) {
        Some(v) => v,
        None => return Err(Errors::InvalidDividendsClaim),
    };
    if claimable == 0 {
        return Err(Errors::NoDividendsToClaim);
    }
    position.dividends_claimed = match position.dividends_claimed.checked_add(claimable) {
        Some(v) => v,
        None => return Err(Errors::OverflowError),
    };
    Ok(
        vec![
            LedgerAction::Transfer {
                token: Token::Payment,
                from: Holder::Property,
                to: Holder::Investor,
                amount: claimable,
            },
        ],
    )
}

} // verus!
