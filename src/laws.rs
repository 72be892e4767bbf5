use vstd::prelude::*;

use crate::dividends::{dividends_due, spec_distribute, spec_redeem};
use crate::error::Errors;
use crate::governance::{spec_execute, spec_vote, ProposalModel};
use crate::investment::{spec_invest, spec_withdraw, PositionModel};
use crate::property::{
    spec_close_property, spec_mint_additional, spec_update_property, PropertyModel,
};

verus! {

/// Units for sale never exceed the units that exist: every operation that
/// succeeds on a well-formed property leaves it well-formed. A withdrawal
/// keeps the bound when the position holds no more than the units sold.
pub proof fn supply_bound_is_kept(
    p: PropertyModel,
    pos: PositionModel,
    proposal: ProposalModel,
    caller: Seq<u8>,
    name: Seq<u8>,
    symbol: Seq<u8>,
    amount: u64,
)
    requires
        p.wf(),
    ensures
        spec_mint_additional(p, caller, amount) matches Ok(q) ==> q.wf(),
        spec_update_property(p, name, symbol) matches Ok(q) ==> q.wf(),
        spec_close_property(p, caller) matches Ok(q) ==> q.wf(),
        spec_distribute(p, caller, amount) matches Ok(q) ==> q.wf(),
        spec_invest(p, amount) matches Ok((q, _)) ==> q.wf(),
        spec_execute(proposal, p) matches Ok((_, q)) ==> q.wf(),
        p.available_tokens + pos.tokens_owned <= p.total_tokens ==> (spec_withdraw(
            p,
            pos,
        ) matches Ok((q, _)) ==> q.wf()),
{
}

/// A claim never lowers what a position has claimed, and raises it exactly to
/// what the position has earned at the current income per unit, never above.
pub proof fn claims_rise_to_what_is_due(p: PropertyModel, pos: PositionModel)
    ensures
        spec_redeem(p, pos) matches Ok(amount) ==> {
            &&& amount > 0
            &&& pos.dividends_claimed + amount == dividends_due(p, pos)
            &&& pos.dividends_claimed < pos.dividends_claimed + amount
        },
{
}

/// An executed proposal stays executed: it takes no further vote and cannot
/// be executed again, and a successful execution marks it executed.
pub proof fn executed_is_final(
    proposal: ProposalModel,
    p: PropertyModel,
    already_voted: bool,
    vote: bool,
)
    ensures
        proposal.is_executed ==> spec_vote(proposal, already_voted, vote) == Err::<
            ProposalModel,
            Errors,
        >(Errors::ProposalAlreadyExecuted),
        proposal.is_executed ==> spec_execute(proposal, p) == Err::<
            (ProposalModel, PropertyModel),
            Errors,
        >(Errors::ProposalAlreadyExecuted),
        spec_vote(proposal, already_voted, vote) matches Ok(q) ==> q.is_executed
            == proposal.is_executed,
        spec_execute(proposal, p) matches Ok((q, _)) ==> q.is_executed,
{
}

/// A voter's second vote on a proposal is refused, so that the two calls
/// together add exactly one vote.
pub proof fn second_vote_is_refused(proposal: ProposalModel, first: bool, second: bool)
    ensures
        spec_vote(proposal, false, first) matches Ok(q) ==> {
            &&& spec_vote(q, true, second) == Err::<ProposalModel, Errors>(Errors::AlreadyVoted)
            &&& q.votes_for + q.votes_against == proposal.votes_for + proposal.votes_against + 1
        },
{
}

/// Buying units and at once withdrawing them restores the units for sale, and
/// refunds the whole payment but for the remainder that bought no unit.
pub proof fn invest_then_withdraw_restores(p: PropertyModel, pos: PositionModel, usdc_amount: u64)
    requires
        p.wf(),
        !p.is_closed,
        spec_invest(p, usdc_amount) matches Ok((_, units)) && pos.tokens_owned == units,
    ensures
        spec_invest(p, usdc_amount) matches Ok((q, _)) && spec_withdraw(q, pos) matches Ok(
            (r, refund),
        ) && r.available_tokens == p.available_tokens && r == p && refund == usdc_amount
            - usdc_amount % p.token_price_usdc,
{
    let units = usdc_amount / p.token_price_usdc;
    assert(units * p.token_price_usdc == usdc_amount - usdc_amount % p.token_price_usdc) by {
        vstd::arithmetic::div_mod::lemma_fundamental_div_mod(
            usdc_amount as int,
            p.token_price_usdc as int,
        );
        vstd::arithmetic::mul::lemma_mul_is_commutative(
            units as int,
            p.token_price_usdc as int,
        );
    }
    assert(0 <= usdc_amount % p.token_price_usdc) by {
        vstd::arithmetic::div_mod::lemma_mod_pos_bound(
            usdc_amount as int,
            p.token_price_usdc as int,
        );
    }
}

} // verus!
