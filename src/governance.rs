use vstd::prelude::*;
use vstd::slice::slice_to_vec;
use vstd::string::StringSliceAdditionalSpecFns;

use crate::error::Errors;
use crate::identity::Identity;
use crate::keys::{base58_key, parse_key};
use crate::ledger::LedgerAction;
use crate::property::{Property, PropertyModel};

verus! {

pub const MAX_DESCRIPTION_LEN: usize = 256;

/// Which action a proposal asks for, as a proposer names it.
#[derive(Clone, Copy, Debug, PartialEq, Eq, Structural)]
pub enum ProposalType {
    MintAdditionalTokens,
    ChangeAdmin,
}

/// The action a proposal applies once adopted, with its one argument.
#[derive(Clone, Copy, Debug, PartialEq, Eq)]
pub enum ProposalAction {
    MintAdditionalTokens { amount: u64 },
    ChangeAdmin { new_admin: Identity },
}

pub enum ActionModel {
    MintAdditionalTokens { amount: u64 },
    ChangeAdmin { new_admin: Seq<u8> },
}

impl View for ProposalAction {
    type V = ActionModel;

    open spec fn view(&self) -> ActionModel {
        match self {
            ProposalAction::MintAdditionalTokens { amount } => ActionModel::MintAdditionalTokens {
                amount: *amount,
            },
            ProposalAction::ChangeAdmin { new_admin } => ActionModel::ChangeAdmin {
                new_admin: new_admin@,
            },
        }
    }
}

/// A governance proposal on one property.
#[derive(Clone, Debug)]
pub struct Proposal {
    pub proposer: Identity,
    pub property: Identity,
    pub description: Vec<u8>,
    pub action: ProposalAction,
    pub votes_for: u64,
    pub votes_against: u64,
    pub is_executed: bool,
}

pub struct ProposalModel {
    pub proposer: Seq<u8>,
    pub property: Seq<u8>,
    pub description: Seq<u8>,
    pub action: ActionModel,
    pub votes_for: u64,
    pub votes_against: u64,
    pub is_executed: bool,
}

impl View for Proposal {
    type V = ProposalModel;

    open spec fn view(&self) -> ProposalModel {
        ProposalModel {
            proposer: self.proposer@,
            property: self.property@,
            description: self.description@,
            action: self.action@,
            votes_for: self.votes_for,
            votes_against: self.votes_against,
            is_executed: self.is_executed,
        }
    }
}

/// Whether one voter has already voted on one proposal.
#[derive(Clone, Copy, Debug, PartialEq, Eq, Structural)]
pub struct VoteRecord {
    pub voted: bool,
}

/// The outcome of opening a proposal, given the new administrator's key
/// already decoded (`None` where it is missing or malformed).
pub open spec fn spec_build_proposal(
    proposer: Seq<u8>,
    property: Seq<u8>,
    description: Seq<u8>,
    proposal_type: ProposalType,
    new_admin: Option<Seq<u8>>,
    additional_tokens: u64,
) -> Result<ProposalModel, Errors> {
    if description.len() > MAX_DESCRIPTION_LEN {
        Err(Errors::DescriptionTooLong)
    } else {
        let action = match proposal_type {
            ProposalType::ChangeAdmin => match new_admin {
                Some(k) => Ok(ActionModel::ChangeAdmin { new_admin: k }),
                None => Err(Errors::InvalidNewAdmin),
            },
            ProposalType::MintAdditionalTokens => if additional_tokens == 0 {
                Err(Errors::InvalidAdditionalTokens)
            } else {
                Ok(ActionModel::MintAdditionalTokens { amount: additional_tokens })
            },
        };
        match action {
            Ok(a) => Ok(
                ProposalModel {
                    proposer,
                    property,
                    description,
                    action: a,
                    votes_for: 0,
                    votes_against: 0,
                    is_executed: false,
                },
            ),
            Err(e) => Err(e),
        }
    }
}

/// Opens a proposal with no votes, given the new administrator's key already
/// decoded.
pub fn build_proposal(
    proposer: Identity,
    property_key: Identity,
    description: &str,
    proposal_type: ProposalType,
    new_admin: Option<Identity>,
    additional_tokens: u64,
) -> (r: Result<Proposal, Errors>)
    ensures
        match spec_build_proposal(
            proposer@,
            property_key@,
            description.spec_bytes(),
            proposal_type,
            match new_admin {
                Some(k) => Some(k@),
                None => None,
            },
            additional_tokens,
        ) {
            Ok(m) => r matches Ok(p) && p@ == m,
            Err(e) => r == Err::<Proposal, Errors>(e),
        },
{
    let bytes = description.as_bytes();
    if bytes.len() > MAX_DESCRIPTION_LEN {
        return Err(Errors::DescriptionTooLong);
    }
    let action = match proposal_type {
        ProposalType::ChangeAdmin => match new_admin {
            Some(k) => ProposalAction::ChangeAdmin { new_admin: k },
            None => return Err(Errors::InvalidNewAdmin),
        },
        ProposalType::MintAdditionalTokens => {
            if additional_tokens == 0 {
                return Err(Errors::InvalidAdditionalTokens);
            }
            ProposalAction::MintAdditionalTokens { amount: additional_tokens }
        },
    };
    Ok(
        Proposal {
            proposer,
            property: property_key,
            description: slice_to_vec(bytes),
            action,
            votes_for: 0,
            votes_against: 0,
            is_executed: false,
        },
    )
}

/// The decoded key that a proposal of `proposal_type` carries.
pub open spec fn admin_argument(proposal_type: ProposalType, new_admin: Seq<char>) -> Option<
    Seq<u8>,
> {
    match proposal_type {
        ProposalType::ChangeAdmin => if new_admin.len() == 0 {
            None
        } else {
            base58_key(new_admin)
        },
        ProposalType::MintAdditionalTokens => None,
    }
}

/// Opens a proposal. For a change of administrator `new_admin` is the base58
/// text of the new key; for a mint `additional_tokens` is the amount.
pub fn create_proposal(
    proposer: Identity,
    property_key: Identity,
    description: &str,
    proposal_type: ProposalType,
    new_admin: &str,
    additional_tokens: u64,
) -> (r: Result<Proposal, Errors>)
    ensures
        match spec_build_proposal(
            proposer@,
            property_key@,
            description.spec_bytes(),
            proposal_type,
            admin_argument(proposal_type, new_admin@),
            additional_tokens,
        ) {
            Ok(m) => r matches Ok(p) && p@ == m,
            Err(e) => r == Err::<Proposal, Errors>(e),
        },
{
    let key = match proposal_type {
        ProposalType::ChangeAdmin => if new_admin.is_empty() {
            None
        } else {
            parse_key(new_admin)
        },
        ProposalType::MintAdditionalTokens => None,
    };
    build_proposal(proposer, property_key, description, proposal_type, key, additional_tokens)
}

/// The outcome of one vote.
pub open spec fn spec_vote(p: ProposalModel, already_voted: bool, vote: bool) -> Result<
    ProposalModel,
    Errors,
> {
    if p.is_executed {
        Err(Errors::ProposalAlreadyExecuted)
    } else if already_voted {
        Err(Errors::AlreadyVoted)
    } else if vote {
        if p.votes_for + 1 > u64::MAX {
            Err(Errors::OverflowError)
        } else {
            Ok(ProposalModel { votes_for: (p.votes_for + 1) as u64, ..p })
        }
    } else {
        if p.votes_against + 1 > u64::MAX {
            Err(Errors::OverflowError)
        } else {
            Ok(ProposalModel { votes_against: (p.votes_against + 1) as u64, ..p })
        }
    }
}

/// Counts one voter's vote (`true` for, `false` against) and marks the voter
/// as having voted.
pub fn vote_on_proposal(proposal: &mut Proposal, vote_record: &mut VoteRecord, vote: bool) -> (r:
    Result<(), Errors>)
    ensures
        match spec_vote(old(proposal)@, old(vote_record).voted, vote) {
            Ok(m) => r is Ok && final(proposal)@ == m && final(vote_record).voted,
            Err(e) => r == Err::<(), Errors>(e) && final(proposal)@ == old(proposal)@
                && *final(vote_record) == *old(vote_record),
        },
{
    if proposal.is_executed {
        return Err(Errors::ProposalAlreadyExecuted);
    }
    if vote_record.voted {
        return Err(Errors::AlreadyVoted);
    }
    if vote {
        proposal.votes_for = match proposal.votes_for.checked_add(1) {
            Some(v) => v,
            None => return Err(Errors::OverflowError),
        };
    } else {
        proposal.votes_against = match proposal.votes_against.checked_add(1) {
            Some(v) => v,
            None => return Err(Errors::OverflowError),
        };
    }
    vote_record.voted = true;
    Ok(())
}

/// The outcome of executing a proposal: the proposal and the property after
/// it.
pub open spec fn spec_execute(p: ProposalModel, prop: PropertyModel) -> Result<
    (ProposalModel, PropertyModel),
    Errors,
> {
    if p.is_executed {
        Err(Errors::ProposalAlreadyExecuted)
    } else if p.votes_for <= p.votes_against {
        Err(Errors::ProposalNotApproved)
    } else {
        let done = ProposalModel { is_executed: true, ..p };
        match p.action {
            ActionModel::MintAdditionalTokens { amount } => if prop.total_tokens + amount
                > u64::MAX {
                Err(Errors::OverflowError)
            } else {
                Ok(
                    (
                        done,
                        PropertyModel {
                            total_tokens: (prop.total_tokens + amount) as u64,
                            available_tokens: (prop.available_tokens + amount) as u64,
                            ..prop
                        },
                    ),
                )
            },
            ActionModel::ChangeAdmin { new_admin } => Ok(
                (done, PropertyModel { admin: new_admin, ..prop }),
            ),
        }
    }
}

/// The token movements of executing a proposal with `action`.
pub open spec fn execute_actions(action: ActionModel) -> Seq<LedgerAction> {
    match action {
        ActionModel::MintAdditionalTokens { amount } => seq![LedgerAction::MintUnits { amount }],
        ActionModel::ChangeAdmin { .. } => seq![],
    }
}

/// Applies an adopted proposal (strictly more votes for than against) to its
/// property and marks it executed.
pub fn execute_proposal(proposal: &mut Proposal, property: &mut Property) -> (r: Result<
    Vec<LedgerAction>,
    Errors,
>)
    requires
        old(property).wf(),
    ensures
        final(property).wf(),
        match spec_execute(old(proposal)@, old(property)@) {
            Ok((pm, m)) => r matches Ok(actions) && final(proposal)@ == pm && final(property)@ == m
                && actions@ == execute_actions(old(proposal)@.action),
            Err(e) => r == Err::<Vec<LedgerAction>, Errors>(e) && final(proposal)@ == old(
                proposal,
            )@ && final(property)@ == old(property)@,
        },
{
    if proposal.is_executed {
        return Err(Errors::ProposalAlreadyExecuted);
    }
    if proposal.votes_for <= proposal.votes_against {
        return Err(Errors::ProposalNotApproved);
    }
    let actions = match proposal.action {
        ProposalAction::MintAdditionalTokens { amount } => {
            let available = match property.available_tokens.checked_add(amount) {
                Some(v) => v,
                None => return Err(Errors::OverflowError),
            };
            let total = match property.total_tokens.checked_add(amount) {
                Some(v) => v,
                None => return Err(Errors::OverflowError),
            };
            property.available_tokens = available;
            property.total_tokens = total;
            vec![LedgerAction::MintUnits { amount }]
        },
        ProposalAction::ChangeAdmin { new_admin } => {
            property.admin = new_admin;
            Vec::new()
        },
    };
    proposal.is_executed = true;
    Ok(actions)
}

} // verus!
