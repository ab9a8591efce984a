use crate::identity::Pubkey;
use vstd::prelude::*;

verus! {

/// Size budget (in characters) for a legal name or a proposal title,
/// matching the space reserved for the persisted record.
pub const MAX_NAME_LEN: usize = 256;

/// Size budget (in characters) for an address or a proposal description.
pub const MAX_ADDRESS_LEN: usize = 512;

/// Per-organization governance record: the authority, the monotonic
/// proposal sequence counter, and the legal identity of the entity.
pub struct Dao {
    pub authority: Pubkey,
    pub proposal_count: u64,
    pub member_count: u64,
    pub legal_name: String,
    pub registered_agent_address: String,
    pub principal_place_of_business: String,
    pub formation_date: i64,
    pub jurisdiction: String,
    pub entity_type: String,
}

/// A unit of governance action under a Dao. `id` is assigned from the Dao's
/// sequence at creation and immutable afterward; the tallies start at zero
/// and grow by exactly one per successful vote.
pub struct Proposal {
    pub id: u64,
    pub title: String,
    pub description: String,
    pub amount: u64,
    pub proposer: Pubkey,
    pub votes_for: u64,
    pub votes_against: u64,
    pub status: ProposalStatus,
    pub created_at: i64,
}

/// A durable per-(proposal, voter) marker preventing double voting. The
/// record's existence is the deduplication signal; `has_voted` is kept for
/// clarity and is true in every committed record.
#[derive(Clone, Copy, PartialEq, Eq, Structural, Debug)]
pub struct VoteRecord {
    pub has_voted: bool,
    pub support: bool,
    pub voter: Pubkey,
}

/// Lifecycle states of a proposal. Voting is only permitted while `Active`;
/// no operation here transitions a proposal to `Executed` or `Rejected`
/// (that transition is deliberately left to a future extension).
#[derive(Clone, Copy, PartialEq, Eq, Structural, Debug)]
pub enum ProposalStatus {
    Active,
    Executed,
    Rejected,
}

/// The two ways a vote can be refused. Any failure aborts the whole
/// operation with no partial state change.
#[derive(Clone, Copy, PartialEq, Eq, Structural, Debug)]
pub enum ErrorCode {
    ProposalNotActive,
    AlreadyVoted,
}

/// Creates the Dao record for a new organization: counters at zero, the
/// caller as authority, and the fixed Wyoming DAO LLC legal identity.
pub fn initialize(
    authority: Pubkey,
    legal_name: String,
    registered_agent_address: String,
    principal_place_of_business: String,
    formation_date: i64,
) -> (dao: Dao)
    requires
        legal_name@.len() <= MAX_NAME_LEN,
        registered_agent_address@.len() <= MAX_ADDRESS_LEN,
        principal_place_of_business@.len() <= MAX_ADDRESS_LEN,
    ensures
        dao.authority == authority,
        dao.proposal_count == 0,
        dao.member_count == 0,
        dao.legal_name == legal_name,
        dao.registered_agent_address == registered_agent_address,
        dao.principal_place_of_business == principal_place_of_business,
        dao.formation_date == formation_date,
        dao.jurisdiction@ == "Wyoming"@,
        dao.entity_type@ == "DAO LLC"@,
{
    Dao {
        authority,
        proposal_count: 0,
        member_count: 0,
        legal_name,
        registered_agent_address,
        principal_place_of_business,
        formation_date,
        jurisdiction: "Wyoming".to_string(),
        entity_type: "DAO LLC".to_string(),
    }
}

/// Creates a proposal under `dao`: it takes the next sequential id, starts
/// `Active` with both tallies at zero, and the Dao's sequence counter moves
/// up by one. Every other Dao field is untouched.
pub fn create_proposal(
    dao: &mut Dao,
    title: String,
    description: String,
    amount: u64,
    proposer: Pubkey,
    created_at: i64,
) -> (proposal: Proposal)
    requires
        old(dao).proposal_count < u64::MAX,
        title@.len() <= MAX_NAME_LEN,
        description@.len() <= MAX_ADDRESS_LEN,
    ensures
        proposal.id == old(dao).proposal_count,
        proposal.title == title,
        proposal.description == description,
        proposal.amount == amount,
        proposal.proposer == proposer,
        proposal.votes_for == 0,
        proposal.votes_against == 0,
        proposal.status == ProposalStatus::Active,
        proposal.created_at == created_at,
        final(dao).proposal_count == old(dao).proposal_count + 1,
        final(dao).authority == old(dao).authority,
        final(dao).member_count == old(dao).member_count,
        final(dao).legal_name == old(dao).legal_name,
        final(dao).registered_agent_address == old(dao).registered_agent_address,
        final(dao).principal_place_of_business == old(dao).principal_place_of_business,
        final(dao).formation_date == old(dao).formation_date,
        final(dao).jurisdiction == old(dao).jurisdiction,
        final(dao).entity_type == old(dao).entity_type,
{
    let id = dao.proposal_count;
    dao.proposal_count = dao.proposal_count + 1;
    Proposal {
        id,
        title,
        description,
        amount,
        proposer,
        votes_for: 0,
        votes_against: 0,
        status: ProposalStatus::Active,
        created_at,
    }
}

/// Casts one vote on `proposal`, recording it in `vote_record`.
///
/// Preconditions are checked in order and the first failure aborts with no
/// partial effect: a non-`Active` proposal refuses with `ProposalNotActive`;
/// an already-written vote record refuses with `AlreadyVoted`. On success
/// exactly one tally grows by one (votes are counted, not weighted) and the
/// record commits with `has_voted` set, pinning the voter's choice.
pub fn vote(
    proposal: &mut Proposal,
    vote_record: &mut VoteRecord,
    voter: Pubkey,
    support: bool,
) -> (r: Result<(), ErrorCode>)
    requires
        old(proposal).status == ProposalStatus::Active && !old(vote_record).has_voted ==> {
            &&& old(proposal).votes_for < u64::MAX
            &&& old(proposal).votes_against < u64::MAX
        },
    ensures
        old(proposal).status != ProposalStatus::Active ==> {
            &&& r == Err::<(), ErrorCode>(ErrorCode::ProposalNotActive)
            &&& *final(proposal) == *old(proposal)
            &&& *final(vote_record) == *old(vote_record)
        },
        old(proposal).status == ProposalStatus::Active && old(vote_record).has_voted ==> {
            &&& r == Err::<(), ErrorCode>(ErrorCode::AlreadyVoted)
            &&& *final(proposal) == *old(proposal)
            &&& *final(vote_record) == *old(vote_record)
        },
        old(proposal).status == ProposalStatus::Active && !old(vote_record).has_voted ==> {
            &&& r == Ok::<(), ErrorCode>(())
            &&& final(vote_record).has_voted
            &&& final(vote_record).support == support
            &&& final(vote_record).voter == voter
            &&& support ==> final(proposal).votes_for == old(proposal).votes_for + 1
                && final(proposal).votes_against == old(proposal).votes_against
            &&& !support ==> final(proposal).votes_against == old(proposal).votes_against + 1
                && final(proposal).votes_for == old(proposal).votes_for
            &&& final(proposal).id == old(proposal).id
            &&& final(proposal).title == old(proposal).title
            &&& final(proposal).description == old(proposal).description
            &&& final(proposal).amount == old(proposal).amount
            &&& final(proposal).proposer == old(proposal).proposer
            &&& final(proposal).status == old(proposal).status
            &&& final(proposal).created_at == old(proposal).created_at
        },
{
    if !(proposal.status == ProposalStatus::Active) {
        return Err(ErrorCode::ProposalNotActive);
    }
    if vote_record.has_voted {
        return Err(ErrorCode::AlreadyVoted);
    }
    if support {
        proposal.votes_for = proposal.votes_for + 1;
    } else {
        proposal.votes_against = proposal.votes_against + 1;
    }
    vote_record.has_voted = true;
    vote_record.support = support;
    vote_record.voter = voter;
    Ok(())
}

} // verus!
