use crate::governance::Dao;
use crate::governance::ErrorCode;
use crate::governance::MAX_ADDRESS_LEN;
use crate::governance::MAX_NAME_LEN;
use crate::governance::Proposal;
use crate::governance::ProposalStatus;
use crate::governance::VoteRecord;
use crate::identity::Pubkey;
use vstd::prelude::*;

verus! {

/// One committed vote, keyed by the (proposal, voter) pair: the proposal it
/// references together with the durable vote record.
pub struct VoteEntry {
    pub proposal_id: u64,
    pub record: VoteRecord,
}

/// How many committed votes reference `proposal_id`.
pub open spec fn vote_count(entries: Seq<VoteEntry>, proposal_id: u64) -> nat
    decreases entries.len(),
{
    if entries.len() == 0 {
        0
    } else {
        vote_count(entries.drop_last(), proposal_id) + if entries.last().proposal_id
            == proposal_id {
            1nat
        } else {
            0nat
        }
    }
}

pub proof fn lemma_vote_count_le_len(entries: Seq<VoteEntry>, proposal_id: u64)
    ensures
        vote_count(entries, proposal_id) <= entries.len(),
    decreases entries.len(),
{
    if entries.len() > 0 {
        lemma_vote_count_le_len(entries.drop_last(), proposal_id);
    }
}

pub proof fn lemma_vote_count_push(entries: Seq<VoteEntry>, e: VoteEntry, proposal_id: u64)
    ensures
        vote_count(entries.push(e), proposal_id) == vote_count(entries, proposal_id) + if e.proposal_id
            == proposal_id {
            1nat
        } else {
            0nat
        },
{
    assert(entries.push(e).drop_last() =~= entries);
    assert(entries.push(e).last() == e);
}

pub proof fn lemma_vote_count_absent(entries: Seq<VoteEntry>, proposal_id: u64)
    requires
        forall|i: int|
            0 <= i < entries.len() ==> (#[trigger] entries[i]).proposal_id != proposal_id,
    ensures
        vote_count(entries, proposal_id) == 0,
    decreases entries.len(),
{
    if entries.len() > 0 {
        assert(forall|i: int|
            0 <= i < entries.drop_last().len() ==> (#[trigger] entries.drop_last()[i]).proposal_id
                != proposal_id);
        lemma_vote_count_absent(entries.drop_last(), proposal_id);
    }
}

/// The full governance state of one organization: the Dao record, the
/// proposals created under it (in creation order), and every committed vote.
/// This realizes the execution environment's address-derived record model as
/// an explicit keyed collection with insert-if-absent semantics.
pub struct GovernanceLedger {
    pub dao: Dao,
    pub proposals: Vec<Proposal>,
    pub votes: Vec<VoteEntry>,
}

impl GovernanceLedger {
    /// Whether some committed vote already pairs `proposal_id` with `voter`.
    /// The presence of such an entry is exactly the `AlreadyVoted` condition.
    pub open spec fn has_vote(self, proposal_id: u64, voter: Pubkey) -> bool {
        exists|i: int|
            0 <= i < self.votes@.len() && (#[trigger] self.votes@[i]).proposal_id == proposal_id
                && self.votes@[i].record.voter == voter
    }

    /// Well-formedness, established at initialization and preserved by every
    /// operation:
    /// - the Dao's sequence counter equals the number of proposals, and the
    ///   i-th proposal carries id i (ids are 0, 1, 2, ... with no gaps);
    /// - every vote references an existing proposal and is committed
    ///   (`has_voted` set);
    /// - at most one vote exists per (proposal, voter) pair;
    /// - each proposal's `votes_for + votes_against` equals the number of
    ///   committed votes referencing it.
    pub open spec fn wf(self) -> bool {
        &&& self.dao.proposal_count == self.proposals@.len()
        &&& forall|i: int|
            0 <= i < self.proposals@.len() ==> (#[trigger] self.proposals@[i]).id == i
        &&& forall|i: int|
            0 <= i < self.votes@.len() ==> (#[trigger] self.votes@[i]).proposal_id
                < self.proposals@.len()
        &&& forall|i: int| 0 <= i < self.votes@.len() ==> (#[trigger] self.votes@[i]).record.has_voted
        &&& forall|i: int, j: int|
            0 <= i < self.votes@.len() && 0 <= j < self.votes@.len() && i != j ==> !((
            #[trigger] self.votes@[i]).proposal_id == (#[trigger] self.votes@[j]).proposal_id
                && self.votes@[i].record.voter == self.votes@[j].record.voter)
        &&& forall|p: int|
            0 <= p < self.proposals@.len() ==> (#[trigger] self.proposals@[p]).votes_for
                + self.proposals@[p].votes_against == vote_count(self.votes@, p as u64)
    }

    /// Creates the governance state for a new organization: a fresh Dao
    /// record, no proposals, no votes.
    pub fn init_dao(
        authority: Pubkey,
        legal_name: String,
        registered_agent_address: String,
        principal_place_of_business: String,
        formation_date: i64,
    ) -> (ledger: GovernanceLedger)
        requires
            legal_name@.len() <= MAX_NAME_LEN,
            registered_agent_address@.len() <= MAX_ADDRESS_LEN,
            principal_place_of_business@.len() <= MAX_ADDRESS_LEN,
        ensures
            ledger.wf(),
            ledger.dao.authority == authority,
            ledger.dao.proposal_count == 0,
            ledger.dao.member_count == 0,
            ledger.dao.legal_name == legal_name,
            ledger.dao.registered_agent_address == registered_agent_address,
            ledger.dao.principal_place_of_business == principal_place_of_business,
            ledger.dao.formation_date == formation_date,
            ledger.dao.jurisdiction@ == "Wyoming"@,
            ledger.dao.entity_type@ == "DAO LLC"@,
            ledger.proposals@ =~= Seq::<Proposal>::empty(),
            ledger.votes@ =~= Seq::<VoteEntry>::empty(),
    {
        GovernanceLedger {
            dao: crate::governance::initialize(
                authority,
                legal_name,
                registered_agent_address,
                principal_place_of_business,
                formation_date,
            ),
            proposals: Vec::new(),
            votes: Vec::new(),
        }
    }

    /// Creates a proposal and returns its id: the next value of the Dao's
    /// sequence. The new proposal starts `Active` with zero tallies; no vote
    /// is touched.
    pub fn create_proposal(
        &mut self,
        title: String,
        description: String,
        amount: u64,
        proposer: Pubkey,
        created_at: i64,
    ) -> (id: u64)
        requires
            old(self).wf(),
            old(self).proposals@.len() < u64::MAX,
            title@.len() <= MAX_NAME_LEN,
            description@.len() <= MAX_ADDRESS_LEN,
        ensures
            final(self).wf(),
            id == old(self).dao.proposal_count,
            final(self).dao.proposal_count == old(self).dao.proposal_count + 1,
            final(self).dao.authority == old(self).dao.authority,
            final(self).dao.member_count == old(self).dao.member_count,
            final(self).dao.legal_name == old(self).dao.legal_name,
            final(self).dao.registered_agent_address == old(self).dao.registered_agent_address,
            final(self).dao.principal_place_of_business
                == old(self).dao.principal_place_of_business,
            final(self).dao.formation_date == old(self).dao.formation_date,
            final(self).dao.jurisdiction == old(self).dao.jurisdiction,
            final(self).dao.entity_type == old(self).dao.entity_type,
            final(self).votes@ == old(self).votes@,
            final(self).proposals@ =~= old(self).proposals@.push(
                (Proposal {
                    id,
                    title,
                    description,
                    amount,
                    proposer,
                    votes_for: 0,
                    votes_against: 0,
                    status: ProposalStatus::Active,
                    created_at,
                }),
            ),
    {
        let id = self.dao.proposal_count;
        let proposal = crate::governance::create_proposal(
            &mut self.dao,
            title,
            description,
            amount,
            proposer,
            created_at,
        );
        self.proposals.push(proposal);
        proof {
            assert forall|i: int|
                0 <= i < self.votes@.len() implies (#[trigger] self.votes@[i]).proposal_id
                != id by {}
            lemma_vote_count_absent(self.votes@, id);
        }
        id
    }

    /// Whether a vote by `voter` on `proposal_id` has already been committed.
    pub fn has_vote_record(&self, proposal_id: u64, voter: Pubkey) -> (b: bool)
        ensures
            b == self.has_vote(proposal_id, voter),
    {
        let n = self.votes.len();
        let mut i: usize = 0;
        while i < n
            invariant
                n == self.votes@.len(),
                i <= n,
                forall|j: int|
                    0 <= j < i ==> !((#[trigger] self.votes@[j]).proposal_id == proposal_id
                        && self.votes@[j].record.voter == voter),
            decreases n - i,
        {
            let entry = &self.votes[i];
            if entry.proposal_id == proposal_id && entry.record.voter == voter {
                return true;
            }
            i = i + 1;
        }
        false
    }

    /// Casts one vote by `voter` on `proposal_id`, with insert-if-absent
    /// semantics on the (proposal, voter) key.
    ///
    /// Checked in order, first failure aborts with the whole state unchanged:
    /// a non-`Active` proposal refuses with `ProposalNotActive`; a previously
    /// committed vote by the same voter refuses with `AlreadyVoted`, whatever
    /// `support` is passed. On success exactly one tally of that proposal
    /// grows by one, one vote entry commits, and everything else — the Dao,
    /// every other proposal, every other vote — is untouched.
    pub fn cast_vote(&mut self, proposal_id: u64, voter: Pubkey, support: bool) -> (r: Result<
        (),
        ErrorCode,
    >)
        requires
            old(self).wf(),
            proposal_id < old(self).proposals@.len(),
            old(self).proposals@[proposal_id as int].status == ProposalStatus::Active && !old(
                self,
            ).has_vote(proposal_id, voter) ==> old(self).votes@.len() < u64::MAX,
        ensures
            final(self).wf(),
            ({
                let p = old(self).proposals@[proposal_id as int];
                if p.status != ProposalStatus::Active {
                    &&& r == Err::<(), ErrorCode>(ErrorCode::ProposalNotActive)
                    &&& *final(self) == *old(self)
                } else if old(self).has_vote(proposal_id, voter) {
                    &&& r == Err::<(), ErrorCode>(ErrorCode::AlreadyVoted)
                    &&& *final(self) == *old(self)
                } else {
                    &&& r == Ok::<(), ErrorCode>(())
                    &&& final(self).dao == old(self).dao
                    &&& final(self).votes@ =~= old(self).votes@.push(
                        (VoteEntry {
                            proposal_id,
                            record: VoteRecord { has_voted: true, support, voter },
                        }),
                    )
                    &&& final(self).has_vote(proposal_id, voter)
                    &&& final(self).proposals@ =~= old(self).proposals@.update(
                        proposal_id as int,
                        (if support {
                            Proposal { votes_for: (p.votes_for + 1) as u64, ..p }
                        } else {
                            Proposal { votes_against: (p.votes_against + 1) as u64, ..p }
                        }),
                    )
                }
            }),
    {
        let n = self.proposals.len();
        proof {
            assert(proposal_id < n);
        }
        let idx = proposal_id as usize;
        if !(self.proposals[idx].status == ProposalStatus::Active) {
            return Err(ErrorCode::ProposalNotActive);
        }
        if self.has_vote_record(proposal_id, voter) {
            return Err(ErrorCode::AlreadyVoted);
        }
        proof {
            lemma_vote_count_le_len(self.votes@, proposal_id);
            assert(old(self).proposals@[proposal_id as int].votes_for + old(
                self,
            ).proposals@[proposal_id as int].votes_against == vote_count(
                old(self).votes@,
                proposal_id,
            ));
        }
        let mut proposal = self.proposals.remove(idx);
        let mut record = VoteRecord { has_voted: false, support: false, voter };
        let r = crate::governance::vote(&mut proposal, &mut record, voter, support);
        self.proposals.insert(idx, proposal);
        self.votes.push(VoteEntry { proposal_id, record });
        proof {
            let pid = proposal_id as int;
            let old_props = old(self).proposals@;
            let p = old_props[pid];
            let q = if support {
                Proposal { votes_for: (p.votes_for + 1) as u64, ..p }
            } else {
                Proposal { votes_against: (p.votes_against + 1) as u64, ..p }
            };
            assert(self.proposals@ =~= old_props.update(pid, q));
            let e = VoteEntry {
                proposal_id,
                record: VoteRecord { has_voted: true, support, voter },
            };
            assert(self.votes@ =~= old(self).votes@.push(e));
            assert(self.votes@[old(self).votes@.len() as int] == e);
            assert forall|t: u64| true implies vote_count(self.votes@, t) == vote_count(
                old(self).votes@,
                t,
            ) + if e.proposal_id == t {
                1nat
            } else {
                0nat
            } by {
                lemma_vote_count_push(old(self).votes@, e, t);
                assert(old(self).votes@.push(e) =~= self.votes@);
            }
            assert forall|j: int|
                0 <= j < self.proposals@.len() implies (#[trigger] self.proposals@[j]).votes_for
                + self.proposals@[j].votes_against == vote_count(self.votes@, j as u64) by {
                if j != pid {
                    assert(self.proposals@[j] == old_props[j]);
                    assert(j as u64 != proposal_id);
                }
            }
        }
        r
    }
}

/// Proposal ids are handed out sequentially: in a well-formed ledger the
/// i-th proposal ever created carries id i, so over any sequence of
/// `create_proposal` calls the assigned ids are exactly 0, 1, 2, ... in call
/// order, with no gaps and no repeats.
pub proof fn lemma_proposal_ids_sequential(ledger: GovernanceLedger)
    requires
        ledger.wf(),
    ensures
        forall|i: int|
            0 <= i < ledger.proposals@.len() ==> (#[trigger] ledger.proposals@[i]).id == i,
        forall|i: int, j: int|
            0 <= i < ledger.proposals@.len() && 0 <= j < ledger.proposals@.len() && i != j ==> (
            #[trigger] ledger.proposals@[i]).id != (#[trigger] ledger.proposals@[j]).id,
{
}

/// A proposal's tally always equals the number of voters who successfully
/// voted on it: `votes_for + votes_against` equals the number of committed
/// vote entries referencing the proposal, and those entries carry pairwise
/// distinct voters, so each counted voter is distinct and counted once.
pub proof fn lemma_tally_counts_distinct_voters(ledger: GovernanceLedger, proposal_id: u64)
    requires
        ledger.wf(),
        proposal_id < ledger.proposals@.len(),
    ensures
        ledger.proposals@[proposal_id as int].votes_for + ledger.proposals@[proposal_id as int].votes_against
            == vote_count(ledger.votes@, proposal_id),
        forall|i: int, j: int|
            0 <= i < ledger.votes@.len() && 0 <= j < ledger.votes@.len() && i != j && (
            #[trigger] ledger.votes@[i]).proposal_id == proposal_id && (
            #[trigger] ledger.votes@[j]).proposal_id == proposal_id
                ==> ledger.votes@[i].record.voter != ledger.votes@[j].record.voter,
{
    assert(ledger.proposals@[proposal_id as int].votes_for
        + ledger.proposals@[proposal_id as int].votes_against == vote_count(
        ledger.votes@,
        (proposal_id as int) as u64,
    ));
}

} // verus!
