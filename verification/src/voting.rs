//! The voting contract: proposals that an approver reviews, and votes
//! weighed by the veNEAR that a snapshot of the veNEAR contract's Merkle
//! tree proves.
use vstd::prelude::*;
use std::collections::HashMap;
use vstd::hash_map::StringHashMap;
use crate::account::AccountId;
use crate::context::CallContext;
use crate::error::ContractError;
use crate::merkle::MerkleTreeSnapshot;
use crate::token::{near_add, near_sub, NearToken};
use crate::venear::VenearGrowthConfig;
use crate::wide::compare_products;

pub mod proposals;
pub mod votes;
pub mod approver;
pub mod governance;

verus! {

broadcast use vstd::std_specs::hash::group_hash_axioms;

/// The index of a proposal.
pub type ProposalId = u32;

/// The configuration of the voting contract.
#[derive(Clone, Debug)]
pub struct Config {
    /// The veNEAR contract, which gives the snapshots.
    pub venear_account_id: AccountId,
    /// The account that approves or rejects proposals.
    pub approver_id: AccountId,
    /// The account that can change the configuration.
    pub owner_account_id: AccountId,
    /// The duration of voting in nanoseconds.
    pub voting_duration_ns: u64,
    /// The most voting options a proposal can have.
    pub max_number_of_voting_options: u16,
    /// The fee for creating a proposal.
    pub proposal_fee: NearToken,
    /// The quorum, in percent of the snapshot's total veNEAR, of proposals
    /// that give none.
    pub default_quorum_percentage: u8,
    /// The storage fee for a vote; it can be refunded once the proposal is
    /// finalized.
    pub vote_storage_fee: NearToken,
    /// The accounts that can pause the contract, besides the owner.
    pub guardians: Vec<AccountId>,
}

/// Where a proposal is in its life.
#[derive(Clone, Copy, Debug, PartialEq, Eq, Structural)]
pub enum ProposalStatus {
    /// Waiting for the approver.
    Created,
    /// Rejected by the approver.
    Rejected,
    /// Approved, waiting for voting to start.
    Approved,
    /// Voting is open.
    Voting,
    /// Voting is over, the quorum was met, and the results are final.
    Finished,
    /// Voting is over and the votes did not reach the quorum.
    QuorumNotMet,
}

/// The snapshot that a proposal's votes are checked against.
#[derive(Clone, Debug)]
pub struct SnapshotAndState {
    /// The Merkle tree when the proposal was approved.
    pub snapshot: MerkleTreeSnapshot,
    /// The time, in nanoseconds, the balances are taken at.
    pub timestamp_ns: u64,
    /// The total veNEAR at that time.
    pub total_venear: NearToken,
    /// How veNEAR grows.
    pub venear_growth_config: VenearGrowthConfig,
}

/// The votes for one option, or for all of them.
#[derive(Clone, Copy, Debug, PartialEq, Eq, Structural)]
pub struct VoteStats {
    /// The veNEAR of the votes.
    pub total_venear: NearToken,
    /// The number of votes.
    pub total_votes: u32,
}

/// A proposal and its tallies.
#[derive(Clone, Debug)]
pub struct Proposal {
    pub id: ProposalId,
    pub creation_time_ns: u64,
    pub proposer_id: AccountId,
    /// The approver who approved the proposal.
    pub reviewer_id: Option<AccountId>,
    pub voting_start_time_ns: Option<u64>,
    pub voting_duration_ns: u64,
    pub rejected: bool,
    /// Set when the proposal is approved.
    pub snapshot_and_state: Option<SnapshotAndState>,
    /// The votes per option.
    pub votes: Vec<VoteStats>,
    /// The votes over all options.
    pub total_votes: VoteStats,
    pub status: ProposalStatus,
    /// The veNEAR that must vote, in percent of the snapshot's total, for
    /// the result to stand.
    pub quorum_percentage: u8,
}

/// A versioned proposal.
#[derive(Clone, Debug)]
pub enum VProposal {
    Current(Proposal),
}

/// What a proposal is about.
#[derive(Clone, Debug)]
pub struct ProposalMetadata {
    pub title: Option<String>,
    pub description: Option<String>,
    pub link: Option<String>,
    pub voting_options: Vec<String>,
    /// The quorum, in percent, when it differs from the default.
    pub quorum_percentage: Option<u8>,
}

/// Versioned proposal metadata.
#[derive(Clone, Debug)]
pub enum VProposalMetadata {
    Current(ProposalMetadata),
}

/// A proposal with its metadata.
#[derive(Clone, Debug)]
pub struct ProposalInfo {
    pub proposal: Proposal,
    pub metadata: ProposalMetadata,
}

impl Default for VoteStats {
    fn default() -> (res: VoteStats)
        ensures
            res.total_venear.0 == 0,
            res.total_votes == 0,
    {
        VoteStats { total_venear: NearToken(0), total_votes: 0 }
    }
}

impl VoteStats {
    /// The stats with one more vote of `venear`.
    pub open spec fn added(self, venear: NearToken) -> VoteStats {
        VoteStats {
            total_venear: NearToken((self.total_venear.0 + venear.0) as u128),
            total_votes: (self.total_votes + 1) as u32,
        }
    }

    /// The stats with one vote of `venear` less.
    pub open spec fn removed(self, venear: NearToken) -> VoteStats {
        VoteStats {
            total_venear: NearToken((self.total_venear.0 - venear.0) as u128),
            total_votes: (self.total_votes - 1) as u32,
        }
    }

    /// One more vote of `venear` fits.
    pub open spec fn can_add(self, venear: NearToken) -> bool {
        self.total_votes < u32::MAX && self.total_venear.0 + venear.0 <= u128::MAX
    }

    /// A vote of `venear` can be taken out.
    pub open spec fn can_remove(self, venear: NearToken) -> bool {
        self.total_votes >= 1 && venear.0 <= self.total_venear.0
    }

    /// Counts one more vote of `venear`.
    pub fn add_vote(&mut self, venear: NearToken)
        requires
            old(self).can_add(venear),
        ensures
            *final(self) == old(self).added(venear),
    {
        self.total_votes = self.total_votes + 1;
        self.total_venear = near_add(self.total_venear, venear);
    }

    /// Takes out one vote of `venear`.
    pub fn remove_vote(&mut self, venear: NearToken)
        requires
            old(self).can_remove(venear),
        ensures
            *final(self) == old(self).removed(venear),
    {
        self.total_votes = self.total_votes - 1;
        self.total_venear = near_sub(self.total_venear, venear);
    }
}

impl SnapshotAndState {
    /// A copy.
    pub fn duplicate(&self) -> (res: SnapshotAndState)
        ensures
            res == *self,
    {
        SnapshotAndState {
            snapshot: self.snapshot,
            timestamp_ns: self.timestamp_ns,
            total_venear: self.total_venear,
            venear_growth_config: self.venear_growth_config.duplicate(),
        }
    }
}

/// A copy of a list of vote stats.
pub fn copy_stats(v: &Vec<VoteStats>) -> (res: Vec<VoteStats>)
    ensures
        res@ == v@,
{
    let mut res: Vec<VoteStats> = Vec::new();
    let mut i: usize = 0;
    while i < v.len()
        invariant
            i <= v@.len(),
            res@ == v@.subrange(0, i as int),
        decreases v@.len() - i,
    {
        res.push(v[i]);
        i = i + 1;
        assert(res@ =~= v@.subrange(0, i as int));
    }
    assert(res@ =~= v@);
    res
}

/// A copy of a list of strings.
pub fn copy_strings(v: &Vec<String>) -> (res: Vec<String>)
    ensures
        res@ == v@,
{
    let mut res: Vec<String> = Vec::new();
    let mut i: usize = 0;
    while i < v.len()
        invariant
            i <= v@.len(),
            res@ == v@.subrange(0, i as int),
        decreases v@.len() - i,
    {
        res.push(v[i].clone());
        i = i + 1;
        assert(res@ =~= v@.subrange(0, i as int));
    }
    assert(res@ =~= v@);
    res
}

/// A copy of an optional string.
pub fn copy_opt_string(s: &Option<String>) -> (res: Option<String>)
    ensures
        res == *s,
{
    match s {
        Some(s) => Some(s.clone()),
        None => None,
    }
}

impl Proposal {
    /// The same proposal: equal fields and equal tallies.
    pub open spec fn same(self, other: Proposal) -> bool {
        &&& self.id == other.id
        &&& self.creation_time_ns == other.creation_time_ns
        &&& self.proposer_id == other.proposer_id
        &&& self.reviewer_id == other.reviewer_id
        &&& self.voting_start_time_ns == other.voting_start_time_ns
        &&& self.voting_duration_ns == other.voting_duration_ns
        &&& self.rejected == other.rejected
        &&& self.snapshot_and_state == other.snapshot_and_state
        &&& self.votes@ == other.votes@
        &&& self.total_votes == other.total_votes
        &&& self.status == other.status
        &&& self.quorum_percentage == other.quorum_percentage
    }

    /// A copy.
    pub fn duplicate(&self) -> (res: Proposal)
        ensures
            res.same(*self),
    {
        let res = Proposal {
            id: self.id,
            creation_time_ns: self.creation_time_ns,
            proposer_id: self.proposer_id.clone(),
            reviewer_id: copy_opt_string(&self.reviewer_id),
            voting_start_time_ns: self.voting_start_time_ns,
            voting_duration_ns: self.voting_duration_ns,
            rejected: self.rejected,
            snapshot_and_state: match &self.snapshot_and_state {
                Some(s) => Some(s.duplicate()),
                None => None,
            },
            votes: copy_stats(&self.votes),
            total_votes: self.total_votes,
            status: self.status,
            quorum_percentage: self.quorum_percentage,
        };
        assert(res.votes@ =~= self.votes@);
        res
    }

    /// A proposal past approval has a start time and a snapshot, and the
    /// per-option tallies add up to the overall tally.
    pub open spec fn wf(self) -> bool {
        &&& (self.status == ProposalStatus::Approved || self.status == ProposalStatus::Voting
            || self.status == ProposalStatus::Finished || self.status == ProposalStatus::QuorumNotMet)
            ==> (self.voting_start_time_ns is Some && self.snapshot_and_state is Some)
        &&& votes_count(self.votes@) == self.total_votes.total_votes
        &&& votes_venear(self.votes@) == self.total_votes.total_venear.0
    }

    /// The inputs on which `update` succeeds: an approved proposal has its
    /// snapshot, and the end of voting fits in a timestamp.
    pub open spec fn update_ok(self) -> bool {
        (self.status == ProposalStatus::Approved || self.status == ProposalStatus::Voting) ==> (
        self.voting_start_time_ns is Some && self.snapshot_and_state is Some
            && self.voting_start_time_ns.unwrap() + self.voting_duration_ns <= u64::MAX)
    }

    /// The veNEAR that voted reaches the quorum: at least `quorum_percentage`
    /// percent of the snapshot's total veNEAR.
    pub open spec fn quorum_met(self) -> bool {
        self.total_votes.total_venear.0 * 100 >= self.quorum_percentage
            * self.snapshot_and_state.unwrap().total_venear.0
    }

    /// The status at `timestamp`: an approved proposal is voting from its
    /// start time; from the end of voting it is finished when the votes met
    /// the quorum, and failed for want of quorum otherwise; other statuses
    /// stay.
    pub open spec fn spec_status_at(self, timestamp: u64) -> ProposalStatus {
        let start = self.voting_start_time_ns.unwrap();
        if self.status == ProposalStatus::Approved || self.status == ProposalStatus::Voting {
            if timestamp >= start + self.voting_duration_ns {
                if self.quorum_met() {
                    ProposalStatus::Finished
                } else {
                    ProposalStatus::QuorumNotMet
                }
            } else if timestamp >= start {
                ProposalStatus::Voting
            } else {
                self.status
            }
        } else {
            self.status
        }
    }

    /// The status shown at `timestamp`: moved forward when it can be.
    pub open spec fn shown_status(self, timestamp: u64) -> ProposalStatus {
        if self.update_ok() {
            self.spec_status_at(timestamp)
        } else {
            self.status
        }
    }

    /// Moves the status forward to `timestamp`.
    pub fn update(&mut self, timestamp: u64)
        requires
            old(self).update_ok(),
        ensures
            final(self).same(Proposal { status: old(self).spec_status_at(timestamp), ..*old(self) }),
            (old(self).status == ProposalStatus::Approved || old(self).status == ProposalStatus::Voting)
                && timestamp >= old(self).voting_start_time_ns.unwrap() + old(self).voting_duration_ns ==> (
                final(self).status == ProposalStatus::Finished <==> old(self).total_votes.total_venear.0 * 100
                    >= old(self).quorum_percentage * old(self).snapshot_and_state.unwrap().total_venear.0),
    {
        match self.status {
            ProposalStatus::Created | ProposalStatus::Rejected | ProposalStatus::Finished
            | ProposalStatus::QuorumNotMet => {
                return;
            },
            ProposalStatus::Approved | ProposalStatus::Voting => {
                let start = self.voting_start_time_ns.unwrap();
                if timestamp >= start + self.voting_duration_ns {
                    let total = match &self.snapshot_and_state {
                        Some(s) => s.total_venear.0,
                        None => 0,
                    };
                    let c = compare_products(
                        self.total_votes.total_venear.0,
                        100,
                        self.quorum_percentage as u128,
                        total,
                    );
                    if c >= 0 {
                        self.status = ProposalStatus::Finished;
                    } else {
                        self.status = ProposalStatus::QuorumNotMet;
                    }
                } else if timestamp >= start {
                    self.status = ProposalStatus::Voting;
                }
            },
        }
    }

    /// Whether `update` can be called.
    pub fn can_update(&self) -> (res: bool)
        ensures
            res == self.update_ok(),
    {
        match self.status {
            ProposalStatus::Approved | ProposalStatus::Voting => match self.voting_start_time_ns {
                Some(start) => start <= u64::MAX - self.voting_duration_ns && self.snapshot_and_state.is_some(),
                None => false,
            },
            _ => true,
        }
    }
}

impl From<Proposal> for VProposal {
    fn from(current: Proposal) -> (res: Self) {
        VProposal::Current(current)
    }
}

impl vstd::std_specs::convert::FromSpecImpl<Proposal> for VProposal {
    open spec fn obeys_from_spec() -> bool {
        true
    }

    open spec fn from_spec(current: Proposal) -> VProposal {
        VProposal::Current(current)
    }
}

impl From<VProposal> for Proposal {
    fn from(value: VProposal) -> (res: Self) {
        match value {
            VProposal::Current(current) => current,
        }
    }
}

impl vstd::std_specs::convert::FromSpecImpl<VProposal> for Proposal {
    open spec fn obeys_from_spec() -> bool {
        true
    }

    open spec fn from_spec(value: VProposal) -> Proposal {
        match value {
            VProposal::Current(current) => current,
        }
    }
}

impl VProposal {
    /// The proposal inside.
    pub open spec fn proposal(self) -> Proposal {
        match self {
            VProposal::Current(p) => p,
        }
    }
}

impl ProposalMetadata {
    /// The same metadata: equal fields and equal options.
    pub open spec fn same(self, other: ProposalMetadata) -> bool {
        &&& self.title == other.title
        &&& self.description == other.description
        &&& self.link == other.link
        &&& self.voting_options@ == other.voting_options@
        &&& self.quorum_percentage == other.quorum_percentage
    }

    /// A copy.
    pub fn duplicate(&self) -> (res: ProposalMetadata)
        ensures
            res.same(*self),
    {
        let res = ProposalMetadata {
            title: copy_opt_string(&self.title),
            description: copy_opt_string(&self.description),
            link: copy_opt_string(&self.link),
            voting_options: copy_strings(&self.voting_options),
            quorum_percentage: self.quorum_percentage,
        };
        assert(res.voting_options@ =~= self.voting_options@);
        res
    }
}

impl From<ProposalMetadata> for VProposalMetadata {
    fn from(current: ProposalMetadata) -> (res: Self) {
        VProposalMetadata::Current(current)
    }
}

impl vstd::std_specs::convert::FromSpecImpl<ProposalMetadata> for VProposalMetadata {
    open spec fn obeys_from_spec() -> bool {
        true
    }

    open spec fn from_spec(current: ProposalMetadata) -> VProposalMetadata {
        VProposalMetadata::Current(current)
    }
}

impl From<VProposalMetadata> for ProposalMetadata {
    fn from(value: VProposalMetadata) -> (res: Self) {
        match value {
            VProposalMetadata::Current(current) => current,
        }
    }
}

impl vstd::std_specs::convert::FromSpecImpl<VProposalMetadata> for ProposalMetadata {
    open spec fn obeys_from_spec() -> bool {
        true
    }

    open spec fn from_spec(value: VProposalMetadata) -> ProposalMetadata {
        match value {
            VProposalMetadata::Current(current) => current,
        }
    }
}

impl VProposalMetadata {
    /// The metadata inside.
    pub open spec fn metadata(self) -> ProposalMetadata {
        match self {
            VProposalMetadata::Current(m) => m,
        }
    }
}

/// The number of votes over all options.
pub open spec fn votes_count(s: Seq<VoteStats>) -> int
    decreases s.len(),
{
    if s.len() == 0 {
        0
    } else {
        votes_count(s.drop_last()) + s.last().total_votes
    }
}

/// The veNEAR of the votes over all options.
pub open spec fn votes_venear(s: Seq<VoteStats>) -> int
    decreases s.len(),
{
    if s.len() == 0 {
        0
    } else {
        votes_venear(s.drop_last()) + s.last().total_venear.0
    }
}

/// Replacing the tally of one option replaces it in the sums.
pub proof fn lemma_tally_update(s: Seq<VoteStats>, i: int, v: VoteStats)
    requires
        0 <= i < s.len(),
    ensures
        votes_count(s.update(i, v)) == votes_count(s) - s[i].total_votes + v.total_votes,
        votes_venear(s.update(i, v)) == votes_venear(s) - s[i].total_venear.0 + v.total_venear.0,
    decreases s.len(),
{
    if i == s.len() - 1 {
        assert(s.update(i, v).drop_last() =~= s.drop_last());
    } else {
        lemma_tally_update(s.drop_last(), i, v);
        assert(s.update(i, v).drop_last() =~= s.drop_last().update(i, v));
    }
}

/// Options with no votes add up to no votes.
pub proof fn lemma_tally_zero(n: nat)
    ensures
        votes_count(Seq::new(n, |i: int| VoteStats { total_venear: NearToken(0), total_votes: 0 })) == 0,
        votes_venear(Seq::new(n, |i: int| VoteStats { total_venear: NearToken(0), total_votes: 0 })) == 0,
    decreases n,
{
    if n > 0 {
        lemma_tally_zero((n - 1) as nat);
        assert(Seq::new(n, |i: int| VoteStats { total_venear: NearToken(0), total_votes: 0 }).drop_last() =~= Seq::new(
            (n - 1) as nat,
            |i: int| VoteStats { total_venear: NearToken(0), total_votes: 0 },
        ));
    }
}

/// The key under which a voter's vote on a proposal is kept.
pub open spec fn vote_key(voter: u32, proposal_id: u32) -> u64 {
    (voter * 4294967296 + proposal_id) as u64
}

/// Different voters or proposals have different keys.
pub proof fn lemma_vote_key(a: u32, x: u32, b: u32, y: u32)
    ensures
        vote_key(a, x) == a * 4294967296 + x,
        vote_key(a, x) < (a + 1) * 4294967296,
        vote_key(a, x) == vote_key(b, y) <==> (a == b && x == y),
{
    assert(a * 4294967296 + x < (a + 1) * 4294967296) by (nonlinear_arith);
    assert((a + 1) * 4294967296 <= 4294967296 * 4294967296) by (nonlinear_arith)
        requires a < 4294967296;
    if a < b {
        assert((a + 1) * 4294967296 <= b * 4294967296) by (nonlinear_arith)
            requires a + 1 <= b;
    } else if b < a {
        assert((b + 1) * 4294967296 <= a * 4294967296) by (nonlinear_arith)
            requires b + 1 <= a;
        assert(b * 4294967296 + y < (b + 1) * 4294967296) by (nonlinear_arith);
    }
}

/// The state of the voting contract.
pub struct Contract {
    pub config: Config,
    pub proposals: Vec<VProposal>,
    pub proposal_metadata: Vec<VProposalMetadata>,
    /// The index of each account that has voted.
    pub voters: StringHashMap<u32>,
    /// The number of accounts that have voted.
    pub num_voters: u32,
    /// The option each voter chose on each proposal, by `vote_key`.
    pub votes: HashMap<u64, u8>,
    /// The approved proposals, in the order of approval.
    pub approved_proposals: Vec<ProposalId>,
    /// A paused contract takes no proposals, reviews or votes.
    pub paused: bool,
}

impl Contract {
    /// The proposal with index `i`.
    pub open spec fn proposal(self, i: int) -> Proposal {
        self.proposals@[i].proposal()
    }

    /// The number of proposals.
    pub open spec fn num_proposals(self) -> int {
        self.proposals@.len() as int
    }

    /// The option that `account` chose on proposal `id`.
    pub open spec fn vote_of(self, account: Seq<char>, id: u32) -> Option<u8> {
        if self.voters@.contains_key(account) && self.votes@.contains_key(vote_key(self.voters@[account], id)) {
            Some(self.votes@[vote_key(self.voters@[account], id)])
        } else {
            None
        }
    }

    /// The accounts that have voted on proposal `id`.
    pub open spec fn voters_of(self, id: u32) -> Set<Seq<char>> {
        self.voters@.dom().filter(|a: Seq<char>| self.vote_of(a, id) is Some)
    }

    /// The contract's internal consistency.
    pub open spec fn wf(self) -> bool {
        &&& self.proposals@.len() == self.proposal_metadata@.len()
        &&& self.proposals@.len() <= u32::MAX
        &&& forall|i: int| 0 <= i < self.proposals@.len() ==> (#[trigger] self.proposal(i)).id == i
            && self.proposal(i).wf()
        &&& forall|a: Seq<char>| #[trigger] self.voters@.contains_key(a) ==> self.voters@[a] < self.num_voters
        &&& forall|a: Seq<char>, b: Seq<char>|
            #![trigger self.voters@[a], self.voters@[b]]
            self.voters@.contains_key(a) && self.voters@.contains_key(b) && self.voters@[a] == self.voters@[b]
                ==> a == b
        &&& forall|j: int| 0 <= j < self.approved_proposals@.len() ==> #[trigger] self.approved_proposals@[j]
            < self.proposals@.len()
        &&& self.approved_proposals@.len() <= u32::MAX
        &&& forall|k: u64| #[trigger] self.votes@.contains_key(k) ==> k < self.num_voters * 4294967296
        &&& forall|a: Seq<char>, id: u32|
            #[trigger] self.vote_of(a, id) is Some ==> id < self.proposals@.len()
                && self.vote_of(a, id).unwrap() < self.proposal(id as int).votes@.len()
        &&& self.voters@.dom().finite()
        &&& forall|i: int|
            #![trigger self.proposal(i)]
            0 <= i < self.proposals@.len() ==> self.proposal(i).total_votes.total_votes == self.voters_of(i as u32).len()
    }

    /// A contract with no proposals.
    pub fn new(config: Config) -> (res: Contract)
        ensures
            res.wf(),
            res.config == config,
            res.num_proposals() == 0,
            res.num_voters == 0,
            res.approved_proposals@.len() == 0,
            !res.paused,
            forall|a: Seq<char>, id: u32| #[trigger] res.vote_of(a, id) is None,
    {
        Contract {
            config,
            proposals: Vec::new(),
            proposal_metadata: Vec::new(),
            voters: StringHashMap::new(),
            num_voters: 0,
            votes: HashMap::new(),
            approved_proposals: Vec::new(),
            paused: false,
        }
    }

    /// `info` shows proposal `i`, with its status at `ts`, and its metadata.
    pub open spec fn is_info(self, info: ProposalInfo, i: int, ts: u64) -> bool {
        &&& info.proposal.same(Proposal { status: self.proposal(i).shown_status(ts), ..self.proposal(i) })
        &&& info.metadata.same(self.proposal_metadata@[i].metadata())
    }

    /// The proposal with index `proposal_id`, if there is one.
    pub fn internal_get_proposal(&self, proposal_id: ProposalId) -> (res: Option<Proposal>)
        ensures
            proposal_id < self.num_proposals() ==> (res matches Some(p) && p.same(self.proposal(proposal_id as int))),
            proposal_id >= self.num_proposals() ==> res is None,
    {
        if (proposal_id as usize) < self.proposals.len() {
            match &self.proposals[proposal_id as usize] {
                VProposal::Current(p) => Some(p.duplicate()),
            }
        } else {
            None
        }
    }

    /// The proposal with its status moved forward to `timestamp`.
    pub fn internal_expect_proposal_updated(&self, proposal_id: ProposalId, timestamp: u64) -> (res: Result<Proposal, ContractError>)
        ensures
            proposal_id >= self.num_proposals() ==> res == Err::<Proposal, ContractError>(ContractError::ProposalNotFound),
            proposal_id < self.num_proposals() && !self.proposal(proposal_id as int).update_ok()
                ==> res == Err::<Proposal, ContractError>(ContractError::BalanceOutOfRange),
            proposal_id < self.num_proposals() && self.proposal(proposal_id as int).update_ok()
                ==> (res matches Ok(p) && p.same(Proposal {
                    status: self.proposal(proposal_id as int).spec_status_at(timestamp),
                    ..self.proposal(proposal_id as int)
                })),
    {
        let mut proposal = match self.internal_get_proposal(proposal_id) {
            Some(p) => p,
            None => return Err(ContractError::ProposalNotFound),
        };
        let ok = proposal.can_update();
        if !ok {
            return Err(ContractError::BalanceOutOfRange);
        }
        proposal.update(timestamp);
        Ok(proposal)
    }

    /// Stores a proposal at its index.
    pub fn internal_set_proposal(&mut self, proposal: Proposal)
        requires
            proposal.id < old(self).num_proposals(),
        ensures
            final(self).proposals@ == old(self).proposals@.update(proposal.id as int, VProposal::Current(proposal)),
            final(self).config == old(self).config,
            final(self).proposal_metadata@ == old(self).proposal_metadata@,
            final(self).voters@ == old(self).voters@,
            final(self).num_voters == old(self).num_voters,
            final(self).votes@ == old(self).votes@,
            final(self).approved_proposals@ == old(self).approved_proposals@,
            final(self).paused == old(self).paused,
    {
        let id = proposal.id;
        self.proposals.set(id as usize, VProposal::from(proposal));
    }

    /// The proposal, with its status at `block_timestamp`, and its metadata,
    /// if there is such a proposal.
    pub fn get_proposal(&self, proposal_id: ProposalId, block_timestamp: u64) -> (res: Option<ProposalInfo>)
        requires
            self.wf(),
        ensures
            proposal_id >= self.num_proposals() ==> res is None,
            proposal_id < self.num_proposals() ==> (res matches Some(info) && self.is_info(
                info,
                proposal_id as int,
                block_timestamp,
            )),
    {
        let mut proposal = match self.internal_get_proposal(proposal_id) {
            Some(p) => p,
            None => return None,
        };
        let ok = proposal.can_update();
        if ok {
            proposal.update(block_timestamp);
        }
        let metadata = match &self.proposal_metadata[proposal_id as usize] {
            VProposalMetadata::Current(m) => m.duplicate(),
        };
        Some(ProposalInfo { proposal, metadata })
    }

    /// The number of proposals.
    pub fn get_num_proposals(&self) -> (res: u32)
        requires
            self.wf(),
        ensures
            res == self.num_proposals(),
    {
        self.proposals.len() as u32
    }

    /// The number of approved proposals.
    pub fn get_num_approved_proposals(&self) -> (res: u32)
        requires
            self.wf(),
        ensures
            res == self.approved_proposals@.len(),
    {
        self.approved_proposals.len() as u32
    }

    /// The proposals from index `from_index`, at most `limit` of them (all
    /// when `limit` is `None`).
    pub fn get_proposals(&self, from_index: u32, limit: Option<u32>, block_timestamp: u64) -> (res: Vec<ProposalInfo>)
        requires
            self.wf(),
        ensures
            ({
                let to = min_int(from_index + limit.unwrap_or(u32::MAX), self.num_proposals());
                &&& res@.len() == if to > from_index { to - from_index } else { 0 }
                &&& forall|k: int| 0 <= k < res@.len() ==> self.is_info(#[trigger] res@[k], from_index + k, block_timestamp)
            }),
    {
        let limit = match limit {
            Some(l) => l,
            None => u32::MAX,
        };
        let n = self.get_num_proposals();
        let to_index = if from_index > u32::MAX - limit || from_index + limit > n {
            n
        } else {
            from_index + limit
        };
        let mut res: Vec<ProposalInfo> = Vec::new();
        let mut i = from_index;
        while i < to_index
            invariant
                self.wf(),
                n == self.num_proposals(),
                to_index <= n,
                from_index <= i,
                i <= to_index || i == from_index,
                res@.len() == i - from_index,
                forall|k: int| 0 <= k < res@.len() ==> self.is_info(#[trigger] res@[k], from_index + k, block_timestamp),
            decreases to_index - i,
        {
            let info = self.get_proposal(i, block_timestamp).unwrap();
            res.push(info);
            i = i + 1;
        }
        res
    }

    /// The approved proposals from position `from_index` of the approval
    /// order, at most `limit` of them (all when `limit` is `None`).
    pub fn get_approved_proposals(&self, from_index: u32, limit: Option<u32>, block_timestamp: u64) -> (res: Vec<ProposalInfo>)
        requires
            self.wf(),
        ensures
            ({
                let to = min_int(from_index + limit.unwrap_or(u32::MAX), self.approved_proposals@.len() as int);
                &&& res@.len() == if to > from_index { to - from_index } else { 0 }
                &&& forall|k: int| 0 <= k < res@.len() ==> self.is_info(
                    #[trigger] res@[k],
                    self.approved_proposals@[from_index + k] as int,
                    block_timestamp,
                )
            }),
    {
        let limit = match limit {
            Some(l) => l,
            None => u32::MAX,
        };
        let n = self.get_num_approved_proposals();
        let to_index = if from_index > u32::MAX - limit || from_index + limit > n {
            n
        } else {
            from_index + limit
        };
        let mut res: Vec<ProposalInfo> = Vec::new();
        let mut i = from_index;
        while i < to_index
            invariant
                self.wf(),
                n == self.approved_proposals@.len(),
                to_index <= n,
                from_index <= i,
                i <= to_index || i == from_index,
                res@.len() == i - from_index,
                forall|k: int| 0 <= k < res@.len() ==> self.is_info(
                    #[trigger] res@[k],
                    self.approved_proposals@[from_index + k] as int,
                    block_timestamp,
                ),
            decreases to_index - i,
        {
            let id = self.approved_proposals[i as usize];
            let info = self.get_proposal(id, block_timestamp).unwrap();
            res.push(info);
            i = i + 1;
        }
        res
    }
}

/// The smaller of two integers.
pub open spec fn min_int(a: int, b: int) -> int {
    if a <= b { a } else { b }
}

/// Adding a vote and then removing it leaves the tally as it was.
pub proof fn lemma_add_remove_vote(s: VoteStats, venear: NearToken)
    requires
        s.can_add(venear),
    ensures
        s.added(venear).can_remove(venear),
        s.added(venear).removed(venear) == s,
{
}

/// How far a status is along a proposal's life: created, then rejected or
/// approved, then voting, then finished or failed for want of quorum.
pub open spec fn status_rank(s: ProposalStatus) -> int {
    match s {
        ProposalStatus::Created => 0,
        ProposalStatus::Rejected => 1,
        ProposalStatus::Approved => 1,
        ProposalStatus::Voting => 2,
        ProposalStatus::Finished => 3,
        ProposalStatus::QuorumNotMet => 3,
    }
}

/// A proposal's status only moves forward in time: it never goes back
/// along its life, moving it to `t1` and then to a later `t2` is moving it
/// to `t2` (so moving it twice to the same time is moving it once), and a
/// rejected, finished or failed proposal stays so.
pub proof fn lemma_status_monotone(p: Proposal, t1: u64, t2: u64)
    requires
        t1 <= t2,
        p.update_ok(),
    ensures
        status_rank(p.status) <= status_rank(p.spec_status_at(t1)),
        status_rank(p.spec_status_at(t1)) <= status_rank(p.spec_status_at(t2)),
        (Proposal { status: p.spec_status_at(t1), ..p }).update_ok(),
        (Proposal { status: p.spec_status_at(t1), ..p }).spec_status_at(t2) == p.spec_status_at(t2),
        p.status == ProposalStatus::Rejected ==> p.spec_status_at(t2) == ProposalStatus::Rejected,
        p.status == ProposalStatus::Finished ==> p.spec_status_at(t2) == ProposalStatus::Finished,
        p.status == ProposalStatus::QuorumNotMet ==> p.spec_status_at(t2) == ProposalStatus::QuorumNotMet,
{
}

/// Votes that are the same for every account give the same voters.
pub proof fn lemma_same_voters(c0: Contract, c1: Contract, id: u32)
    requires
        forall|a: Seq<char>| #[trigger] c1.vote_of(a, id) == c0.vote_of(a, id),
    ensures
        c1.voters_of(id) == c0.voters_of(id),
{
    assert(c1.voters_of(id) =~= c0.voters_of(id));
}

/// A vote by `acc` on proposal `id`, which leaves every other vote as it
/// was, adds `acc` to the proposal's voters, counted once, and changes no
/// other proposal's voters.
pub proof fn lemma_voters_after_vote(c0: Contract, c1: Contract, acc: Seq<char>, id: u32)
    requires
        c0.voters@.dom().finite(),
        c1.vote_of(acc, id) is Some,
        forall|a: Seq<char>, i: u32| (a != acc || i != id) ==> #[trigger] c1.vote_of(a, i) == c0.vote_of(a, i),
    ensures
        c1.voters_of(id) == c0.voters_of(id).insert(acc),
        forall|i: u32| i != id ==> #[trigger] c1.voters_of(i) == c0.voters_of(i),
        c0.vote_of(acc, id) is None ==> c1.voters_of(id).len() == c0.voters_of(id).len() + 1,
        c0.vote_of(acc, id) is Some ==> c1.voters_of(id).len() == c0.voters_of(id).len(),
{
    assert(c1.voters_of(id) =~= c0.voters_of(id).insert(acc));
    assert forall|i: u32| i != id implies #[trigger] c1.voters_of(i) == c0.voters_of(i) by {
        assert(c1.voters_of(i) =~= c0.voters_of(i));
    }
    c0.voters@.dom().lemma_len_filter(|a: Seq<char>| c0.vote_of(a, id) is Some);
    if c0.vote_of(acc, id) is Some {
        assert(c0.voters_of(id).insert(acc) =~= c0.voters_of(id));
    }
}

/// A proposal's vote count is the number of accounts that have voted on
/// it; every call keeps it so, as each keeps `wf`.
pub proof fn lemma_vote_count_is_voters(c: Contract, i: int)
    requires
        c.wf(),
        0 <= i < c.num_proposals(),
    ensures
        c.proposal(i).total_votes.total_votes == c.voters_of(i as u32).len(),
        c.voters_of(i as u32) == Set::new(|a: Seq<char>| c.vote_of(a, i as u32) is Some),
{
    assert(c.voters_of(i as u32) =~= Set::new(|a: Seq<char>| c.vote_of(a, i as u32) is Some));
}

/// In every proposal the per-option tallies add up to the overall tally,
/// both the number of votes and their veNEAR; every call keeps it so, as
/// each keeps `wf`.
pub proof fn lemma_tallies_add_up(c: Contract, i: int)
    requires
        c.wf(),
        0 <= i < c.num_proposals(),
    ensures
        votes_count(c.proposal(i).votes@) == c.proposal(i).total_votes.total_votes,
        votes_venear(c.proposal(i).votes@) == c.proposal(i).total_votes.total_venear.0,
{
    assert(c.proposal(i).wf());
}

/// After the voting period, an approved or voting proposal is finished
/// exactly when the veNEAR voted over all its options, times 100, reaches
/// its quorum percentage of the snapshot's total veNEAR, and has failed for
/// want of quorum otherwise.
pub proof fn lemma_quorum_decides(p: Proposal, ts: u64)
    requires
        p.wf(),
        p.update_ok(),
        p.status == ProposalStatus::Approved || p.status == ProposalStatus::Voting,
        ts >= p.voting_start_time_ns.unwrap() + p.voting_duration_ns,
    ensures
        p.spec_status_at(ts) == ProposalStatus::Finished || p.spec_status_at(ts) == ProposalStatus::QuorumNotMet,
        p.spec_status_at(ts) == ProposalStatus::Finished <==> p.total_votes.total_venear.0 * 100
            >= p.quorum_percentage * p.snapshot_and_state.unwrap().total_venear.0,
        p.spec_status_at(ts) == ProposalStatus::Finished <==> votes_venear(p.votes@) * 100
            >= p.quorum_percentage * p.snapshot_and_state.unwrap().total_venear.0,
{
}

/// How the votes are split between a proposal's options never changes its
/// status: only the votes over all options count.
pub proof fn lemma_status_ignores_split(p: Proposal, q: Proposal, ts: u64)
    requires
        q == (Proposal { votes: q.votes, ..p }),
    ensures
        q.spec_status_at(ts) == p.spec_status_at(ts),
        q.shown_status(ts) == p.shown_status(ts),
{
}

} // verus!
