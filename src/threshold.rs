//! Upgrade proposals, votes on them, and the threshold that switches the
//! network to signed-only messages once enough peers approve.
use vstd::prelude::*;
use crate::crypto::{unix_time_now, CryptoManager};
use crate::error::CryptoError;
use crate::strmap::StrMap;
use crate::text::{concat3, decimal, decimal_string};

verus! {

/// A proposal to enable secure-only messaging.
#[derive(Debug)]
pub struct UpgradeProposal {
    pub proposal_id: String,
    pub proposer_id: String,
    pub proposer_name: String,
    pub timestamp: u64,
    pub description: String,
    /// Required number of approvals (M in M-of-N).
    pub required_approvals: usize,
    /// Number of peers in the network (N in M-of-N).
    pub total_peers: usize,
}

impl Clone for UpgradeProposal {
    fn clone(&self) -> (r: Self)
        ensures
            r == *self,
    {
        UpgradeProposal {
            proposal_id: self.proposal_id.clone(),
            proposer_id: self.proposer_id.clone(),
            proposer_name: self.proposer_name.clone(),
            timestamp: self.timestamp,
            description: self.description.clone(),
            required_approvals: self.required_approvals,
            total_peers: self.total_peers,
        }
    }
}

/// A peer's vote on an upgrade proposal.
#[derive(Debug)]
pub struct UpgradeVote {
    pub proposal_id: String,
    pub voter_id: String,
    pub voter_name: String,
    pub approved: bool,
    pub timestamp: u64,
    /// Signature of an approval; rejections carry none.
    pub signature: Option<Vec<u8>>,
}

/// The bytes of an optional byte vector.
pub open spec fn opt_bytes(b: Option<Vec<u8>>) -> Option<Seq<u8>> {
    match b {
        Some(v) => Some(v@),
        None => None,
    }
}

/// Two votes with the same contents.
pub open spec fn same_vote(a: UpgradeVote, b: UpgradeVote) -> bool {
    &&& a.proposal_id == b.proposal_id
    &&& a.voter_id == b.voter_id
    &&& a.voter_name == b.voter_name
    &&& a.approved == b.approved
    &&& a.timestamp == b.timestamp
    &&& opt_bytes(a.signature) == opt_bytes(b.signature)
}

impl Clone for UpgradeVote {
    fn clone(&self) -> (r: Self)
        ensures
            same_vote(r, *self),
    {
        let signature = match &self.signature {
            Some(s) => Some(s.clone()),
            None => None,
        };
        UpgradeVote {
            proposal_id: self.proposal_id.clone(),
            voter_id: self.voter_id.clone(),
            voter_name: self.voter_name.clone(),
            approved: self.approved,
            timestamp: self.timestamp,
            signature,
        }
    }
}

/// A partial signature towards a threshold approval (reserved).
#[derive(Debug)]
pub struct PartialSignature {
    pub proposal_id: String,
    pub signer_id: String,
    pub signer_name: String,
    pub signature: Vec<u8>,
    pub public_key: Vec<u8>,
    pub timestamp: u64,
}

/// The state of a proposal.
#[derive(Debug, Clone, Copy, PartialEq, Eq, Structural)]
pub enum ProposalState {
    Open,
    Approved,
    Rejected,
}

/// The number of approving votes.
pub open spec fn approvals(votes: Seq<UpgradeVote>) -> nat
    decreases votes.len(),
{
    if votes.len() == 0 {
        0
    } else {
        approvals(votes.drop_last()) + if votes.last().approved {
            1nat
        } else {
            0nat
        }
    }
}

/// The number of rejecting votes.
pub open spec fn rejections(votes: Seq<UpgradeVote>) -> nat
    decreases votes.len(),
{
    if votes.len() == 0 {
        0
    } else {
        rejections(votes.drop_last()) + if votes.last().approved {
            0nat
        } else {
            1nat
        }
    }
}

/// Whether `voter` has a vote among `votes`.
pub open spec fn has_voted(votes: Seq<UpgradeVote>, voter: Seq<char>) -> bool {
    exists|i: int| 0 <= i < votes.len() && (#[trigger] votes[i]).voter_id@ == voter
}

/// No voter appears twice.
pub open spec fn one_vote_each(votes: Seq<UpgradeVote>) -> bool {
    forall|i: int, j: int|
        0 <= i < j < votes.len() ==> (#[trigger] votes[i]).voter_id@ != (#[trigger] votes[j]).voter_id@
}

/// The engine's tables as mathematical maps keyed by proposal id.
pub struct EngineView {
    pub proposals: Map<Seq<char>, UpgradeProposal>,
    pub votes: Map<Seq<char>, Seq<UpgradeVote>>,
    pub states: Map<Seq<char>, ProposalState>,
    pub secure_only: bool,
}

/// The votes recorded for `pid`, none if there is no entry.
pub open spec fn votes_of(e: EngineView, pid: Seq<char>) -> Seq<UpgradeVote> {
    if e.votes.contains_key(pid) {
        e.votes[pid]
    } else {
        Seq::empty()
    }
}

/// What holds of the engine in every state it reaches.
pub open spec fn engine_inv(e: EngineView) -> bool {
    &&& e.states.dom() == e.proposals.dom()
    &&& forall|p: Seq<char>| #[trigger]
        e.proposals.contains_key(p) ==> e.votes.contains_key(p) && e.proposals[p].proposal_id@ == p
            && e.states[p] != ProposalState::Rejected
    &&& forall|p: Seq<char>| #[trigger] e.votes.contains_key(p) ==> one_vote_each(e.votes[p])
    &&& forall|p: Seq<char>| #[trigger]
        e.proposals.contains_key(p) && e.states[p] == ProposalState::Approved ==> approvals(e.votes[p])
            >= e.proposals[p].required_approvals && e.secure_only
    &&& forall|p: Seq<char>| #[trigger]
        e.proposals.contains_key(p) && e.proposals[p].required_approvals >= 1 && approvals(
            e.votes[p],
        ) >= e.proposals[p].required_approvals ==> e.states[p] == ProposalState::Approved
}

/// The engine after the threshold check on `pid`: enough approvals mark the
/// proposal approved and latch secure-only mode.
pub open spec fn after_threshold(e: EngineView, pid: Seq<char>) -> EngineView {
    if e.proposals.contains_key(pid) && e.votes.contains_key(pid) && approvals(e.votes[pid])
        >= e.proposals[pid].required_approvals {
        EngineView {
            states: e.states.insert(pid, ProposalState::Approved),
            secure_only: true,
            ..e
        }
    } else {
        e
    }
}

/// The engine after appending `v` to its proposal's votes and checking the threshold.
pub open spec fn with_vote(e: EngineView, v: UpgradeVote) -> EngineView {
    let pid = v.proposal_id@;
    after_threshold(EngineView { votes: e.votes.insert(pid, votes_of(e, pid).push(v)), ..e }, pid)
}

/// The engine with `p` stored as a fresh open proposal without votes.
pub open spec fn with_proposal(e: EngineView, p: UpgradeProposal) -> EngineView {
    EngineView {
        proposals: e.proposals.insert(p.proposal_id@, p),
        votes: e.votes.insert(p.proposal_id@, Seq::empty()),
        states: e.states.insert(p.proposal_id@, ProposalState::Open),
        ..e
    }
}

/// Why a vote on `pid` by `voter` is refused, if it is.
pub enum VoteRefusal {
    NoState,
    NotOpen,
    AlreadyVoted,
}

/// The refusal, if any, of a local vote on `pid` by `voter`.
pub open spec fn vote_refusal(e: EngineView, pid: Seq<char>, voter: Seq<char>) -> Option<
    VoteRefusal,
> {
    if !e.states.contains_key(pid) {
        Some(VoteRefusal::NoState)
    } else if e.states[pid] != ProposalState::Open {
        Some(VoteRefusal::NotOpen)
    } else if has_voted(votes_of(e, pid), voter) {
        Some(VoteRefusal::AlreadyVoted)
    } else {
        None
    }
}

/// The message of the error for a refusal.
pub open spec fn refusal_text(f: VoteRefusal) -> Seq<char> {
    match f {
        VoteRefusal::NoState => "Proposal state not found"@,
        VoteRefusal::NotOpen => "Proposal is not open for voting"@,
        VoteRefusal::AlreadyVoted => "Peer has already voted on this proposal"@,
    }
}

/// The message of the error when the clock is before the Unix epoch.
pub open spec fn clock_error_text() -> Seq<char> {
    "system clock is before the Unix epoch"@
}

/// The error for a clock before the Unix epoch.
pub fn clock_error() -> (r: CryptoError)
    ensures
        r matches CryptoError::Unknown(s) && s@ == clock_error_text(),
{
    CryptoError::Unknown(String::from_str("system clock is before the Unix epoch"))
}

/// The text that an approving vote signs: proposal id, voter id, `true` and
/// the timestamp, separated by colons.
pub open spec fn approval_text(pid: Seq<char>, voter: Seq<char>, timestamp: u64) -> Seq<char> {
    pid + seq![':'] + voter + ":true:"@ + decimal(timestamp as nat)
}

/// Appending a vote by a new voter and checking the threshold keeps the
/// engine invariant.
proof fn lemma_with_vote_keeps_inv(e: EngineView, v: UpgradeVote)
    requires
        engine_inv(e),
        !has_voted(votes_of(e, v.proposal_id@), v.voter_id@),
    ensures
        engine_inv(with_vote(e, v)),
{
    let pid = v.proposal_id@;
    let prior = votes_of(e, pid);
    let s = prior.push(v);
    let mid = EngineView { votes: e.votes.insert(pid, s), ..e };
    let n = with_vote(e, v);
    assert(s.drop_last() =~= prior);
    assert(approvals(s) >= approvals(prior));
    assert(one_vote_each(s)) by {
        assert forall|i: int, j: int| 0 <= i < j < s.len() implies (#[trigger] s[i]).voter_id@
            != (#[trigger] s[j]).voter_id@ by {
            if j == s.len() - 1 {
                assert(prior[i] == s[i]);
            } else {
                assert(e.votes.contains_key(pid));
                assert(prior[i] == s[i] && prior[j] == s[j]);
            }
        }
    }
    assert(n.states.dom() =~= n.proposals.dom());
    assert forall|p: Seq<char>| #[trigger] n.votes.contains_key(p) implies one_vote_each(n.votes[p]) by {
        if p != pid {
            assert(e.votes.contains_key(p));
        }
    }
    assert forall|p: Seq<char>| #[trigger]
        n.proposals.contains_key(p) && n.states[p] == ProposalState::Approved implies approvals(
        n.votes[p],
    ) >= n.proposals[p].required_approvals && n.secure_only by {
        if p != pid {
            assert(e.proposals.contains_key(p));
        } else if !(approvals(s) >= e.proposals[pid].required_approvals) {
            assert(e.states[pid] == ProposalState::Approved);
            assert(e.votes[pid] == prior);
        }
    }
    assert forall|p: Seq<char>| #[trigger]
        n.proposals.contains_key(p) && n.proposals[p].required_approvals >= 1 && approvals(
            n.votes[p],
        ) >= n.proposals[p].required_approvals implies n.states[p] == ProposalState::Approved by {
        if p != pid {
            assert(e.proposals.contains_key(p));
        }
    }
}

/// Counts the approving votes.
pub fn count_approvals(votes: &Vec<UpgradeVote>) -> (r: usize)
    ensures
        r == approvals(votes@),
{
    let mut n: usize = 0;
    let mut i: usize = 0;
    while i < votes.len()
        invariant
            i <= votes@.len(),
            n == approvals(votes@.subrange(0, i as int)),
            n <= i,
        decreases votes@.len() - i,
    {
        assert(votes@.subrange(0, i as int + 1).drop_last() =~= votes@.subrange(0, i as int));
        if votes[i].approved {
            n = n + 1;
        }
        i = i + 1;
    }
    assert(votes@.subrange(0, i as int) =~= votes@);
    n
}

/// Counts the rejecting votes.
pub fn count_rejections(votes: &Vec<UpgradeVote>) -> (r: usize)
    ensures
        r == rejections(votes@),
{
    let mut n: usize = 0;
    let mut i: usize = 0;
    while i < votes.len()
        invariant
            i <= votes@.len(),
            n == rejections(votes@.subrange(0, i as int)),
            n <= i,
        decreases votes@.len() - i,
    {
        assert(votes@.subrange(0, i as int + 1).drop_last() =~= votes@.subrange(0, i as int));
        if !votes[i].approved {
            n = n + 1;
        }
        i = i + 1;
    }
    assert(votes@.subrange(0, i as int) =~= votes@);
    n
}

/// Whether `voter` has a vote among `votes`.
pub fn has_voter(votes: &Vec<UpgradeVote>, voter: &str) -> (r: bool)
    ensures
        r == has_voted(votes@, voter@),
{
    let mut i: usize = 0;
    while i < votes.len()
        invariant
            i <= votes@.len(),
            forall|j: int| 0 <= j < i ==> (#[trigger] votes@[j]).voter_id@ != voter@,
        decreases votes@.len() - i,
    {
        if crate::text::same_text(votes[i].voter_id.as_str(), voter) {
            assert(votes@[i as int].voter_id@ == voter@);
            return true;
        }
        i = i + 1;
    }
    false
}

/// Manages upgrade proposals, their votes and the secure-only latch.
pub struct ThresholdManager {
    proposals: StrMap<UpgradeProposal>,
    votes: StrMap<Vec<UpgradeVote>>,
    partial_signatures: StrMap<Vec<PartialSignature>>,
    proposal_states: StrMap<ProposalState>,
    secure_only_enabled: bool,
}

impl View for ThresholdManager {
    type V = EngineView;

    closed spec fn view(&self) -> EngineView {
        EngineView {
            proposals: self.proposals@,
            votes: self.votes@.map_values(|v: Vec<UpgradeVote>| v@),
            states: self.proposal_states@,
            secure_only: self.secure_only_enabled,
        }
    }
}

impl ThresholdManager {
    /// The tables are well formed and the engine invariant holds.
    pub closed spec fn wf(&self) -> bool {
        &&& self.proposals.wf()
        &&& self.votes.wf()
        &&& self.partial_signatures.wf()
        &&& self.proposal_states.wf()
        &&& engine_inv(self@)
    }

    /// The engine invariant holds of every well-formed manager.
    pub proof fn lemma_inv(&self)
        requires
            self.wf(),
        ensures
            engine_inv(self@),
    {
    }

    /// An engine without proposals, secure-only mode off.
    pub fn new() -> (r: Self)
        ensures
            r.wf(),
            r@.proposals == Map::<Seq<char>, UpgradeProposal>::empty(),
            r@.votes == Map::<Seq<char>, Seq<UpgradeVote>>::empty(),
            r@.states == Map::<Seq<char>, ProposalState>::empty(),
            !r@.secure_only,
    {
        let r = ThresholdManager {
            proposals: StrMap::new(),
            votes: StrMap::new(),
            partial_signatures: StrMap::new(),
            proposal_states: StrMap::new(),
            secure_only_enabled: false,
        };
        assert(r@.votes =~= Map::<Seq<char>, Seq<UpgradeVote>>::empty());
        r
    }

    /// Stores `proposal` as a fresh open proposal, replacing any earlier
    /// entry under its id.
    pub fn add_proposal(&mut self, proposal: UpgradeProposal)
        requires
            old(self).wf(),
        ensures
            final(self).wf(),
            old(self)@.secure_only ==> final(self)@.secure_only,
            final(self)@ == with_proposal(old(self)@, proposal),
    {
        let ghost e = self@;
        let ghost pid = proposal.proposal_id@;
        let id = proposal.proposal_id.clone();
        self.votes.insert(id.clone(), Vec::new());
        self.partial_signatures.insert(id.clone(), Vec::new());
        self.proposal_states.insert(id.clone(), ProposalState::Open);
        self.proposals.insert(id, proposal);
        proof {
            let n = with_proposal(e, proposal);
            assert(self@.votes =~= n.votes);
            assert(self@.states.dom() =~= self@.proposals.dom());
            assert(approvals(Seq::<UpgradeVote>::empty()) == 0);
            assert forall|p: Seq<char>| #[trigger] self@.votes.contains_key(p) implies one_vote_each(
                self@.votes[p],
            ) by {
                if p != pid {
                    assert(e.votes.contains_key(p));
                }
            }
            assert forall|p: Seq<char>| #[trigger]
                self@.proposals.contains_key(p) && self@.states[p] == ProposalState::Approved implies approvals(
                self@.votes[p],
            ) >= self@.proposals[p].required_approvals && self@.secure_only by {
                assert(p != pid);
                assert(e.proposals.contains_key(p));
            }
            assert forall|p: Seq<char>| #[trigger]
                self@.proposals.contains_key(p) && self@.proposals[p].required_approvals >= 1
                    && approvals(self@.votes[p]) >= self@.proposals[p].required_approvals implies self@.states[p]
                == ProposalState::Approved by {
                assert(p != pid);
                assert(e.proposals.contains_key(p));
            }
        }
    }

    /// Inserts a proposal received from another peer, unless one with its id
    /// is already known: an existing proposal is never rewritten.
    pub fn insert_received_proposal(&mut self, proposal: UpgradeProposal)
        requires
            old(self).wf(),
        ensures
            final(self).wf(),
            old(self)@.secure_only ==> final(self)@.secure_only,
            old(self)@.proposals.contains_key(proposal.proposal_id@) ==> final(self)@ == old(self)@,
            !old(self)@.proposals.contains_key(proposal.proposal_id@) ==> final(self)@
                == with_proposal(old(self)@, proposal),
    {
        if !self.proposals.contains_key(proposal.proposal_id.as_str()) {
            self.add_proposal(proposal);
        }
    }

    /// Creates a proposal with a fresh id, stamped with the clock; fails when
    /// the clock is before the Unix epoch.
    pub fn create_proposal(
        &mut self,
        proposer_id: String,
        proposer_name: String,
        description: String,
        required_approvals: usize,
        total_peers: usize,
    ) -> (r: Result<String, CryptoError>)
        requires
            old(self).wf(),
        ensures
            final(self).wf(),
            old(self)@.secure_only ==> final(self)@.secure_only,
            r matches Err(e) ==> (e matches CryptoError::Unknown(s) && s@ == clock_error_text())
                && final(self)@ == old(self)@,
            r matches Ok(id) ==> exists|p: UpgradeProposal|
                {
                    &&& p.proposal_id@ == id@
                    &&& p.proposer_id == proposer_id
                    &&& p.proposer_name == proposer_name
                    &&& p.description == description
                    &&& p.required_approvals == required_approvals
                    &&& p.total_peers == total_peers
                    &&& final(self)@ == with_proposal(old(self)@, p)
                },
            r matches Ok(id) ==> id@.len() == 36,
    {
        let proposal_id = new_id();
        let timestamp = match unix_time_now() {
            Some(t) => t,
            None => return Err(clock_error()),
        };
        let proposal = UpgradeProposal {
            proposal_id: proposal_id.clone(),
            proposer_id,
            proposer_name,
            timestamp,
            description,
            required_approvals,
            total_peers,
        };
        self.add_proposal(proposal);
        Ok(proposal_id)
    }

    /// The threshold check on `pid`.
    fn check_threshold(&mut self, pid: &str)
        requires
            old(self).proposals.wf(),
            old(self).votes.wf(),
            old(self).proposal_states.wf(),
        ensures
            final(self).proposals.wf(),
            final(self).votes.wf(),
            final(self).proposal_states.wf(),
            final(self).partial_signatures == old(self).partial_signatures,
            final(self)@ == after_threshold(old(self)@, pid@),
    {
        let m = match self.proposals.get(pid) {
            Some(p) => p.required_approvals,
            None => return ,
        };
        let count = match self.votes.get(pid) {
            Some(v) => count_approvals(v),
            None => return ,
        };
        if count >= m {
            self.proposal_states.insert(String::from_str(pid), ProposalState::Approved);
            self.secure_only_enabled = true;
        }
        proof {
            assert(self@ == after_threshold(old(self)@, pid@));
        }
    }

    /// Appends `vote` to its proposal's votes and checks the threshold.
    fn append_vote(&mut self, vote: UpgradeVote)
        requires
            old(self).wf(),
            !has_voted(votes_of(old(self)@, vote.proposal_id@), vote.voter_id@),
        ensures
            final(self).wf(),
            final(self)@ == with_vote(old(self)@, vote),
    {
        let ghost e = self@;
        let ghost pid = vote.proposal_id@;
        let id = vote.proposal_id.clone();
        let mut list = match self.votes.remove(id.as_str()) {
            Some(l) => l,
            None => Vec::new(),
        };
        assert(list@ =~= votes_of(e, pid));
        list.push(vote);
        self.votes.insert(id.clone(), list);
        let ghost mid = self@;
        assert(mid.votes =~= e.votes.insert(pid, votes_of(e, pid).push(vote)));
        assert(mid == EngineView { votes: e.votes.insert(pid, votes_of(e, pid).push(vote)), ..e });
        proof {
            lemma_with_vote_keeps_inv(e, vote);
        }
        self.check_threshold(id.as_str());
    }

    /// The refusal of a vote on `proposal_id` by `voter_id`, if any.
    fn vote_refused(&self, proposal_id: &str, voter_id: &str) -> (r: Option<CryptoError>)
        requires
            self.wf(),
        ensures
            vote_refusal(self@, proposal_id@, voter_id@) is None <==> r is None,
            vote_refusal(self@, proposal_id@, voter_id@) matches Some(f) ==> (r matches Some(
                CryptoError::Unknown(s),
            ) && s@ == refusal_text(f)),
    {
        let state = match self.proposal_states.get(proposal_id) {
            Some(s) => *s,
            None => {
                return Some(CryptoError::Unknown(String::from_str("Proposal state not found")));
            },
        };
        if state != ProposalState::Open {
            return Some(CryptoError::Unknown(String::from_str("Proposal is not open for voting")));
        }
        let voted = match self.votes.get(proposal_id) {
            Some(v) => has_voter(v, voter_id),
            None => false,
        };
        if voted {
            return Some(
                CryptoError::Unknown(String::from_str("Peer has already voted on this proposal")),
            );
        }
        None
    }

    /// Records a local vote that is already stamped (and signed, when it
    /// approves): refused on a missing or closed proposal and on a second
    /// vote by the same voter.
    pub fn record_vote(&mut self, vote: UpgradeVote) -> (r: Result<(), CryptoError>)
        requires
            old(self).wf(),
        ensures
            final(self).wf(),
            old(self)@.secure_only ==> final(self)@.secure_only,
            match vote_refusal(old(self)@, vote.proposal_id@, vote.voter_id@) {
                Some(f) => (r matches Err(CryptoError::Unknown(s)) && s@ == refusal_text(f))
                    && final(self)@ == old(self)@,
                None => r is Ok && final(self)@ == with_vote(old(self)@, vote),
            },
    {
        match self.vote_refused(vote.proposal_id.as_str(), vote.voter_id.as_str()) {
            Some(e) => Err(e),
            None => {
                self.append_vote(vote);
                Ok(())
            },
        }
    }

    /// Casts this peer's vote: stamps it with the clock and, when it
    /// approves, signs the proposal id, voter id, approval and timestamp.
    pub fn cast_vote(
        &mut self,
        proposal_id: &str,
        voter_id: String,
        voter_name: String,
        approved: bool,
        crypto_manager: &CryptoManager,
    ) -> (r: Result<(), CryptoError>)
        requires
            old(self).wf(),
            crypto_manager.wf(),
        ensures
            final(self).wf(),
            old(self)@.secure_only ==> final(self)@.secure_only,
            match vote_refusal(old(self)@, proposal_id@, voter_id@) {
                Some(f) => (r matches Err(CryptoError::Unknown(s)) && s@ == refusal_text(f))
                    && final(self)@ == old(self)@,
                None => {
                    &&& r matches Err(e) ==> (e matches CryptoError::Unknown(s) && s@
                        == clock_error_text()) && final(self)@ == old(self)@
                    &&& r is Ok ==> exists|v: UpgradeVote|
                        {
                            &&& v.proposal_id@ == proposal_id@
                            &&& v.voter_id == voter_id
                            &&& v.voter_name == voter_name
                            &&& v.approved == approved
                            &&& (approved ==> (v.signature matches Some(sig) && sig@
                                == crate::crypto::ed25519_signature(
                                crypto_manager.secret_key(),
                                approval_text(proposal_id@, voter_id@, v.timestamp),
                            )))
                            &&& (!approved ==> v.signature is None)
                            &&& final(self)@ == with_vote(old(self)@, v)
                        }
                },
            },
    {
        if let Some(e) = self.vote_refused(proposal_id, voter_id.as_str()) {
            return Err(e);
        }
        let timestamp = match unix_time_now() {
            Some(t) => t,
            None => return Err(clock_error()),
        };
        let signature = if approved {
            let d = decimal_string(timestamp);
            let head = concat3(proposal_id, ":", voter_id.as_str());
            let text = concat3(head.as_str(), ":true:", d.as_str());
            proof {
                reveal_strlit(":");
                assert(":"@ =~= seq![':']);
                assert(text@ =~= approval_text(proposal_id@, voter_id@, timestamp));
            }
            Some(crypto_manager.sign_raw(text.as_str()))
        } else {
            None
        };
        let vote = UpgradeVote {
            proposal_id: String::from_str(proposal_id),
            voter_id,
            voter_name,
            approved,
            timestamp,
            signature,
        };
        self.append_vote(vote);
        Ok(())
    }

    /// Takes in a vote received from another peer, unless its voter already
    /// voted on that proposal.
    pub fn handle_received_vote(&mut self, vote: &UpgradeVote)
        requires
            old(self).wf(),
        ensures
            final(self).wf(),
            old(self)@.secure_only ==> final(self)@.secure_only,
            has_voted(votes_of(old(self)@, vote.proposal_id@), vote.voter_id@) ==> final(self)@
                == old(self)@,
            !has_voted(votes_of(old(self)@, vote.proposal_id@), vote.voter_id@) ==> exists|
                v: UpgradeVote,
            | same_vote(v, *vote) && final(self)@ == with_vote(old(self)@, v),
    {
        let voted = match self.votes.get(vote.proposal_id.as_str()) {
            Some(v) => has_voter(v, vote.voter_id.as_str()),
            None => false,
        };
        if !voted {
            let v = vote.clone();
            self.append_vote(v);
        }
    }

    /// The proposals that are still open, each once.
    pub fn get_active_proposals(&self) -> (r: Vec<UpgradeProposal>)
        requires
            self.wf(),
        ensures
            forall|i: int|
                0 <= i < r@.len() ==> {
                    &&& self@.proposals.contains_key((#[trigger] r@[i]).proposal_id@)
                    &&& self@.proposals[r@[i].proposal_id@] == r@[i]
                    &&& self@.states[r@[i].proposal_id@] == ProposalState::Open
                },
            forall|p: Seq<char>| #[trigger]
                self@.proposals.contains_key(p) && self@.states[p] == ProposalState::Open
                    ==> exists|i: int| 0 <= i < r@.len() && (#[trigger] r@[i]).proposal_id@ == p,
            forall|i: int, j: int|
                0 <= i < j < r@.len() ==> (#[trigger] r@[i]).proposal_id@ != (#[trigger] r@[j]).proposal_id@,
    {
        proof {
            self.proposals.lemma_positions();
        }
        let mut out: Vec<UpgradeProposal> = Vec::new();
        let mut i: usize = 0;
        let n = self.proposals.len();
        while i < n
            invariant
                self.wf(),
                n == self.proposals.size(),
                i <= n,
                forall|a: int|
                    0 <= a < out@.len() ==> {
                        &&& self@.proposals.contains_key((#[trigger] out@[a]).proposal_id@)
                        &&& self@.proposals[out@[a].proposal_id@] == out@[a]
                        &&& self@.states[out@[a].proposal_id@] == ProposalState::Open
                        &&& exists|b: int|
                            0 <= b < i && self.proposals.key_spec(b) == out@[a].proposal_id@
                    },
                forall|b: int|
                    0 <= b < i && self@.states[self.proposals.key_spec(b)] == ProposalState::Open
                        ==> exists|a: int|
                        0 <= a < out@.len() && (#[trigger] out@[a]).proposal_id@
                            == self.proposals.key_spec(b),
                forall|a: int, c: int|
                    0 <= a < c < out@.len() ==> (#[trigger] out@[a]).proposal_id@ != (#[trigger] out@[c]).proposal_id@,
                forall|b: int| 0 <= b < n ==> self@.proposals.contains_key(#[trigger] self.proposals.key_spec(b)),
                forall|b: int, c: int|
                    0 <= b < c < n ==> #[trigger] self.proposals.key_spec(b) != #[trigger] self.proposals.key_spec(c),
            decreases n - i,
        {
            let key = self.proposals.key_at(i);
            let open = match self.proposal_states.get(key.as_str()) {
                Some(s) => *s == ProposalState::Open,
                None => false,
            };
            if open {
                let p = self.proposals.value_at(i);
                let c = p.clone();
                let ghost k = self.proposals.key_spec(i as int);
                assert(c.proposal_id@ == k);
                let ghost old_out = out@;
                out.push(c);
                assert forall|a: int, d: int| 0 <= a < d < out@.len() implies (#[trigger] out@[a]).proposal_id@
                    != (#[trigger] out@[d]).proposal_id@ by {
                    if d == out@.len() - 1 {
                        let b = choose|b: int| 0 <= b < i && self.proposals.key_spec(b) == old_out[a].proposal_id@;
                        assert(self.proposals.key_spec(b) != self.proposals.key_spec(i as int));
                    } else {
                        assert(old_out[a] == out@[a] && old_out[d] == out@[d]);
                    }
                }
                assert forall|a: int| 0 <= a < out@.len() implies exists|b: int|
                    0 <= b < i + 1 && self.proposals.key_spec(b) == (#[trigger] out@[a]).proposal_id@ by {
                    if a < out@.len() - 1 {
                        assert(old_out[a] == out@[a]);
                        let b = choose|b: int| 0 <= b < i && self.proposals.key_spec(b) == old_out[a].proposal_id@;
                        assert(0 <= b < i + 1);
                    } else {
                        assert(self.proposals.key_spec(i as int) == out@[a].proposal_id@);
                    }
                }
                assert forall|b: int|
                    0 <= b < i + 1 && self@.states[self.proposals.key_spec(b)] == ProposalState::Open implies exists|a: int|
                    0 <= a < out@.len() && (#[trigger] out@[a]).proposal_id@ == self.proposals.key_spec(b) by {
                    if b < i {
                        let a = choose|a: int| 0 <= a < old_out.len() && (#[trigger] old_out[a]).proposal_id@ == self.proposals.key_spec(b);
                        assert(out@[a] == old_out[a]);
                    } else {
                        assert(out@[out@.len() - 1].proposal_id@ == self.proposals.key_spec(b));
                    }
                }
            }
            i = i + 1;
        }
        proof {
            assert forall|p: Seq<char>| #[trigger]
                self@.proposals.contains_key(p) && self@.states[p] == ProposalState::Open implies exists|i: int|
                0 <= i < out@.len() && (#[trigger] out@[i]).proposal_id@ == p by {
                let b = choose|b: int| 0 <= b < self.proposals.size() && #[trigger] self.proposals.key_spec(b) == p;
            }
        }
        out
    }

    /// The votes recorded for `proposal_id`, none if there is no entry.
    pub fn get_proposal_votes(&self, proposal_id: &str) -> (r: Vec<UpgradeVote>)
        requires
            self.wf(),
        ensures
            r@.len() == votes_of(self@, proposal_id@).len(),
            forall|i: int| 0 <= i < r@.len() ==> same_vote(#[trigger] r@[i], votes_of(self@, proposal_id@)[i]),
    {
        match self.votes.get(proposal_id) {
            Some(v) => {
                let mut out: Vec<UpgradeVote> = Vec::new();
                let mut i: usize = 0;
                while i < v.len()
                    invariant
                        i <= v@.len(),
                        v@ == votes_of(self@, proposal_id@),
                        out@.len() == i,
                        forall|j: int| 0 <= j < i ==> same_vote(#[trigger] out@[j], v@[j]),
                    decreases v@.len() - i,
                {
                    out.push(v[i].clone());
                    i = i + 1;
                }
                out
            },
            None => Vec::new(),
        }
    }

    /// Whether secure-only messaging is on.
    pub fn is_secure_only_enabled(&self) -> (r: bool)
        ensures
            r == self@.secure_only,
    {
        self.secure_only_enabled
    }

    /// The state of `proposal_id`, if it is known.
    pub fn get_proposal_state(&self, proposal_id: &str) -> (r: Option<ProposalState>)
        requires
            self.wf(),
        ensures
            r == (if self@.states.contains_key(proposal_id@) {
                Some(self@.states[proposal_id@])
            } else {
                None
            }),
    {
        match self.proposal_states.get(proposal_id) {
            Some(s) => Some(*s),
            None => None,
        }
    }

    /// The proposal `proposal_id`, if it is known.
    pub fn get_proposal(&self, proposal_id: &str) -> (r: Option<UpgradeProposal>)
        requires
            self.wf(),
        ensures
            r == (if self@.proposals.contains_key(proposal_id@) {
                Some(self@.proposals[proposal_id@])
            } else {
                None
            }),
    {
        match self.proposals.get(proposal_id) {
            Some(p) => Some(p.clone()),
            None => None,
        }
    }
}

/// A character of a hyphenated lower-case UUID: `0`-`9`, `a`-`f` or `-`.
pub open spec fn uuid_char(c: char) -> bool {
    let u = c as u32;
    (0x30 <= u && u <= 0x39) || (0x61 <= u && u <= 0x66) || u == 0x2d
}

/// Relies on `Uuid::new_v4` and its hyphenated lower-case display: a random
/// id of 36 characters, each a hex digit or a hyphen.
#[verifier::external_body]
pub(crate) fn new_id() -> (r: String)
    ensures
        r@.len() == 36,
        forall|i: int| 0 <= i < r@.len() ==> uuid_char(#[trigger] r@[i]),
{
    uuid::Uuid::new_v4().to_string()
}

/// No voter has two votes on one proposal.
pub proof fn lemma_one_vote_per_voter(e: EngineView, pid: Seq<char>, i: int, j: int)
    requires
        engine_inv(e),
        e.votes.contains_key(pid),
        0 <= i < e.votes[pid].len(),
        0 <= j < e.votes[pid].len(),
        e.votes[pid][i].voter_id@ == e.votes[pid][j].voter_id@,
    ensures
        i == j,
{
    if i < j {
        assert(e.votes[pid][i].voter_id@ != e.votes[pid][j].voter_id@);
    } else if j < i {
        assert(e.votes[pid][j].voter_id@ != e.votes[pid][i].voter_id@);
    }
}

/// A proposal that needs at least one approval is approved exactly when its
/// approving votes reach the number required.
pub proof fn lemma_threshold_correct(e: EngineView, pid: Seq<char>)
    requires
        engine_inv(e),
        e.proposals.contains_key(pid),
        e.proposals[pid].required_approvals >= 1,
    ensures
        (e.states[pid] == ProposalState::Approved) <==> approvals(e.votes[pid])
            >= e.proposals[pid].required_approvals,
{
}

/// Once on, secure-only mode stays on through every change of the engine:
/// a threshold check, a vote, a new proposal.
pub proof fn lemma_secure_only_latches(
    e: EngineView,
    pid: Seq<char>,
    v: UpgradeVote,
    p: UpgradeProposal,
)
    requires
        e.secure_only,
    ensures
        after_threshold(e, pid).secure_only,
        with_vote(e, v).secure_only,
        with_proposal(e, p).secure_only,
{
}

/// An approved proposal has latched secure-only mode.
pub proof fn lemma_approved_means_secure(e: EngineView, pid: Seq<char>)
    requires
        engine_inv(e),
        e.proposals.contains_key(pid),
        e.states[pid] == ProposalState::Approved,
    ensures
        e.secure_only,
{
}

} // verus!
