use vstd::prelude::*;

verus! {

/// A participant's stable numeric identifier (a platform user id).
#[derive(Clone, Copy, Debug, PartialEq, Eq, Structural)]
pub struct PollVote(pub u64);

/// One yes/no poll: its display text and the votes cast so far, each vote
/// sequence in the order in which the votes came.
#[derive(Debug)]
pub struct Poll {
    pub title: String,
    pub description: String,
    pub reason_to_vote_yes: String,
    pub reason_to_vote_no: String,
    pub yes_votes: Vec<PollVote>,
    pub no_votes: Vec<PollVote>,
}

/// The mathematical content of a `Poll`.
#[verifier::ext_equal]
pub struct PollModel {
    pub title: Seq<char>,
    pub description: Seq<char>,
    pub reason_yes: Seq<char>,
    pub reason_no: Seq<char>,
    pub yes: Seq<PollVote>,
    pub no: Seq<PollVote>,
}

impl View for Poll {
    type V = PollModel;

    open spec fn view(&self) -> PollModel {
        PollModel {
            title: self.title@,
            description: self.description@,
            reason_yes: self.reason_to_vote_yes@,
            reason_no: self.reason_to_vote_no@,
            yes: self.yes_votes@,
            no: self.no_votes@,
        }
    }
}

impl PollModel {
    /// Whether `voter` appears in either vote sequence.
    pub open spec fn has_voted(self, voter: u64) -> bool {
        self.yes.contains(PollVote(voter)) || self.no.contains(PollVote(voter))
    }

    /// One vote per participant: nobody appears twice in a sequence, nor in
    /// both sequences.
    pub open spec fn wf(self) -> bool {
        &&& self.yes.no_duplicates()
        &&& self.no.no_duplicates()
        &&& forall|v: PollVote| !(#[trigger] self.yes.contains(v) && self.no.contains(v))
    }

    /// The model with `voter` appended to the yes votes.
    pub open spec fn add_yes(self, voter: u64) -> PollModel {
        PollModel { yes: self.yes.push(PollVote(voter)), ..self }
    }

    /// The model with `voter` appended to the no votes.
    pub open spec fn add_no(self, voter: u64) -> PollModel {
        PollModel { no: self.no.push(PollVote(voter)), ..self }
    }
}

/// Appending a value that a duplicate-free sequence lacks keeps it duplicate-free.
pub proof fn lemma_push_no_duplicates(s: Seq<PollVote>, v: PollVote)
    requires
        s.no_duplicates(),
        !s.contains(v),
    ensures
        s.push(v).no_duplicates(),
{
    let t = s.push(v);
    assert forall|i: int, j: int| 0 <= i < t.len() && 0 <= j < t.len() && i != j implies t[i]
        != t[j] by {
        if i < s.len() && j < s.len() {
            assert(t[i] == s[i] && t[j] == s[j]);
        } else if i < s.len() {
            assert(t[i] == s[i]);
        } else {
            assert(t[j] == s[j]);
        }
    }
}

/// A model with a new voter added to either side stays well formed.
pub proof fn lemma_add_preserves_wf(m: PollModel, voter: u64)
    requires
        m.wf(),
        !m.has_voted(voter),
    ensures
        m.add_yes(voter).wf(),
        m.add_no(voter).wf(),
{
    lemma_push_no_duplicates(m.yes, PollVote(voter));
    lemma_push_no_duplicates(m.no, PollVote(voter));
    let y = m.add_yes(voter);
    assert forall|v: PollVote| !(#[trigger] y.yes.contains(v) && y.no.contains(v)) by {
        if y.yes.contains(v) && y.no.contains(v) {
            let i = choose|i: int| 0 <= i < y.yes.len() && y.yes[i] == v;
            if i < m.yes.len() {
                assert(m.yes.contains(v));
            }
        }
    }
    let n = m.add_no(voter);
    assert forall|v: PollVote| !(#[trigger] n.yes.contains(v) && n.no.contains(v)) by {
        if n.yes.contains(v) && n.no.contains(v) {
            let i = choose|i: int| 0 <= i < n.no.len() && n.no[i] == v;
            if i < m.no.len() {
                assert(m.no.contains(v));
            }
        }
    }
}

impl Poll {
    /// A new poll with the given text and no votes. No text is validated:
    /// empty strings are accepted.
    pub fn new(
        title: String,
        description: String,
        reason_to_vote_yes: String,
        reason_to_vote_no: String,
    ) -> (r: Poll)
        ensures
            r@.title == title@,
            r@.description == description@,
            r@.reason_yes == reason_to_vote_yes@,
            r@.reason_no == reason_to_vote_no@,
            r@.yes == Seq::<PollVote>::empty(),
            r@.no == Seq::<PollVote>::empty(),
            r@.wf(),
    {
        let r = Poll {
            title,
            description,
            reason_to_vote_yes,
            reason_to_vote_no,
            yes_votes: Vec::new(),
            no_votes: Vec::new(),
        };
        assert(r@.yes =~= Seq::<PollVote>::empty());
        r
    }
}

/// Whether `votes` holds `voter`.
fn contains_voter(voter: u64, votes: &[PollVote]) -> (r: bool)
    ensures
        r == votes@.contains(PollVote(voter)),
{
    let mut i: usize = 0;
    while i < votes.len()
        invariant
            i <= votes@.len(),
            forall|k: int| 0 <= k < i ==> votes@[k] != PollVote(voter),
        decreases votes@.len() - i,
    {
        if votes[i].0 == voter {
            assert(votes@[i as int] == PollVote(voter));
            return true;
        }
        i += 1;
    }
    false
}

/// Whether `voter` has already voted, on either side.
pub fn get_voted(voter: u64, yes_votes: &[PollVote], no_votes: &[PollVote]) -> (r: bool)
    ensures
        r == (yes_votes@.contains(PollVote(voter)) || no_votes@.contains(PollVote(voter))),
{
    contains_voter(voter, yes_votes) || contains_voter(voter, no_votes)
}

} // verus!
