use vstd::prelude::*;
use crate::action::{
    classify_spec, is_prefix, Action, NO_TOKEN, POLL_PREFIX, VIEW_TOKEN, YES_TOKEN,
};
use crate::poll::{lemma_add_preserves_wf, get_voted, Poll, PollModel, PollVote};
use crate::reply::{decimal, reply_text, Reply};

verus! {

/// What one action on a poll produced: the reply for the participant, and
/// whether the changed record is to be written back.
#[derive(Clone, Copy, Debug, PartialEq, Eq, Structural)]
pub struct Outcome {
    pub reply: Reply,
    pub save: bool,
}

/// The reply to `action` from `voter` on a poll in state `m`. An unknown token
/// is answered first; then anyone who has voted is turned away, whatever the
/// action, a view of the results included.
pub open spec fn reply_for(m: PollModel, voter: u64, action: Action) -> Reply {
    if action == Action::Unrecognized {
        Reply::UnknownId
    } else if m.has_voted(voter) {
        Reply::AlreadyVoted
    } else {
        match action {
            Action::VoteYes => Reply::VotedYes,
            Action::VoteNo => Reply::VotedNo,
            _ => Reply::Results { yes: m.yes.len() as usize, no: m.no.len() as usize },
        }
    }
}

/// Whether `action` from `voter` records a new vote.
pub open spec fn records_vote(m: PollModel, voter: u64, action: Action) -> bool {
    (action == Action::VoteYes || action == Action::VoteNo) && !m.has_voted(voter)
}

/// The poll after `action` from `voter`: a first vote is appended to its side;
/// everything else leaves the poll as it was.
pub open spec fn next_model(m: PollModel, voter: u64, action: Action) -> PollModel {
    if !records_vote(m, voter, action) {
        m
    } else if action == Action::VoteYes {
        m.add_yes(voter)
    } else {
        m.add_no(voter)
    }
}

/// The poll after a sequence of actions, each with its voter, in order.
pub open spec fn run(m: PollModel, events: Seq<(u64, Action)>) -> PollModel
    decreases events.len(),
{
    if events.len() == 0 {
        m
    } else {
        run(next_model(m, events[0].0, events[0].1), events.drop_first())
    }
}

impl Poll {
    /// Handles one action from `voter`: answers an unknown token with
    /// `UnknownId`, turns away a participant who has voted, records a first
    /// vote, or reports the two counts. Only a recorded vote asks for the
    /// record to be saved.
    pub fn handle(&mut self, voter: u64, action: Action) -> (r: Outcome)
        ensures
            final(self)@ == next_model(old(self)@, voter, action),
            r.reply == reply_for(old(self)@, voter, action),
            r.save == records_vote(old(self)@, voter, action),
            old(self)@.wf() ==> final(self)@.wf(),
    {
        proof {
            if old(self)@.wf() && !old(self)@.has_voted(voter) {
                lemma_add_preserves_wf(old(self)@, voter);
            }
        }
        if action == Action::Unrecognized {
            return Outcome { reply: Reply::UnknownId, save: false };
        }
        if get_voted(voter, self.yes_votes.as_slice(), self.no_votes.as_slice()) {
            return Outcome { reply: Reply::AlreadyVoted, save: false };
        }
        match action {
            Action::VoteYes => {
                self.yes_votes.push(PollVote(voter));
                assert(self@ =~= old(self)@.add_yes(voter));
                Outcome { reply: Reply::VotedYes, save: true }
            },
            Action::VoteNo => {
                self.no_votes.push(PollVote(voter));
                assert(self@ =~= old(self)@.add_no(voter));
                Outcome { reply: Reply::VotedNo, save: true }
            },
            _ => Outcome {
                reply: Reply::Results { yes: self.yes_votes.len(), no: self.no_votes.len() },
                save: false,
            },
        }
    }
}

/// One action keeps a well-formed poll well formed.
pub proof fn lemma_step_preserves_wf(m: PollModel, voter: u64, action: Action)
    requires
        m.wf(),
    ensures
        next_model(m, voter, action).wf(),
{
    if records_vote(m, voter, action) {
        lemma_add_preserves_wf(m, voter);
    }
}

/// Whatever actions come, in whatever order, nobody appears twice in a vote
/// sequence nor in both: a participant's vote is recorded at most once.
pub proof fn lemma_single_vote(m: PollModel, events: Seq<(u64, Action)>)
    requires
        m.wf(),
    ensures
        run(m, events).wf(),
    decreases events.len(),
{
    if events.len() > 0 {
        lemma_step_preserves_wf(m, events[0].0, events[0].1);
        lemma_single_vote(next_model(m, events[0].0, events[0].1), events.drop_first());
    }
}

/// A participant who has not voted and asks for the results is told exactly
/// the number of yes votes and of no votes, and the poll stays as it was.
pub proof fn lemma_view_reports_counts(m: PollModel, voter: u64)
    requires
        !m.has_voted(voter),
        m.yes.len() <= usize::MAX,
        m.no.len() <= usize::MAX,
    ensures
        reply_for(m, voter, Action::ViewResults) == (Reply::Results {
            yes: m.yes.len() as usize,
            no: m.no.len() as usize,
        }),
        reply_text(reply_for(m, voter, Action::ViewResults)) == "Yes: "@ + decimal(m.yes.len())
            + " No: "@ + decimal(m.no.len()),
        next_model(m, voter, Action::ViewResults) == m,
        !records_vote(m, voter, Action::ViewResults),
{
}

/// A vote from a participant who has voted changes nothing, saves nothing and
/// is answered with `AlreadyVoted`, however often it is repeated.
pub proof fn lemma_repeat_vote_rejected(m: PollModel, voter: u64, action: Action)
    requires
        m.has_voted(voter),
        action == Action::VoteYes || action == Action::VoteNo,
    ensures
        next_model(m, voter, action) == m,
        reply_for(m, voter, action) == Reply::AlreadyVoted,
        !records_vote(m, voter, action),
        next_model(next_model(m, voter, action), voter, action) == m,
{
}

/// A token without the poll prefix is not routed to any poll.
pub proof fn lemma_foreign_token_ignored(id: Seq<char>)
    requires
        !is_prefix(POLL_PREFIX@, id),
    ensures
        classify_spec(id) == None::<Action>,
{
}

/// A token with the poll prefix that names no known control is answered with
/// `UnknownId` and leaves the poll exactly as it was, with nothing to save.
pub proof fn lemma_unknown_token_isolated(m: PollModel, voter: u64, id: Seq<char>)
    requires
        is_prefix(POLL_PREFIX@, id),
        id != YES_TOKEN@,
        id != NO_TOKEN@,
        id != VIEW_TOKEN@,
    ensures
        classify_spec(id) == Some(Action::Unrecognized),
        reply_for(m, voter, Action::Unrecognized) == Reply::UnknownId,
        next_model(m, voter, Action::Unrecognized) == m,
        !records_vote(m, voter, Action::Unrecognized),
{
}

} // verus!
