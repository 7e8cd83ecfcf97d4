use vstd::prelude::*;
use vstd::string::StrSliceExecFns;

verus! {

/// What a control token asks of a poll. `Unrecognized` is a token that carries
/// the poll prefix but names none of the known controls.
#[derive(Clone, Copy, Debug, PartialEq, Eq, Structural)]
pub enum Action {
    VoteYes,
    VoteNo,
    ViewResults,
    Unrecognized,
}

/// The prefix shared by every control token that belongs to a poll.
pub const POLL_PREFIX: &'static str = "poll_";

/// The token of the yes button.
pub const YES_TOKEN: &'static str = "poll_yes";

/// The token of the no button.
pub const NO_TOKEN: &'static str = "poll_no";

/// The token of the view-results button.
pub const VIEW_TOKEN: &'static str = "poll_view";

/// Whether `p` is a prefix of `s`.
pub open spec fn is_prefix(p: Seq<char>, s: Seq<char>) -> bool {
    p.len() <= s.len() && s.subrange(0, p.len() as int) == p
}

/// How a control token is routed: `None` for a token that is not a poll's
/// (the event is left alone and no record is loaded), else the action.
pub open spec fn classify_spec(id: Seq<char>) -> Option<Action> {
    if !is_prefix(POLL_PREFIX@, id) {
        None
    } else if id == YES_TOKEN@ {
        Some(Action::VoteYes)
    } else if id == NO_TOKEN@ {
        Some(Action::VoteNo)
    } else if id == VIEW_TOKEN@ {
        Some(Action::ViewResults)
    } else {
        Some(Action::Unrecognized)
    }
}

/// Whether `p` is a prefix of `s`, character by character.
pub fn has_prefix(s: &str, p: &str) -> (r: bool)
    ensures
        r == is_prefix(p@, s@),
{
    let n = s.unicode_len();
    let k = p.unicode_len();
    if k > n {
        return false;
    }
    let mut i: usize = 0;
    while i < k
        invariant
            k == p@.len(),
            n == s@.len(),
            k <= n,
            i <= k,
            forall|j: int| 0 <= j < i ==> s@[j] == p@[j],
        decreases k - i,
    {
        if s.get_char(i) != p.get_char(i) {
            assert(s@.subrange(0, k as int)[i as int] != p@[i as int]);
            return false;
        }
        i += 1;
    }
    assert(s@.subrange(0, k as int) =~= p@);
    true
}

/// Whether two strings hold the same characters.
pub fn str_equal(a: &str, b: &str) -> (r: bool)
    ensures
        r == (a@ == b@),
{
    if a.unicode_len() != b.unicode_len() {
        return false;
    }
    let r = has_prefix(a, b);
    assert(a@.subrange(0, b@.len() as int) =~= a@);
    r
}

/// Routes a control token: a token without the poll prefix is not a poll's
/// (`None`); one of the three known tokens gives its action; any other token
/// with the prefix is `Unrecognized`.
pub fn classify(custom_id: &str) -> (r: Option<Action>)
    ensures
        r == classify_spec(custom_id@),
{
    if !has_prefix(custom_id, POLL_PREFIX) {
        None
    } else if str_equal(custom_id, YES_TOKEN) {
        Some(Action::VoteYes)
    } else if str_equal(custom_id, NO_TOKEN) {
        Some(Action::VoteNo)
    } else if str_equal(custom_id, VIEW_TOKEN) {
        Some(Action::ViewResults)
    } else {
        Some(Action::Unrecognized)
    }
}

} // verus!
