use vstd::prelude::*;
use vstd::string::StringExecFns;

verus! {

/// The private reply to one control activation.
#[derive(Clone, Copy, Debug, PartialEq, Eq, Structural)]
pub enum Reply {
    VotedYes,
    VotedNo,
    AlreadyVoted,
    UnknownId,
    Results { yes: usize, no: usize },
}

/// The character of a decimal digit.
pub open spec fn digit_char(d: nat) -> char {
    if d == 0 {
        '0'
    } else if d == 1 {
        '1'
    } else if d == 2 {
        '2'
    } else if d == 3 {
        '3'
    } else if d == 4 {
        '4'
    } else if d == 5 {
        '5'
    } else if d == 6 {
        '6'
    } else if d == 7 {
        '7'
    } else if d == 8 {
        '8'
    } else {
        '9'
    }
}

/// The decimal notation of `n`, without leading zeros.
pub open spec fn decimal(n: nat) -> Seq<char>
    decreases n,
{
    if n < 10 {
        seq![digit_char(n)]
    } else {
        decimal(n / 10) + seq![digit_char(n % 10)]
    }
}

/// The text of a reply.
pub open spec fn reply_text(r: Reply) -> Seq<char> {
    match r {
        Reply::VotedYes => "You voted yes!"@,
        Reply::VotedNo => "You voted no!"@,
        Reply::AlreadyVoted => "You already voted!"@,
        Reply::UnknownId => "Unknown id"@,
        Reply::Results { yes, no } => "Yes: "@ + decimal(yes as nat) + " No: "@ + decimal(
            no as nat,
        ),
    }
}

/// The one-character string of a decimal digit.
fn digit_str(d: usize) -> (r: &'static str)
    requires
        d < 10,
    ensures
        r@ == seq![digit_char(d as nat)],
{
    proof {
        reveal_strlit("0");
        reveal_strlit("1");
        reveal_strlit("2");
        reveal_strlit("3");
        reveal_strlit("4");
        reveal_strlit("5");
        reveal_strlit("6");
        reveal_strlit("7");
        reveal_strlit("8");
        reveal_strlit("9");
    }
    match d {
        0 => "0",
        1 => "1",
        2 => "2",
        3 => "3",
        4 => "4",
        5 => "5",
        6 => "6",
        7 => "7",
        8 => "8",
        _ => "9",
    }
}

/// Appends the decimal notation of `n` to `s`.
fn append_decimal(s: &mut String, n: usize)
    ensures
        final(s)@ == old(s)@ + decimal(n as nat),
    decreases n,
{
    if n >= 10 {
        append_decimal(s, n / 10);
    }
    s.append(digit_str(n % 10));
    proof {
        if n >= 10 {
            assert(s@ =~= old(s)@ + decimal(n as nat));
        }
    }
}

impl Reply {
    /// The message shown to the participant.
    pub fn text(&self) -> (r: String)
        ensures
            r@ == reply_text(*self),
    {
        match self {
            Reply::VotedYes => String::from_str("You voted yes!"),
            Reply::VotedNo => String::from_str("You voted no!"),
            Reply::AlreadyVoted => String::from_str("You already voted!"),
            Reply::UnknownId => String::from_str("Unknown id"),
            Reply::Results { yes, no } => {
                let mut s = String::from_str("Yes: ");
                append_decimal(&mut s, *yes);
                s.append(" No: ");
                append_decimal(&mut s, *no);
                s
            },
        }
    }
}

} // verus!
