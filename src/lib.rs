//! A yes/no poll whose participants each cast one vote through interactive
//! controls: the poll record, the routing of control tokens to actions, the
//! vote engine and the private replies it produces.

pub mod action;
pub mod engine;
pub mod poll;
pub mod reply;

pub use action::{classify, has_prefix, str_equal, Action};
pub use engine::Outcome;
pub use poll::{get_voted, Poll, PollVote};
pub use reply::Reply;
