use poll_bot::{classify, get_voted, has_prefix, str_equal, Action, Outcome, Poll, PollVote, Reply};

fn sample_poll() -> Poll {
    Poll::new(
        "T".to_string(),
        "D".to_string(),
        "Y".to_string(),
        "N".to_string(),
    )
}

/// Routes a token and applies it, as the event handler does.
fn press(poll: &mut Poll, voter: u64, token: &str) -> Option<(String, bool)> {
    let action = classify(token)?;
    let outcome = poll.handle(voter, action);
    Some((outcome.reply.text(), outcome.save))
}

fn votes(v: &[PollVote]) -> Vec<u64> {
    v.iter().map(|p| p.0).collect()
}

#[test]
fn create_poll_has_no_votes() {
    let poll = sample_poll();
    assert_eq!(poll.title, "T");
    assert_eq!(poll.description, "D");
    assert_eq!(poll.reason_to_vote_yes, "Y");
    assert_eq!(poll.reason_to_vote_no, "N");
    assert!(poll.yes_votes.is_empty());
    assert!(poll.no_votes.is_empty());
}

#[test]
fn create_poll_accepts_empty_text() {
    let poll = Poll::new(String::new(), String::new(), String::new(), String::new());
    assert_eq!(poll.title, "");
    assert!(poll.yes_votes.is_empty() && poll.no_votes.is_empty());
}

#[test]
fn first_yes_vote_is_recorded() {
    let mut poll = sample_poll();
    let r = press(&mut poll, 42, "poll_yes");
    assert_eq!(r, Some(("You voted yes!".to_string(), true)));
    assert_eq!(votes(&poll.yes_votes), vec![42]);
    assert!(poll.no_votes.is_empty());
}

#[test]
fn second_vote_is_rejected() {
    let mut poll = sample_poll();
    press(&mut poll, 42, "poll_yes");
    let r = press(&mut poll, 42, "poll_no");
    assert_eq!(r, Some(("You already voted!".to_string(), false)));
    assert_eq!(votes(&poll.yes_votes), vec![42]);
    assert!(poll.no_votes.is_empty());
}

#[test]
fn view_reports_counts() {
    let mut poll = sample_poll();
    press(&mut poll, 42, "poll_yes");
    press(&mut poll, 42, "poll_no");
    let r = press(&mut poll, 7, "poll_view");
    assert_eq!(r, Some(("Yes: 1 No: 0".to_string(), false)));
    assert_eq!(votes(&poll.yes_votes), vec![42]);
    assert!(poll.no_votes.is_empty());
}

#[test]
fn unknown_token_with_prefix() {
    let mut poll = sample_poll();
    press(&mut poll, 42, "poll_yes");
    let r = press(&mut poll, 9, "poll_bogus_token");
    assert_eq!(r, Some(("Unknown id".to_string(), false)));
    assert_eq!(votes(&poll.yes_votes), vec![42]);
    assert!(poll.no_votes.is_empty());
    assert_eq!(poll.title, "T");
}

#[test]
fn unknown_token_from_voter_who_voted() {
    let mut poll = sample_poll();
    press(&mut poll, 42, "poll_yes");
    let r = press(&mut poll, 42, "poll_maybe");
    assert_eq!(r, Some(("Unknown id".to_string(), false)));
}

#[test]
fn token_without_prefix_is_ignored() {
    assert_eq!(classify("bogus_token"), None);
    assert_eq!(classify(""), None);
    assert_eq!(classify("poll"), None);
    assert_eq!(classify("Poll_yes"), None);
    let mut poll = sample_poll();
    assert_eq!(press(&mut poll, 9, "bogus_token"), None);
    assert!(poll.yes_votes.is_empty() && poll.no_votes.is_empty());
}

#[test]
fn classify_known_tokens() {
    assert_eq!(classify("poll_yes"), Some(Action::VoteYes));
    assert_eq!(classify("poll_no"), Some(Action::VoteNo));
    assert_eq!(classify("poll_view"), Some(Action::ViewResults));
    assert_eq!(classify("poll_"), Some(Action::Unrecognized));
    assert_eq!(classify("poll_yes "), Some(Action::Unrecognized));
    assert_eq!(classify("poll_ye"), Some(Action::Unrecognized));
}

#[test]
fn no_vote_is_recorded() {
    let mut poll = sample_poll();
    let o = poll.handle(5, Action::VoteNo);
    assert_eq!(o, Outcome { reply: Reply::VotedNo, save: true });
    assert_eq!(o.reply.text(), "You voted no!");
    assert_eq!(votes(&poll.no_votes), vec![5]);
    assert!(poll.yes_votes.is_empty());
}

#[test]
fn view_from_voter_who_voted_is_turned_away() {
    let mut poll = sample_poll();
    poll.handle(42, Action::VoteYes);
    let o = poll.handle(42, Action::ViewResults);
    assert_eq!(o, Outcome { reply: Reply::AlreadyVoted, save: false });
}

#[test]
fn repeated_yes_votes_change_nothing() {
    let mut poll = sample_poll();
    poll.handle(3, Action::VoteNo);
    for _ in 0..3 {
        let o = poll.handle(3, Action::VoteYes);
        assert_eq!(o, Outcome { reply: Reply::AlreadyVoted, save: false });
        assert_eq!(o.reply.text(), "You already voted!");
    }
    assert!(poll.yes_votes.is_empty());
    assert_eq!(votes(&poll.no_votes), vec![3]);
}

#[test]
fn each_voter_counted_once() {
    let mut poll = sample_poll();
    let events = [
        (1, Action::VoteYes),
        (2, Action::VoteNo),
        (1, Action::VoteNo),
        (3, Action::VoteYes),
        (2, Action::VoteYes),
        (1, Action::VoteYes),
        (4, Action::ViewResults),
        (4, Action::VoteNo),
    ];
    for (voter, action) in events {
        poll.handle(voter, action);
    }
    assert_eq!(votes(&poll.yes_votes), vec![1, 3]);
    assert_eq!(votes(&poll.no_votes), vec![2, 4]);
}

#[test]
fn counts_in_view_are_exact() {
    let mut poll = sample_poll();
    for voter in 0..12u64 {
        poll.handle(voter, Action::VoteYes);
    }
    for voter in 100..103u64 {
        poll.handle(voter, Action::VoteNo);
    }
    let o = poll.handle(500, Action::ViewResults);
    assert_eq!(o.reply, Reply::Results { yes: 12, no: 3 });
    assert_eq!(o.reply.text(), "Yes: 12 No: 3");
}

#[test]
fn results_text_formats_numbers() {
    assert_eq!(Reply::Results { yes: 0, no: 0 }.text(), "Yes: 0 No: 0");
    assert_eq!(Reply::Results { yes: 10, no: 9 }.text(), "Yes: 10 No: 9");
    assert_eq!(Reply::Results { yes: 1205, no: 300 }.text(), "Yes: 1205 No: 300");
    assert_eq!(
        Reply::Results { yes: usize::MAX, no: 7 }.text(),
        format!("Yes: {} No: 7", usize::MAX)
    );
    assert_eq!(Reply::UnknownId.text(), "Unknown id");
}

#[test]
fn get_voted_checks_both_sides() {
    let yes = [PollVote(1), PollVote(2)];
    let no = [PollVote(3)];
    assert!(get_voted(1, &yes, &no));
    assert!(get_voted(2, &yes, &no));
    assert!(get_voted(3, &yes, &no));
    assert!(!get_voted(4, &yes, &no));
    assert!(!get_voted(0, &[], &[]));
    assert!(get_voted(u64::MAX, &[], &[PollVote(u64::MAX)]));
}

#[test]
fn string_helpers() {
    assert!(has_prefix("poll_view", "poll_"));
    assert!(has_prefix("abc", ""));
    assert!(!has_prefix("pol", "poll_"));
    assert!(!has_prefix("xpoll_", "poll_"));
    assert!(has_prefix("é_x", "é_"));
    assert!(str_equal("poll_no", "poll_no"));
    assert!(!str_equal("poll_no", "poll_now"));
    assert!(!str_equal("ab", "ba"));
    assert!(str_equal("", ""));
}
