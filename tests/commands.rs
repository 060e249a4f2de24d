use p2p_chat::command::{parse_command, parse_vote_word, Command};

#[test]
fn simple_commands() {
    assert!(matches!(parse_command("/quit"), Command::Quit));
    assert!(matches!(parse_command("  /list \n"), Command::List));
    assert!(matches!(parse_command("/crypto"), Command::Crypto));
    assert!(matches!(parse_command("/proposals"), Command::Proposals));
    assert!(matches!(parse_command("/status"), Command::Status));
    assert!(matches!(parse_command(""), Command::Empty));
    assert!(matches!(parse_command(" \t "), Command::Empty));
}

#[test]
fn line_length_limit() {
    assert!(matches!(parse_command(&"x".repeat(513)), Command::TooLong));
    assert!(matches!(parse_command(&"x".repeat(512)), Command::Send(s) if s.len() == 512));
    assert!(matches!(parse_command(&format!("  {}  ", "é".repeat(512))), Command::Send(_)));
}

#[test]
fn propose_with_and_without_description() {
    assert!(matches!(parse_command("/propose"), Command::Propose(d) if d == "Enable secure-only messaging for all future communications"));
    assert!(matches!(parse_command("/propose lock it down"), Command::Propose(d) if d == "lock it down"));
}

#[test]
fn vote_arguments() {
    assert!(matches!(parse_command("/vote abc YES"), Command::Vote(p, true) if p == "abc"));
    assert!(matches!(parse_command("/vote  x   0 "), Command::Vote(p, false) if p == "x"));
    assert!(matches!(parse_command("/vote abc Approve"), Command::Vote(_, true)));
    assert!(matches!(parse_command("/vote abc REJECT"), Command::Vote(_, false)));
    assert!(matches!(parse_command("/vote abc nope"), Command::VoteInvalid));
    assert!(matches!(parse_command("/vote abc"), Command::VoteUsage));
    assert!(matches!(parse_command("/vote a b c"), Command::VoteUsage));
    assert!(matches!(parse_command("/vote"), Command::VoteUsage));
    assert_eq!(parse_vote_word("approve"), Some(true));
    assert_eq!(parse_vote_word("1"), Some(true));
    assert_eq!(parse_vote_word("no"), Some(false));
    assert_eq!(parse_vote_word("APPROVE"), None);
}

#[test]
fn messages() {
    assert!(matches!(parse_command("/unsigned hi there"), Command::Unsigned(t) if t == "hi there"));
    assert!(matches!(parse_command("/unsigned"), Command::Unsigned(t) if t.is_empty()));
    assert!(matches!(parse_command("/msg hello"), Command::Send(t) if t == "hello"));
    assert!(matches!(parse_command("hello world"), Command::Send(t) if t == "hello world"));
    assert!(matches!(parse_command("/msg"), Command::Send(t) if t == "/msg"));
    assert!(matches!(parse_command("/other x"), Command::Send(t) if t == "/other x"));
}
