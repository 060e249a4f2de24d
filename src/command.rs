//! The interactive commands: what a line typed by the user asks for.
use vstd::prelude::*;
use crate::text::{
    chars_of, drop_chars, has_prefix, lowercase_of, same_text, split_words, starts_with,
    to_lower, trim_str, trimmed, words,
};

verus! {

/// The longest accepted input line, in characters.
pub const MAX_LINE_CHARS: usize = 512;

/// The description of a proposal made without one.
pub open spec fn default_description() -> Seq<char> {
    "Enable secure-only messaging for all future communications"@
}

/// A command typed by the user.
#[derive(Debug)]
pub enum Command {
    /// A blank line.
    Empty,
    /// A line over `MAX_LINE_CHARS` characters.
    TooLong,
    Quit,
    List,
    Crypto,
    Propose(String),
    Vote(String, bool),
    /// `/vote` without exactly two arguments.
    VoteUsage,
    /// `/vote` with a word that is neither an approval nor a rejection.
    VoteInvalid,
    Proposals,
    Status,
    Unsigned(String),
    /// Any other line: a message to send signed.
    Send(String),
}

/// A command as mathematical values.
pub enum CommandView {
    Empty,
    TooLong,
    Quit,
    List,
    Crypto,
    Propose(Seq<char>),
    Vote(Seq<char>, bool),
    VoteUsage,
    VoteInvalid,
    Proposals,
    Status,
    Unsigned(Seq<char>),
    Send(Seq<char>),
}

impl View for Command {
    type V = CommandView;

    open spec fn view(&self) -> CommandView {
        match self {
            Command::Empty => CommandView::Empty,
            Command::TooLong => CommandView::TooLong,
            Command::Quit => CommandView::Quit,
            Command::List => CommandView::List,
            Command::Crypto => CommandView::Crypto,
            Command::Propose(d) => CommandView::Propose(d@),
            Command::Vote(p, a) => CommandView::Vote(p@, *a),
            Command::VoteUsage => CommandView::VoteUsage,
            Command::VoteInvalid => CommandView::VoteInvalid,
            Command::Proposals => CommandView::Proposals,
            Command::Status => CommandView::Status,
            Command::Unsigned(t) => CommandView::Unsigned(t@),
            Command::Send(t) => CommandView::Send(t@),
        }
    }
}

/// The position of the first space in `s` at or after `i`, else `s.len()`.
pub open spec fn space_from(s: Seq<char>, i: int) -> int
    decreases s.len() - i,
{
    if i >= s.len() || i < 0 {
        s.len() as int
    } else if s[i] == ' ' {
        i
    } else {
        space_from(s, i + 1)
    }
}

/// The command word of a line: up to its first space.
pub open spec fn head_of(s: Seq<char>) -> Seq<char> {
    s.subrange(0, space_from(s, 0))
}

/// The arguments of a line: after its first space, or nothing.
pub open spec fn args_of(s: Seq<char>) -> Seq<char> {
    if space_from(s, 0) < s.len() {
        s.subrange(space_from(s, 0) + 1, s.len() as int)
    } else {
        Seq::empty()
    }
}

/// What a lower-cased vote word means: an approval, a rejection, or neither.
pub open spec fn vote_meaning(w: Seq<char>) -> Option<bool> {
    if w == "approve"@ || w == "yes"@ || w == "true"@ || w == "1"@ {
        Some(true)
    } else if w == "reject"@ || w == "no"@ || w == "false"@ || w == "0"@ {
        Some(false)
    } else {
        None
    }
}

/// The `/vote` command for its arguments.
pub open spec fn vote_command(args: Seq<char>) -> CommandView {
    let ws = words(args);
    if ws.len() != 2 {
        CommandView::VoteUsage
    } else {
        match vote_meaning(lowercase_of(ws[1])) {
            Some(a) => CommandView::Vote(ws[0], a),
            None => CommandView::VoteInvalid,
        }
    }
}

/// The command that a line asks for.
pub open spec fn command_of(line: Seq<char>) -> CommandView {
    let input = trimmed(line);
    let head = head_of(input);
    let args = args_of(input);
    if input.len() == 0 {
        CommandView::Empty
    } else if input.len() > MAX_LINE_CHARS {
        CommandView::TooLong
    } else if head == "/quit"@ {
        CommandView::Quit
    } else if head == "/list"@ {
        CommandView::List
    } else if head == "/crypto"@ {
        CommandView::Crypto
    } else if head == "/propose"@ {
        CommandView::Propose(
            if args.len() == 0 {
                default_description()
            } else {
                args
            },
        )
    } else if head == "/vote"@ {
        vote_command(args)
    } else if head == "/proposals"@ {
        CommandView::Proposals
    } else if head == "/status"@ {
        CommandView::Status
    } else if head == "/unsigned"@ {
        CommandView::Unsigned(args)
    } else if has_prefix(input, "/msg "@) {
        CommandView::Send(input.subrange(5, input.len() as int))
    } else {
        CommandView::Send(input)
    }
}

/// What a lower-cased vote word means.
pub fn parse_vote_word(lowered: &str) -> (r: Option<bool>)
    ensures
        r == vote_meaning(lowered@),
{
    if same_text(lowered, "approve") || same_text(lowered, "yes") || same_text(lowered, "true")
        || same_text(lowered, "1") {
        Some(true)
    } else if same_text(lowered, "reject") || same_text(lowered, "no") || same_text(
        lowered,
        "false",
    ) || same_text(lowered, "0") {
        Some(false)
    } else {
        None
    }
}

/// The `/vote` command for its arguments.
pub fn parse_vote(args: &str) -> (r: Command)
    ensures
        r@ == vote_command(args@),
{
    let ws = split_words(args);
    if ws.len() != 2 {
        return Command::VoteUsage;
    }
    let lowered = to_lower(ws[1].as_str());
    match parse_vote_word(lowered.as_str()) {
        Some(a) => Command::Vote(ws[0].clone(), a),
        None => Command::VoteInvalid,
    }
}

/// Splits `s` at its first space into the command word and the arguments.
pub fn split_head(s: &str) -> (r: (String, String))
    ensures
        r.0@ == head_of(s@),
        r.1@ == args_of(s@),
{
    let cs = chars_of(s);
    let n = cs.len();
    let mut k: usize = 0;
    while k < n && cs[k] != ' '
        invariant
            cs@ == s@,
            n == s@.len(),
            k <= n,
            space_from(s@, 0) == space_from(s@, k as int),
        decreases n - k,
    {
        k = k + 1;
    }
    let head = String::from_str(s.substring_char(0, k));
    let args = if k < n {
        String::from_str(s.substring_char(k + 1, n))
    } else {
        String::new()
    };
    (head, args)
}

/// The command that a line typed by the user asks for.
pub fn parse_command(line: &str) -> (r: Command)
    ensures
        r@ == command_of(line@),
{
    let input = trim_str(line);
    let n = input.unicode_len();
    if n == 0 {
        return Command::Empty;
    }
    if n > MAX_LINE_CHARS {
        return Command::TooLong;
    }
    let (head, args) = split_head(input);
    let h = head.as_str();
    if same_text(h, "/quit") {
        Command::Quit
    } else if same_text(h, "/list") {
        Command::List
    } else if same_text(h, "/crypto") {
        Command::Crypto
    } else if same_text(h, "/propose") {
        if args.as_str().unicode_len() == 0 {
            Command::Propose(
                String::from_str("Enable secure-only messaging for all future communications"),
            )
        } else {
            Command::Propose(args)
        }
    } else if same_text(h, "/vote") {
        parse_vote(args.as_str())
    } else if same_text(h, "/proposals") {
        Command::Proposals
    } else if same_text(h, "/status") {
        Command::Status
    } else if same_text(h, "/unsigned") {
        Command::Unsigned(args)
    } else if starts_with(input, "/msg ") {
        proof {
            reveal_strlit("/msg ");
        }
        Command::Send(drop_chars(input, 5))
    } else {
        Command::Send(String::from_str(input))
    }
}

} // verus!
