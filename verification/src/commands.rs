//! The local command surface: lines that start with `/`.

use vstd::prelude::*;
use crate::actions::Action;
use crate::session::{command_step, Session};
use crate::text::{join_from, joined, str_eq};

verus! {

/// The successive matches of a regular expression in a text, as the `regex`
/// crate finds them, or `None` where the expression does not compile.
pub uninterp spec fn regex_matches(pattern: Seq<char>, haystack: Seq<char>) -> Option<
    Seq<Seq<char>>,
>;

/// Compiles `pattern` with `regex::Regex::new` and collects the text of each
/// match that `Regex::find_iter` yields in `haystack`, in order; `None` where
/// the pattern is refused. Nothing is claimed but that the outcome depends on
/// the two texts alone.
#[verifier::external_body]
fn find_matches(pattern: &str, haystack: &str) -> (found: Option<Vec<String>>)
    ensures
        found.deep_view() == regex_matches(pattern@, haystack@),
{
    match regex::Regex::new(pattern) {
        Ok(re) => Some(re.find_iter(haystack).map(|m| m.as_str().to_string()).collect()),
        Err(_) => None,
    }
}

/// The expression that a command line is cut by: a token is a stretch in
/// double quotes, or else a run of characters that are not white space.
pub open spec fn token_pattern() -> Seq<char> {
    "\"([^\"]*)\"|\\S+"@
}

/// The tokens that a search result amounts to: none where there is no result.
pub open spec fn tokens_of(found: Option<Seq<Seq<char>>>) -> Seq<Seq<char>> {
    match found {
        Some(tokens) => tokens,
        None => Seq::empty(),
    }
}

/// The tokens of a command line.
pub open spec fn command_tokens(line: Seq<char>) -> Seq<Seq<char>> {
    tokens_of(regex_matches(token_pattern(), line))
}

/// The tokens that a search result amounts to.
pub fn collect_tokens(found: Option<Vec<String>>) -> (tokens: Vec<String>)
    ensures
        tokens.deep_view() == tokens_of(found.deep_view()),
{
    match found {
        Some(tokens) => tokens,
        None => {
            let tokens: Vec<String> = Vec::new();
            tokens
        },
    }
}

/// Cuts a line into tokens. A quoted stretch is one token, quotes included.
pub fn split_string(input: &str) -> (tokens: Vec<String>)
    ensures
        tokens.deep_view() == command_tokens(input@),
{
    collect_tokens(find_matches("\"([^\"]*)\"|\\S+", input))
}

/// The commands that take arguments.
#[derive(Debug, Clone, Copy, PartialEq, Eq, Structural)]
pub enum Verb {
    Nickname,
    Join,
    RequestFile,
    Message,
}

/// A command line, read.
#[derive(Debug, PartialEq, Eq)]
pub enum Command {
    /// The line held no token.
    Empty,
    Help,
    Peers,
    Id,
    Topic,
    Topics,
    Nickname(String),
    Join(String),
    RequestFile { peer: String, filename: String },
    Message { peer: String, text: String },
    /// A command that lacks an argument it needs.
    Incomplete(Verb),
    /// A first token that names no command.
    Unknown,
}

pub enum CommandView {
    Empty,
    Help,
    Peers,
    Id,
    Topic,
    Topics,
    Nickname(Seq<char>),
    Join(Seq<char>),
    RequestFile { peer: Seq<char>, filename: Seq<char> },
    Message { peer: Seq<char>, text: Seq<char> },
    Incomplete(Verb),
    Unknown,
}

impl View for Command {
    type V = CommandView;

    open spec fn view(&self) -> CommandView {
        match self {
            Command::Empty => CommandView::Empty,
            Command::Help => CommandView::Help,
            Command::Peers => CommandView::Peers,
            Command::Id => CommandView::Id,
            Command::Topic => CommandView::Topic,
            Command::Topics => CommandView::Topics,
            Command::Nickname(name) => CommandView::Nickname(name@),
            Command::Join(topic) => CommandView::Join(topic@),
            Command::RequestFile { peer, filename } => CommandView::RequestFile {
                peer: peer@,
                filename: filename@,
            },
            Command::Message { peer, text } => CommandView::Message { peer: peer@, text: text@ },
            Command::Incomplete(verb) => CommandView::Incomplete(*verb),
            Command::Unknown => CommandView::Unknown,
        }
    }
}

/// The command that a sequence of tokens denotes. The first token names the
/// command; tokens beyond those a command takes are ignored, but for `/msg`,
/// whose text is all the tokens after the peer, joined by single spaces.
pub open spec fn parse_tokens(tokens: Seq<Seq<char>>) -> CommandView {
    if tokens.len() == 0 {
        CommandView::Empty
    } else if tokens[0] == "/help"@ {
        CommandView::Help
    } else if tokens[0] == "/peers"@ {
        CommandView::Peers
    } else if tokens[0] == "/nickname"@ {
        if tokens.len() >= 2 {
            CommandView::Nickname(tokens[1])
        } else {
            CommandView::Incomplete(Verb::Nickname)
        }
    } else if tokens[0] == "/id"@ {
        CommandView::Id
    } else if tokens[0] == "/join"@ {
        if tokens.len() >= 2 {
            CommandView::Join(tokens[1])
        } else {
            CommandView::Incomplete(Verb::Join)
        }
    } else if tokens[0] == "/topic"@ {
        CommandView::Topic
    } else if tokens[0] == "/topics"@ {
        CommandView::Topics
    } else if tokens[0] == "/requestfile"@ {
        if tokens.len() >= 3 {
            CommandView::RequestFile { peer: tokens[1], filename: tokens[2] }
        } else {
            CommandView::Incomplete(Verb::RequestFile)
        }
    } else if tokens[0] == "/msg"@ {
        if tokens.len() >= 2 {
            CommandView::Message {
                peer: tokens[1],
                text: joined(tokens.subrange(2, tokens.len() as int), " "@),
            }
        } else {
            CommandView::Incomplete(Verb::Message)
        }
    } else {
        CommandView::Unknown
    }
}

/// Reads the command that the tokens of a line denote.
pub fn parse_command(args: &Vec<String>) -> (command: Command)
    ensures
        command@ == parse_tokens(args.deep_view()),
{
    let ghost tokens = args.deep_view();
    if args.len() == 0 {
        return Command::Empty;
    }
    let verb = args[0].as_str();
    if str_eq(verb, "/help") {
        Command::Help
    } else if str_eq(verb, "/peers") {
        Command::Peers
    } else if str_eq(verb, "/nickname") {
        if args.len() >= 2 {
            Command::Nickname(args[1].clone())
        } else {
            Command::Incomplete(Verb::Nickname)
        }
    } else if str_eq(verb, "/id") {
        Command::Id
    } else if str_eq(verb, "/join") {
        if args.len() >= 2 {
            Command::Join(args[1].clone())
        } else {
            Command::Incomplete(Verb::Join)
        }
    } else if str_eq(verb, "/topic") {
        Command::Topic
    } else if str_eq(verb, "/topics") {
        Command::Topics
    } else if str_eq(verb, "/requestfile") {
        if args.len() >= 3 {
            Command::RequestFile { peer: args[1].clone(), filename: args[2].clone() }
        } else {
            Command::Incomplete(Verb::RequestFile)
        }
    } else if str_eq(verb, "/msg") {
        if args.len() >= 2 {
            Command::Message { peer: args[1].clone(), text: join_from(args, 2, " ") }
        } else {
            Command::Incomplete(Verb::Message)
        }
    } else {
        Command::Unknown
    }
}

/// Carries out the command that `line` holds, against the session's state.
pub fn handle_command(line: &str, session: &mut Session) -> (actions: Vec<Action>)
    ensures
        (final(session)@, actions.deep_view()) == command_step(
            old(session)@,
            parse_tokens(command_tokens(line@)),
        ),
{
    let tokens = split_string(line);
    session.run_command(parse_command(&tokens))
}

} // verus!
