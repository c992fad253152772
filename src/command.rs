use vstd::prelude::*;

verus! {

/// The error that `shell_words::split` reports for an unterminated quote or escape.
#[verifier::external_type_specification]
#[verifier::external_body]
pub struct ExParseError(shell_words::ParseError);

/// The words that POSIX-style shell splitting yields for a command line, or
/// `None` where the line is malformed.
pub uninterp spec fn shell_words_of(line: Seq<char>) -> Option<Seq<Seq<char>>>;

/// The view of a list of owned strings as a sequence of character sequences.
pub open spec fn words_view(v: Seq<String>) -> Seq<Seq<char>> {
    v.map_values(|w: String| w@)
}

/// Relies on `shell_words::split`: the result depends on the line alone, and
/// an empty line splits into no words.
#[verifier::external_body]
fn split_line(line: &str) -> (r: Result<Vec<String>, shell_words::ParseError>)
    ensures
        r is Ok <==> shell_words_of(line@) is Some,
        r is Ok ==> words_view(r->Ok_0@) == shell_words_of(line@)->Some_0,
        line@.len() == 0 ==> r is Ok && r->Ok_0@.len() == 0,
{
    shell_words::split(line)
}

/// An executable name and its ordered argument list.
pub struct ParsedCommand {
    pub cmd: String,
    pub args: Vec<String>,
}

impl ParsedCommand {
    /// The whole command as a word list: the executable, then its arguments.
    pub open spec fn words(&self) -> Seq<Seq<char>> {
        seq![self.cmd@] + words_view(self.args@)
    }
}

/// Why a command line cannot be run.
pub enum CommandError {
    /// The line has an unterminated quote or escape.
    Malformed(shell_words::ParseError),
    /// The line holds no word at all.
    Empty,
}

/// What parsing a command line yields, given the words it splits into.
pub open spec fn parse_outcome(words: Option<Seq<Seq<char>>>) -> Option<Option<Seq<Seq<char>>>> {
    match words {
        None => None,
        Some(ws) => if ws.len() == 0 { Some(None) } else { Some(Some(ws)) },
    }
}

/// Splits a shell-style command line into an executable and its arguments.
pub fn parse_command(run: &str) -> (r: Result<ParsedCommand, CommandError>)
    ensures
        shell_words_of(run@) is None <==> r matches Err(CommandError::Malformed(_)),
        (shell_words_of(run@) is Some && shell_words_of(run@)->Some_0.len() == 0)
            <==> r matches Err(CommandError::Empty),
        r is Ok ==> r->Ok_0.words() == shell_words_of(run@)->Some_0,
{
    match split_line(run) {
        Err(e) => Err(CommandError::Malformed(e)),
        Ok(parts) => {
            if parts.len() == 0 {
                return Err(CommandError::Empty);
            }
            let mut parts = parts;
            let ghost all = parts@;
            let cmd = parts.remove(0);
            proof {
                assert(words_view(all) =~= seq![cmd@] + words_view(parts@));
            }
            Ok(ParsedCommand { cmd, args: parts })
        },
    }
}

} // verus!
