//! The command that the daemon runs after each fetch, read from one line.

use vstd::prelude::*;
use crate::error::{Error, ErrorView};
use crate::text::{
    is_whitespace, lemma_split_cut, lemma_split_first, lemma_split_nonempty, lemma_split_pieces,
    lemma_split_plain, lemma_trim_edges, lemma_trim_nothing, no_whitespace, split, split_words, trim, views,
};

verus! {

/// The words of a command line: the line is trimmed and then cut at every
/// white-space character.
pub open spec fn words(line: Seq<char>) -> Seq<Seq<char>> {
    split(trim(line))
}

/// The program that `line` names: its first word.
pub open spec fn program_of(line: Seq<char>) -> Seq<char> {
    words(line).first()
}

/// The arguments that `line` gives the program: the words after the first.
pub open spec fn arguments_of(line: Seq<char>) -> Seq<Seq<char>> {
    words(line).drop_first()
}

/// The program and its arguments as `line` gives them. A line of fewer than
/// two words names no command.
pub open spec fn command_of(line: Seq<char>) -> Option<(Seq<char>, Seq<Seq<char>>)> {
    if words(line).len() >= 2 {
        Some((program_of(line), arguments_of(line)))
    } else {
        None
    }
}

/// Reads the program and its arguments from one line. A line with a single
/// word, or with none, is refused as `MissingCommand`.
pub fn parse_cmd_args(command: String) -> (parsed: Result<(String, Vec<String>), Error>)
    ensures
        match parsed {
            Ok((cmd, args)) => command_of(command@) == Some((cmd@, views(args@))),
            Err(err) => command_of(command@) is None && err@ == ErrorView::MissingCommand,
        },
{
    let mut args = split_words(command.as_str());
    if args.len() <= 1 {
        return Err(Error::MissingCommand);
    }
    let ghost all = args@;
    let cmd = args.remove(0);
    assert(views(args@) =~= views(all).drop_first());
    Ok((cmd, args))
}

/// Every command that is accepted has a program with a name and at least
/// one argument, and neither the program nor an argument holds white space.
pub proof fn lemma_command_has_program_and_argument(line: Seq<char>)
    ensures
        command_of(line) is Some ==> {
            &&& program_of(line).len() > 0
            &&& no_whitespace(program_of(line))
            &&& arguments_of(line).len() >= 1
            &&& forall|i: int|
                0 <= i < arguments_of(line).len() ==> no_whitespace(#[trigger] arguments_of(line)[i])
        },
{
    lemma_split_nonempty(trim(line));
    lemma_split_pieces(trim(line));
    lemma_trim_edges(line);
    if trim(line).len() > 0 {
        lemma_split_first(trim(line));
    }
    if command_of(line) is Some {
        assert forall|i: int| 0 <= i < arguments_of(line).len() implies no_whitespace(
            #[trigger] arguments_of(line)[i],
        ) by {
            assert(arguments_of(line)[i] == words(line)[i + 1]);
        }
    }
}

/// A line of one word, with white space at most around it, names no
/// command.
pub proof fn lemma_single_word_is_refused(line: Seq<char>)
    requires
        no_whitespace(trim(line)),
    ensures
        command_of(line) is None,
{
    lemma_split_plain(trim(line));
}

/// A line of two words with one white-space character between them names
/// the first as the program and the second as its only argument.
pub proof fn lemma_two_words(program: Seq<char>, gap: char, argument: Seq<char>)
    requires
        program.len() > 0,
        argument.len() > 0,
        no_whitespace(program),
        no_whitespace(argument),
        is_whitespace(gap),
    ensures
        command_of(program.push(gap) + argument) == Some((program, seq![argument])),
{
    let line = program.push(gap) + argument;
    assert(line.first() == program.first());
    assert(line.last() == argument.last());
    lemma_trim_nothing(line);
    lemma_split_plain(program);
    lemma_split_cut(program, gap, argument);
    assert(split(line) =~= seq![program, argument]);
    assert(seq![program, argument].drop_first() =~= seq![argument]);
}

} // verus!
