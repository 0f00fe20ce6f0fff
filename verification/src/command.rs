//! Descriptions of the helper processes that the pipeline has run for it.
use vstd::prelude::*;
use crate::text::owned;

verus! {

/// What becomes of a process's output.
#[derive(Clone, Copy, Debug, PartialEq, Eq, Structural)]
pub enum Streams {
    /// The process shares the caller's terminal: nothing is collected.
    Inherited,
    /// Standard output and standard error are collected.
    Captured,
    /// Standard output is collected, standard error is discarded.
    Quiet,
}

/// A process to run: the program, its arguments, and at most one variable
/// added to the environment of that process alone.
#[derive(Debug)]
pub struct Command {
    pub program: String,
    pub args: Vec<String>,
    pub env: Option<(String, String)>,
    pub streams: Streams,
}

/// The mathematical value of a [`Command`].
pub struct CommandView {
    pub program: Seq<char>,
    pub args: Seq<Seq<char>>,
    pub env: Option<(Seq<char>, Seq<char>)>,
    pub streams: Streams,
}

impl View for Command {
    type V = CommandView;

    open spec fn view(&self) -> CommandView {
        CommandView {
            program: self.program@,
            args: self.args.deep_view(),
            env: match self.env {
                Some((key, value)) => Some((key@, value@)),
                None => None,
            },
            streams: self.streams,
        }
    }
}

impl Command {
    /// The command that runs `program` with `args` and nothing added to its environment.
    pub fn new(program: &str, args: Vec<String>, streams: Streams) -> (c: Command)
        ensures
            c@ == (CommandView {
                program: program@,
                args: args.deep_view(),
                env: None,
                streams,
            }),
    {
        Command { program: owned(program), args, env: None, streams }
    }
}

/// Appends `word` to `args`.
pub fn push_word(args: &mut Vec<String>, word: &str)
    ensures
        final(args).deep_view() == old(args).deep_view().push(word@),
{
    args.push(owned(word));
    assert(args.deep_view() =~= old(args).deep_view().push(word@));
}

/// Appends copies of `words` to `args`, in order.
pub fn push_words(args: &mut Vec<String>, words: &[String])
    ensures
        final(args).deep_view() == old(args).deep_view() + words.deep_view(),
{
    let mut i: usize = 0;
    while i < words.len()
        invariant
            i <= words@.len(),
            args.deep_view() == old(args).deep_view() + words.deep_view().take(i as int),
        decreases words@.len() - i,
    {
        let ghost before = args.deep_view();
        args.push(words[i].clone());
        assert(args.deep_view() =~= before.push(words@[i as int]@));
        assert(words.deep_view().take(i + 1) =~= words.deep_view().take(i as int).push(
            words@[i as int]@,
        ));
        i += 1;
    }
    assert(words.deep_view().take(words@.len() as int) =~= words.deep_view());
}

/// The exit code that a process that ended reports: its own, or -1 where a
/// signal ended it.
pub open spec fn reported_code(code: Option<i32>) -> i32 {
    match code {
        Some(c) => c,
        None => -1i32,
    }
}

/// The code to hand on for a process that ended with `code`.
pub fn exit_code(code: Option<i32>) -> (r: i32)
    ensures
        r == reported_code(code),
{
    match code {
        Some(c) => c,
        None => -1,
    }
}

} // verus!
