//! The command line of the animation: a program and its arguments.

use vstd::prelude::*;

verus! {

/// The words that `str::split_whitespace` yields for a text, in order.
pub uninterp spec fn whitespace_words(text: Seq<char>) -> Seq<Seq<char>>;

/// The texts of a list.
pub open spec fn texts(list: Vec<String>) -> Seq<Seq<char>> {
    Seq::new(list@.len(), |i: int| list@[i]@)
}

/// Calls `str::split_whitespace` and copies each word it yields. The contract
/// says that the copies are those words, in order: they depend on the text alone.
#[verifier::external_body]
fn split_whitespace(text: &str) -> (words: Vec<String>)
    ensures
        texts(words) == whitespace_words(text@),
{
    text.split_whitespace().map(String::from).collect()
}

/// A program to run and the arguments to hand to it.
#[derive(Debug, PartialEq, Eq)]
pub struct CommandLine {
    pub program: String,
    pub args: Vec<String>,
}

impl CommandLine {
    /// Whether the command line is made of the given words: the first is the
    /// program, the others are its arguments.
    pub open spec fn is_made_of(self, words: Seq<Seq<char>>) -> bool {
        &&& words.len() > 0
        &&& self.program@ == words[0]
        &&& texts(self.args) == words.subrange(1, words.len() as int)
    }

    /// The command line that the words make; none without a word.
    pub fn from_words(words: Vec<String>) -> (command: Option<CommandLine>)
        ensures
            command is Some <==> words@.len() > 0,
            command matches Some(line) ==> line.is_made_of(texts(words)),
    {
        let mut words = words;
        if words.len() == 0 {
            None
        } else {
            let ghost all = texts(words);
            let program = words.remove(0);
            assert(texts(words) =~= all.subrange(1, all.len() as int));
            Some(CommandLine { program, args: words })
        }
    }
}

/// Takes a configured command apart at its white space. A text without a
/// word asks for no animation.
pub fn parse_command(text: &str) -> (command: Option<CommandLine>)
    ensures
        command is Some <==> whitespace_words(text@).len() > 0,
        command matches Some(line) ==> line.is_made_of(whitespace_words(text@)),
{
    CommandLine::from_words(split_whitespace(text))
}

} // verus!
