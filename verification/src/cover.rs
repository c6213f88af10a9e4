//! The decisions around a cover file: whether it is resized, and with which
//! command line.

use vstd::prelude::*;
use vstd::string::*;

use crate::config::source_placeholder;
use crate::config::target_placeholder;
use crate::text::replace_all;
use crate::text::replace_text;
use crate::text::split_words;
use crate::text::views;
use crate::text::words;

verus! {

/// Whether a cover of `size` bytes is resized: resizing is switched on and
/// the file is larger than `limit`.
pub open spec fn resize_due(resize_cover: bool, size: u64, limit: u64) -> bool {
    resize_cover && size > limit
}

/// Decides whether a cover of `size` bytes is handed to the resize command.
pub fn needs_resize(resize_cover: bool, size: u64, limit: u64) -> (b: bool)
    ensures
        b == resize_due(resize_cover, size, limit),
{
    resize_cover && size > limit
}

/// A word of the resize command with `path` in place of `{source}` and then
/// of `{target}`.
pub open spec fn substituted(word: Seq<char>, path: Seq<char>) -> Seq<char> {
    replace_all(replace_all(word, source_placeholder(), path), target_placeholder(), path)
}

/// The words of the resize command `command`, each with `path` in place of
/// both placeholders.
pub open spec fn resize_words(command: Seq<char>, path: Seq<char>) -> Seq<Seq<char>> {
    words(command).map_values(|word: Seq<char>| substituted(word, path))
}

/// A program and its arguments.
#[derive(Debug, PartialEq, Eq)]
pub struct CommandLine {
    pub program: String,
    pub arguments: Vec<String>,
}

/// The mathematical value of a [`CommandLine`].
pub struct CommandLineView {
    pub program: Seq<char>,
    pub arguments: Seq<Seq<char>>,
}

impl View for CommandLine {
    type V = CommandLineView;

    open spec fn view(&self) -> CommandLineView {
        CommandLineView { program: self.program@, arguments: views(self.arguments@) }
    }
}

/// The command line that resizes the cover at `path` in place: the resize
/// command split at white space, with `path` put in for `{source}` and for
/// `{target}` in every word. The first word is the program. There is none
/// where the command holds no word.
pub fn resize_command_line(command: &str, path: &str) -> (line: Option<CommandLine>)
    ensures
        line is Some <==> words(command@).len() > 0,
        line matches Some(l) ==> l@.program == resize_words(command@, path@)[0] && l@.arguments
            == resize_words(command@, path@).skip(1),
{
    let parts = split_words(command);
    proof {
        reveal_strlit("{source}");
        reveal_strlit("{target}");
    }
    if parts.len() == 0 {
        return None;
    }
    let ghost all = resize_words(command@, path@);
    let first = replace_text(parts[0].as_str(), "{source}", path);
    let program = replace_text(first.as_str(), "{target}", path);
    assert(views(parts@)[0] == parts@[0]@);
    let mut arguments: Vec<String> = Vec::new();
    let mut i: usize = 1;
    while i < parts.len()
        invariant
            1 <= i <= parts.len(),
            views(parts@) == words(command@),
            all == resize_words(command@, path@),
            views(arguments@) == all.subrange(1, i as int),
            "{source}"@.len() > 0,
            "{target}"@.len() > 0,
        decreases parts.len() - i,
    {
        let first = replace_text(parts[i].as_str(), "{source}", path);
        let word = replace_text(first.as_str(), "{target}", path);
        proof {
            assert(views(parts@)[i as int] == parts@[i as int]@);
            assert(views(arguments@.push(word)) =~= views(arguments@).push(word@));
            assert(all.subrange(1, i + 1) =~= all.subrange(1, i as int).push(word@));
        }
        arguments.push(word);
        i = i + 1;
    }
    assert(all.subrange(1, parts.len() as int) =~= all.skip(1));
    Some(CommandLine { program, arguments })
}

} // verus!
