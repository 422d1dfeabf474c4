//! The dispatcher: shell state and the per-line command decision.
//!
//! Each iteration of the read-eval loop hands one trimmed input line to
//! [`Shell::process_line`], which decides whether the loop goes on and
//! which action the surrounding program must perform: nothing, a working
//! directory change, or the launch of an external command. The loop itself
//! (reading lines, spawning processes, changing directory) lives outside
//! the library and only acts on these decisions.

use vstd::prelude::*;

use crate::tokens::{
    concat_all, is_space, join_tokens, lemma_tokens_nonempty, lemma_views_of_index,
    lemma_views_of_remove_first, lemma_whitespace_only_yields_no_tokens, split_line, tokens_of,
    views_of,
};

verus! {

/// Whether the read-eval loop continues after the current line.
#[derive(Debug, Clone, Copy, PartialEq, Eq, Structural)]
pub enum LoopSignal {
    Continue,
    Exit,
}

/// The action the surrounding program performs for one input line.
#[derive(Debug, PartialEq, Eq)]
pub enum Action {
    /// The line held no command; nothing is dispatched.
    Nothing,
    /// Change the working directory; `path` is the request after the
    /// command name (`None` when `cd` was given no argument), still to be
    /// resolved against the home directory and the current directory.
    ChangeDir { path: Option<String> },
    /// Launch the external command `command` with `args`.
    Launch { command: String, args: Vec<String> },
}

/// The dispatcher's state: the prompt text and the home directory cached
/// at startup. The home directory is never mutated after startup.
pub struct Shell {
    pub prompt: String,
    pub home_dir: Option<String>,
}

impl Default for Shell {
    /// A shell named `lx` with no home directory cached yet.
    fn default() -> (s: Shell)
        ensures
            s.prompt@ == "lx>"@,
            s.home_dir is None,
    {
        Shell { prompt: String::from_str("lx>"), home_dir: None }
    }
}

impl Shell {
    /// Decide what one input line means.
    ///
    /// The line is split on whitespace; an empty split means no action.
    /// The first token selects the command: `exit` ends the loop with
    /// nothing dispatched, `cd` requests a directory change whose path is
    /// the remaining tokens concatenated (none given means `None`), and
    /// any other token names an external command launched with the
    /// remaining tokens as arguments. The state is never written, so every
    /// branch is free of side effects on it.
    pub fn process_line(&self, line: &str) -> (r: (LoopSignal, Action))
        ensures
            ({
                let t = tokens_of(line@);
                &&& (forall|i: int| 0 <= i < line@.len() ==> is_space(#[trigger] line@[i])) ==> r
                    == (LoopSignal::Continue, Action::Nothing)
                &&& t.len() == 0 ==> r == (LoopSignal::Continue, Action::Nothing)
                &&& t.len() > 0 && t[0] == "exit"@ ==> r == (LoopSignal::Exit, Action::Nothing)
                &&& t.len() > 0 && t[0] == "cd"@ ==> {
                    &&& r.0 == LoopSignal::Continue
                    &&& t.len() == 1 ==> r.1 == (Action::ChangeDir { path: None })
                    &&& t.len() > 1 ==> (r.1 matches Action::ChangeDir { path } && path
                        matches Some(p) && p@ == concat_all(t.skip(1)) && p@.len() > 0)
                }
                &&& t.len() > 0 && t[0] != "exit"@ && t[0] != "cd"@ ==> {
                    &&& r.0 == LoopSignal::Continue
                    &&& (r.1 matches Action::Launch { command, args } && command@ == t[0]
                        && views_of(args@) == t.skip(1))
                }
            }),
    {
        proof {
            if forall|i: int| 0 <= i < line@.len() ==> is_space(#[trigger] line@[i]) {
                lemma_whitespace_only_yields_no_tokens(line@);
            }
        }
        let mut tokens = split_line(line);
        if tokens.len() == 0 {
            return (LoopSignal::Continue, Action::Nothing);
        }
        let ghost t = tokens_of(line@);
        proof {
            reveal_strlit("exit");
            reveal_strlit("cd");
            assert("exit"@.len() == 4);
            assert("cd"@.len() == 2);
            lemma_views_of_index(tokens@, 0);
            lemma_views_of_remove_first(tokens@);
        }
        let command = tokens.remove(0);
        let exit_word = String::from_str("exit");
        let cd_word = String::from_str("cd");
        if command.eq(&exit_word) {
            (LoopSignal::Exit, Action::Nothing)
        } else if command.eq(&cd_word) {
            if tokens.len() == 0 {
                proof {
                    assert(t.len() == 1);
                }
                (LoopSignal::Continue, Action::ChangeDir { path: None })
            } else {
                let joined = join_tokens(&tokens);
                proof {
                    lemma_tokens_nonempty(line@);
                    assert(t.skip(1)[0] == t[1]);
                    assert(t.skip(1).skip(1) =~= t.skip(2));
                    assert(concat_all(t.skip(1)) == t[1] + concat_all(t.skip(2)));
                    assert(joined@.len() > 0);
                }
                (LoopSignal::Continue, Action::ChangeDir { path: Some(joined) })
            }
        } else {
            (LoopSignal::Continue, Action::Launch { command, args: tokens })
        }
    }
}

/// Parse one non-blank input line into the external command it names and
/// that command's arguments: the first whitespace-separated token and the
/// remaining tokens in order.
pub fn launch_cmd(input: String) -> (r: (String, Vec<String>))
    requires
        tokens_of(input@).len() > 0,
    ensures
        r.0@ == tokens_of(input@)[0],
        views_of(r.1@) == tokens_of(input@).skip(1),
{
    let mut tokens = split_line(input.as_str());
    let ghost t = tokens_of(input@);
    proof {
        lemma_views_of_index(tokens@, 0);
        lemma_views_of_remove_first(tokens@);
    }
    let command = tokens.remove(0);
    (command, tokens)
}

} // verus!
