//! The command protocol a controller interprets.
//!
//! A command string beginning with `!` names an external program: the
//! remainder after the prefix is split on runs of spaces, the first token
//! is the program, the following tokens are its leading arguments, and the
//! argument list supplied beside the command is passed verbatim after
//! them. Three exact strings are reserved popup directives. Every other
//! string is an invalid command.

use vstd::prelude::*;

verus! {

/// The message a UI element sends to its module's controller.
#[derive(Debug, Clone)]
pub struct ExecEvent {
    pub cmd: String,
    pub args: Option<Vec<String>>,
    pub id: usize,
}

/// A command as the controller understands it.
#[derive(Debug, Clone)]
pub enum Command {
    Execute { program: String, args: Vec<String> },
    TogglePopup,
    OpenPopup,
    ClosePopup,
    Invalid { command: String },
}

/// The mathematical form of a `Command`.
pub enum CommandView {
    Execute { program: Seq<char>, args: Seq<Seq<char>> },
    TogglePopup,
    OpenPopup,
    ClosePopup,
    Invalid { command: Seq<char> },
}

impl View for Command {
    type V = CommandView;

    open spec fn view(&self) -> CommandView {
        match self {
            Command::Execute { program, args } => CommandView::Execute {
                program: program@,
                args: args.deep_view(),
            },
            Command::TogglePopup => CommandView::TogglePopup,
            Command::OpenPopup => CommandView::OpenPopup,
            Command::ClosePopup => CommandView::ClosePopup,
            Command::Invalid { command } => CommandView::Invalid { command: command@ },
        }
    }
}

/// Length of the maximal space-free prefix of `s`.
pub open spec fn token_len(s: Seq<char>) -> nat
    decreases s.len(),
{
    if s.len() == 0 || s[0] == ' ' {
        0
    } else {
        1 + token_len(s.skip(1))
    }
}

proof fn lemma_token_len_le(s: Seq<char>)
    ensures
        token_len(s) <= s.len(),
    decreases s.len(),
{
    if s.len() > 0 && s[0] != ' ' {
        lemma_token_len_le(s.skip(1));
    }
}

/// `s` split on runs of spaces, in order, with no empty tokens.
pub open spec fn split_spaces(s: Seq<char>) -> Seq<Seq<char>>
    decreases s.len(),
    via split_spaces_decreases
{
    if s.len() == 0 {
        Seq::empty()
    } else if s[0] == ' ' {
        split_spaces(s.skip(1))
    } else {
        seq![s.take(token_len(s) as int)] + split_spaces(s.skip(token_len(s) as int))
    }
}

#[via_fn]
proof fn split_spaces_decreases(s: Seq<char>) {
    if s.len() > 0 && s[0] != ' ' {
        lemma_token_len_le(s);
    }
}

/// The maximal space-free prefix of `s` has length `l` exactly when no
/// space stands before position `l` and position `l` is a space or the
/// end.
proof fn lemma_token_len_is(s: Seq<char>, l: int)
    requires
        0 <= l <= s.len(),
        forall|k: int| 0 <= k < l ==> s[k] != ' ',
        l == s.len() || s[l] == ' ',
    ensures
        token_len(s) == l,
    decreases l,
{
    if l == 0 {
    } else {
        assert(s[0] != ' ');
        lemma_token_len_is(s.skip(1), l - 1);
    }
}

/// Compares two strings character by character.
pub fn str_eq(a: &str, b: &str) -> (r: bool)
    ensures
        r == (a@ == b@),
{
    let n = a.unicode_len();
    let m = b.unicode_len();
    if n != m {
        proof {
            assert(a@ != b@) by {
                assert(a@.len() != b@.len());
            }
        }
        return false;
    }
    let mut i: usize = 0;
    while i < n
        invariant
            0 <= i <= n,
            n == a@.len(),
            n == b@.len(),
            forall|j: int| 0 <= j < i ==> a@[j] == b@[j],
        decreases n - i,
    {
        if a.get_char(i) != b.get_char(i) {
            return false;
        }
        i += 1;
    }
    proof {
        assert(a@ =~= b@);
    }
    true
}

/// Splits `s` on runs of spaces into its tokens, in order.
pub fn split_tokens(s: &str) -> (r: Vec<String>)
    ensures
        r.deep_view() == split_spaces(s@),
{
    let n = s.unicode_len();
    let mut out: Vec<String> = Vec::new();
    let mut i: usize = 0;
    proof {
        assert(s@.skip(0) =~= s@);
        assert(out.deep_view() + split_spaces(s@) =~~= split_spaces(s@));
    }
    while i < n
        invariant
            0 <= i <= n,
            n == s@.len(),
            out.deep_view() + split_spaces(s@.skip(i as int)) =~~= split_spaces(s@),
        decreases n - i,
    {
        let ghost prev = out.deep_view();
        if s.get_char(i) == ' ' {
            proof {
                let t = s@.skip(i as int);
                assert(t[0] == ' ');
                assert(t.skip(1) =~= s@.skip(i + 1));
            }
            i += 1;
        } else {
            let mut j: usize = i + 1;
            while j < n && s.get_char(j) != ' '
                invariant
                    i < j <= n,
                    n == s@.len(),
                    forall|k: int| i <= k < j ==> s@[k] != ' ',
                decreases n - j,
            {
                j += 1;
            }
            let tok = s.substring_char(i, j);
            out.push(String::from_str(tok));
            proof {
                let t = s@.skip(i as int);
                lemma_token_len_is(t, j - i);
                assert(t.take(j - i) =~= s@.subrange(i as int, j as int));
                assert(t.skip(j - i) =~= s@.skip(j as int));
                assert(out.deep_view() =~~= prev.push(tok@));
                assert(prev.push(tok@) + split_spaces(s@.skip(j as int)) =~~= prev + (seq![
                    tok@,
                ] + split_spaces(s@.skip(j as int))));
                assert(seq![tok@] + split_spaces(t.skip(token_len(t) as int)) =~~= split_spaces(t));
            }
            i = j;
        }
    }
    proof {
        assert(s@.skip(n as int) =~= Seq::<char>::empty());
        assert(out.deep_view() + split_spaces(s@.skip(n as int)) =~~= out.deep_view());
    }
    out
}

/// What a command string, with its supplied argument list, means.
pub open spec fn command_of(cmd: Seq<char>, args: Seq<Seq<char>>) -> CommandView {
    if cmd.len() > 0 && cmd[0] == '!' {
        let toks = split_spaces(cmd.skip(1));
        if toks.len() > 0 {
            CommandView::Execute { program: toks[0], args: toks.skip(1) + args }
        } else {
            CommandView::Invalid { command: cmd }
        }
    } else if cmd == "popup:toggle"@ {
        CommandView::TogglePopup
    } else if cmd == "popup:open"@ {
        CommandView::OpenPopup
    } else if cmd == "popup:close"@ {
        CommandView::ClosePopup
    } else {
        CommandView::Invalid { command: cmd }
    }
}

/// Interprets a command string: the `!` prefix form names an external
/// program, the three reserved strings are popup directives, anything
/// else is invalid.
pub fn interpret(cmd: &str, args: &Vec<String>) -> (c: Command)
    ensures
        c@ == command_of(cmd@, args.deep_view()),
{
    let n = cmd.unicode_len();
    if n > 0 && cmd.get_char(0) == '!' {
        let rest = cmd.substring_char(1, n);
        proof {
            assert(rest@ =~= cmd@.skip(1));
        }
        let mut toks = split_tokens(rest);
        if toks.len() > 0 {
            let ghost all = toks.deep_view();
            let program = toks.remove(0);
            let ghost embedded = toks.deep_view();
            proof {
                assert(embedded =~~= all.skip(1));
            }
            let mut k: usize = 0;
            while k < args.len()
                invariant
                    0 <= k <= args.len(),
                    toks.deep_view() =~~= embedded + args.deep_view().take(k as int),
                decreases args.len() - k,
            {
                let ghost before = toks.deep_view();
                toks.push(args[k].clone());
                proof {
                    assert(toks.deep_view() =~~= before.push(args.deep_view()[k as int]));
                    assert(before.push(args.deep_view()[k as int]) =~~= embedded
                        + args.deep_view().take(k + 1));
                }
                k += 1;
            }
            proof {
                assert(args.deep_view().take(args.len() as int) =~~= args.deep_view());
                assert(toks.deep_view() =~~= all.skip(1) + args.deep_view());
            }
            Command::Execute { program, args: toks }
        } else {
            Command::Invalid { command: String::from_str(cmd) }
        }
    } else if str_eq(cmd, "popup:toggle") {
        Command::TogglePopup
    } else if str_eq(cmd, "popup:open") {
        Command::OpenPopup
    } else if str_eq(cmd, "popup:close") {
        Command::ClosePopup
    } else {
        Command::Invalid { command: String::from_str(cmd) }
    }
}

} // verus!
