//! The command-line formatter: renders the full invocation as one display
//! string for logging and audit. The rendered line is never parsed back or
//! executed — the real execution always uses the structural argument vector
//! built in `bridge`.

use vstd::prelude::*;

use crate::paths::{render_view, DirPath};
use crate::text::{lemma_views_of_push, push_char, views_of};

verus! {

/// A character that forces a token to be quoted in the rendered line.
pub open spec fn is_special(c: char) -> bool {
    c == ' ' || c == '"' || c == '\''
}

/// Whether a token needs quoting: it contains a space or a quote character.
pub open spec fn needs_quoting(token: Seq<char>) -> bool {
    exists|i: int| 0 <= i < token.len() && is_special(token[i])
}

/// One character of a quoted token: a double quote gains a backslash prefix,
/// everything else passes unchanged.
pub open spec fn escaped_char(c: char) -> Seq<char> {
    if c == '"' {
        seq!['\\', '"']
    } else {
        seq![c]
    }
}

/// The token with every embedded double quote backslash-escaped.
pub open spec fn escape_quotes(token: Seq<char>) -> Seq<char>
    decreases token.len(),
{
    if token.len() == 0 {
        Seq::empty()
    } else {
        escape_quotes(token.drop_last()) + escaped_char(token.last())
    }
}

/// How one token appears in the rendered command line: wrapped in double
/// quotes with embedded double quotes escaped when it holds a space or a
/// quote character, bare and unchanged otherwise.
pub open spec fn quote_view(token: Seq<char>) -> Seq<char> {
    if needs_quoting(token) {
        seq!['"'] + escape_quotes(token) + seq!['"']
    } else {
        token
    }
}

/// The tokens joined with single spaces.
pub open spec fn space_join(tokens: Seq<Seq<char>>) -> Seq<char>
    decreases tokens.len(),
{
    if tokens.len() == 0 {
        Seq::empty()
    } else if tokens.len() == 1 {
        tokens[0]
    } else {
        space_join(tokens.drop_last()) + seq![' '] + tokens.last()
    }
}

/// Every token of the full invocation, in order and unquoted: the fixed
/// launcher tokens, the rendered project path, the separator, the command
/// name, then each argument.
pub open spec fn command_tokens(
    project_path: Seq<Seq<char>>,
    command: Seq<char>,
    args: Seq<Seq<char>>,
) -> Seq<Seq<char>> {
    seq!["dotnet"@, "run"@, "--project"@, render_view(project_path), "--"@, command] + args
}

/// The rendered command line: every token quoted as [`quote_view`] says, the
/// results joined with single spaces.
pub open spec fn command_line_view(
    project_path: Seq<Seq<char>>,
    command: Seq<char>,
    args: Seq<Seq<char>>,
) -> Seq<char> {
    space_join(command_tokens(project_path, command, args).map_values(|t: Seq<char>| quote_view(t)))
}

/// Quotes one token for display: wraps it in double quotes and escapes
/// embedded double quotes when it holds a space or a quote character, returns
/// it unchanged otherwise.
pub fn quote_arg(value: &str) -> (r: String)
    ensures
        r@ == quote_view(value@),
{
    let n = value.unicode_len();
    let mut i: usize = 0;
    let mut special: bool = false;
    while i < n
        invariant
            n == value@.len(),
            i <= n,
            special == exists|j: int| 0 <= j < i && is_special(value@[j]),
        decreases n - i,
    {
        let c = value.get_char(i);
        if c == ' ' || c == '"' || c == '\'' {
            special = true;
        }
        i += 1;
    }
    if !special {
        return String::from_str(value);
    }
    let mut r = String::new();
    push_char(&mut r, '"');
    proof {
        assert(r@ =~= seq!['"'] + escape_quotes(value@.take(0)));
    }
    let mut i: usize = 0;
    while i < n
        invariant
            n == value@.len(),
            i <= n,
            r@ == seq!['"'] + escape_quotes(value@.take(i as int)),
        decreases n - i,
    {
        let c = value.get_char(i);
        if c == '"' {
            push_char(&mut r, '\\');
            push_char(&mut r, '"');
        } else {
            push_char(&mut r, c);
        }
        proof {
            assert(value@.take(i + 1).drop_last() =~= value@.take(i as int));
            assert(value@.take(i + 1).last() == value@[i as int]);
            assert(r@ =~= seq!['"'] + escape_quotes(value@.take(i + 1)));
        }
        i += 1;
    }
    push_char(&mut r, '"');
    proof {
        assert(value@.take(n as int) =~= value@);
        assert(r@ =~= seq!['"'] + escape_quotes(value@) + seq!['"']);
    }
    r
}

/// Builds the single display string for the full invocation: fixed launcher
/// tokens, project path, separator, command, then each argument, each token
/// quoted as needed and all joined with single spaces.
pub fn format_command_line(project_path: &DirPath, command: &str, args: &Vec<String>) -> (r: String)
    ensures
        r@ == command_line_view(project_path@, command@, views_of(args@)),
{
    let mut parts: Vec<String> = Vec::new();
    parts.push(String::from_str("dotnet"));
    parts.push(String::from_str("run"));
    parts.push(String::from_str("--project"));
    parts.push(project_path.render());
    parts.push(String::from_str("--"));
    parts.push(String::from_str(command));
    let mut i: usize = 0;
    while i < args.len()
        invariant
            i <= args.len(),
            views_of(parts@) =~= command_tokens(project_path@, command@, views_of(args@)).take(
                6 + i,
            ),
        decreases args.len() - i,
    {
        let ghost prev = parts@;
        parts.push(args[i].clone());
        proof {
            let toks = command_tokens(project_path@, command@, views_of(args@));
            lemma_views_of_push(prev, args@[i as int]);
            assert(views_of(args@)[i as int] == args@[i as int]@);
            assert(toks[6 + i] == views_of(args@)[i as int]);
            assert(toks.take(6 + i + 1) =~= toks.take(6 + i).push(toks[6 + i]));
            assert(views_of(parts@) =~= toks.take(6 + i + 1));
        }
        i += 1;
    }
    proof {
        assert(command_tokens(project_path@, command@, views_of(args@)).take(6 + args@.len() as int)
            =~= command_tokens(project_path@, command@, views_of(args@)));
    }
    let quoted_all = Ghost(
        command_tokens(project_path@, command@, views_of(args@)).map_values(
            |t: Seq<char>| quote_view(t),
        ),
    );
    let mut r = quote_arg(parts[0].as_str());
    proof {
        assert(quoted_all@.take(1) =~= seq![quoted_all@[0]]);
        assert(r@ == space_join(quoted_all@.take(1)));
    }
    let mut i: usize = 1;
    while i < parts.len()
        invariant
            1 <= i <= parts.len(),
            views_of(parts@) =~= command_tokens(project_path@, command@, views_of(args@)),
            quoted_all@ == command_tokens(project_path@, command@, views_of(args@)).map_values(
                |t: Seq<char>| quote_view(t),
            ),
            r@ == space_join(quoted_all@.take(i as int)),
        decreases parts.len() - i,
    {
        r.append(" ");
        let q = quote_arg(parts[i].as_str());
        r.append(q.as_str());
        proof {
            reveal_strlit(" ");
            assert(" "@ =~= seq![' ']);
            assert(quoted_all@.take(i + 1).drop_last() =~= quoted_all@.take(i as int));
            assert(quoted_all@.take(i + 1).last() == quote_view(views_of(parts@)[i as int]));
            assert(r@ =~= space_join(quoted_all@.take(i + 1)));
        }
        i += 1;
    }
    proof {
        assert(quoted_all@.take(parts@.len() as int) =~= quoted_all@);
    }
    r
}

} // verus!

