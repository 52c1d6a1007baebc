use vstd::prelude::*;
use crate::config::{
    cluster_from, default_column, default_table, exit_status, initial_draft, is_cluster,
    long_flag, parse_args, parse_from, short_flag, ConfigView, Flag, ParseError,
};

verus! {

/// A text that is read as a positional argument: it does not start with a dash.
pub open spec fn is_plain(t: Seq<char>) -> bool {
    t.len() == 0 || t[0] != '-'
}

/// No option name is a plain text.
proof fn lemma_plain_is_no_option(t: Seq<char>)
    requires
        is_plain(t),
    ensures
        long_flag(t) is None,
        !is_cluster(t),
{
    reveal_strlit("--column");
    reveal_strlit("--table");
    reveal_strlit("--search");
    reveal_strlit("--replace");
    reveal_strlit("--no-prompt");
    reveal_strlit("--help");
    if t.len() > 0 {
        assert(t[0] != "--column"@[0]);
        assert(t[0] != "--table"@[0]);
        assert(t[0] != "--search"@[0]);
        assert(t[0] != "--replace"@[0]);
        assert(t[0] != "--no-prompt"@[0]);
        assert(t[0] != "--help"@[0]);
    }
}

/// A search text, a replacement text and the path of an existing file, in that
/// order and none starting with a dash, give a configuration that holds exactly
/// those values, the default table and column, and asks for confirmation.
pub proof fn lemma_positional_arguments(
    program: Seq<char>,
    search: Seq<char>,
    replace: Seq<char>,
    path: Seq<char>,
    found: Seq<bool>,
)
    requires
        is_plain(search),
        is_plain(replace),
        is_plain(path),
        found.len() == 4,
        found[3],
    ensures
        parse_args(seq![program, search, replace, path], found) == Ok::<ConfigView, ParseError>(
            ConfigView {
                db_path: path,
                table: default_table(),
                column: default_column(),
                search_text: search,
                replace_text: replace,
                prompt: true,
            },
        ),
{
    let args = seq![program, search, replace, path];
    lemma_plain_is_no_option(search);
    lemma_plain_is_no_option(replace);
    lemma_plain_is_no_option(path);
    assert(args[1] == search && args[2] == replace && args[3] == path);
    reveal_with_fuel(parse_from, 4);
}

/// Help asked for as the first argument, long or short, ends the parse with the
/// help signal, whose exit status is zero; every other parse error exits with a
/// status that is not zero.
pub proof fn lemma_help_and_errors(args: Seq<Seq<char>>, found: Seq<bool>, e: ParseError)
    requires
        args.len() >= 2,
        args[1] == "--help"@ || args[1] == "-h"@,
    ensures
        parse_args(args, found) == Err::<ConfigView, ParseError>(ParseError::HelpRequested),
        exit_status(ParseError::HelpRequested) == 0,
        !(e is HelpRequested) ==> exit_status(e) != 0,
{
    reveal_strlit("--column");
    reveal_strlit("--table");
    reveal_strlit("--search");
    reveal_strlit("--replace");
    reveal_strlit("--no-prompt");
    reveal_strlit("--help");
    reveal_strlit("-h");
    let d = initial_draft();
    if args[1] == "-h"@ {
        let t = args[1];
        assert(t.len() == 2);
        assert(long_flag(t) is None);
        assert(is_cluster(t));
        assert(short_flag(t[1]) == Some(Flag::Help));
        assert(cluster_from(args, t, 1, 2, d) == Err::<(crate::config::Draft, int), ParseError>(
            ParseError::HelpRequested,
        ));
    }
}

} // verus!
