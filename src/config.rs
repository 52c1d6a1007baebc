use vstd::prelude::*;
use crate::text::same_text;

verus! {

/// The option whose value an argument was expected to follow.
#[derive(Clone, Copy, Debug, PartialEq, Eq, Structural)]
pub enum ArgKind {
    Column,
    Table,
    Search,
    Replace,
}

/// Why the command line could not be turned into a configuration.
#[derive(Clone, Copy, Debug, PartialEq, Eq, Structural)]
pub enum ParseError {
    /// No existing file was named as the database.
    MissingDatabase,
    /// An option that takes a value came last.
    MissingArgument(ArgKind),
    /// A short option cluster held an unknown letter.
    UnknownOption(char),
    /// A further positional argument came after the database path.
    MultipleDatabases,
    /// Help was asked for; not a failure, but no configuration results.
    HelpRequested,
}

/// The process status for a failed parse: zero for a help request, which is
/// no failure, and one for every error.
pub open spec fn exit_status(e: ParseError) -> int {
    if e is HelpRequested {
        0
    } else {
        1
    }
}

impl ParseError {
    pub fn exit_code(&self) -> (r: i32)
        ensures
            r == exit_status(*self),
    {
        match self {
            ParseError::HelpRequested => 0,
            _ => 1,
        }
    }
}

/// A recognised option.
#[derive(Clone, Copy, Debug, PartialEq, Eq, Structural)]
pub enum Flag {
    Takes(ArgKind),
    NoPrompt,
    Help,
}

/// What the tool is asked to do.
pub struct Config {
    pub db_path: String,
    pub table: String,
    pub column: String,
    pub search_text: String,
    pub replace_text: String,
    pub prompt: bool,
}

pub ghost struct ConfigView {
    pub db_path: Seq<char>,
    pub table: Seq<char>,
    pub column: Seq<char>,
    pub search_text: Seq<char>,
    pub replace_text: Seq<char>,
    pub prompt: bool,
}

impl View for Config {
    type V = ConfigView;

    open spec fn view(&self) -> ConfigView {
        ConfigView {
            db_path: self.db_path@,
            table: self.table@,
            column: self.column@,
            search_text: self.search_text@,
            replace_text: self.replace_text@,
            prompt: self.prompt,
        }
    }
}

/// The settings gathered so far while the arguments are read.
pub ghost struct Draft {
    pub db_path: Option<Seq<char>>,
    pub table: Option<Seq<char>>,
    pub column: Option<Seq<char>>,
    pub search_text: Option<Seq<char>>,
    pub replace_text: Option<Seq<char>>,
    pub prompt: bool,
}

pub open spec fn default_table() -> Seq<char> {
    "justinmetadata"@
}

pub open spec fn default_column() -> Seq<char> {
    "FilePath"@
}

pub open spec fn initial_draft() -> Draft {
    Draft {
        db_path: None,
        table: None,
        column: None,
        search_text: None,
        replace_text: None,
        prompt: true,
    }
}

pub open spec fn long_flag(t: Seq<char>) -> Option<Flag> {
    if t == "--column"@ {
        Some(Flag::Takes(ArgKind::Column))
    } else if t == "--table"@ {
        Some(Flag::Takes(ArgKind::Table))
    } else if t == "--search"@ {
        Some(Flag::Takes(ArgKind::Search))
    } else if t == "--replace"@ {
        Some(Flag::Takes(ArgKind::Replace))
    } else if t == "--no-prompt"@ {
        Some(Flag::NoPrompt)
    } else if t == "--help"@ {
        Some(Flag::Help)
    } else {
        None
    }
}

pub open spec fn short_flag(c: char) -> Option<Flag> {
    if c == 'c' {
        Some(Flag::Takes(ArgKind::Column))
    } else if c == 't' {
        Some(Flag::Takes(ArgKind::Table))
    } else if c == 's' {
        Some(Flag::Takes(ArgKind::Search))
    } else if c == 'r' {
        Some(Flag::Takes(ArgKind::Replace))
    } else if c == 'y' {
        Some(Flag::NoPrompt)
    } else if c == 'h' {
        Some(Flag::Help)
    } else {
        None
    }
}

/// A cluster of short options: a dash, then letters that are not a dash.
pub open spec fn is_cluster(t: Seq<char>) -> bool {
    t.len() >= 2 && t[0] == '-' && t[1] != '-'
}

pub open spec fn with_value(d: Draft, kind: ArgKind, v: Seq<char>) -> Draft {
    match kind {
        ArgKind::Column => Draft { column: Some(v), ..d },
        ArgKind::Table => Draft { table: Some(v), ..d },
        ArgKind::Search => Draft { search_text: Some(v), ..d },
        ArgKind::Replace => Draft { replace_text: Some(v), ..d },
    }
}

/// A positional argument fills the search text, then the replacement text,
/// then the database path, which is kept only if the file exists.
pub open spec fn with_positional(d: Draft, t: Seq<char>, exists: bool) -> Result<Draft, ParseError> {
    if d.search_text is None {
        Ok(Draft { search_text: Some(t), ..d })
    } else if d.replace_text is None {
        Ok(Draft { replace_text: Some(t), ..d })
    } else if d.db_path is None {
        Ok(Draft { db_path: if exists { Some(t) } else { None }, ..d })
    } else {
        Err(ParseError::MultipleDatabases)
    }
}

/// Reads the letters of cluster `t` from position `k`; each letter that takes a
/// value consumes the argument at `n`, the next one not yet read.
/// Gives the settings and the index of the first argument left unread.
pub open spec fn cluster_from(args: Seq<Seq<char>>, t: Seq<char>, k: int, n: int, d: Draft) -> Result<
    (Draft, int),
    ParseError,
>
    decreases t.len() - k,
{
    if k < 0 || k >= t.len() {
        Ok((d, n))
    } else {
        match short_flag(t[k]) {
            None => Err(ParseError::UnknownOption(t[k])),
            Some(Flag::Help) => Err(ParseError::HelpRequested),
            Some(Flag::NoPrompt) => cluster_from(args, t, k + 1, n, Draft { prompt: false, ..d }),
            Some(Flag::Takes(kind)) => if 0 <= n < args.len() {
                cluster_from(args, t, k + 1, n + 1, with_value(d, kind, args[n]))
            } else {
                Err(ParseError::MissingArgument(kind))
            },
        }
    }
}

pub open spec fn finish(d: Draft) -> Result<ConfigView, ParseError> {
    match (d.db_path, d.search_text, d.replace_text) {
        (Some(db_path), Some(search_text), Some(replace_text)) => Ok(
            ConfigView {
                db_path,
                table: match d.table {
                    Some(t) => t,
                    None => default_table(),
                },
                column: match d.column {
                    Some(c) => c,
                    None => default_column(),
                },
                search_text,
                replace_text,
                prompt: d.prompt,
            },
        ),
        _ => Err(ParseError::MissingDatabase),
    }
}

/// Reads the arguments from index `i` on, with the settings `d` gathered
/// before it. `exists[j]` tells whether a file exists at `args[j]`.
pub open spec fn parse_from(args: Seq<Seq<char>>, exists: Seq<bool>, i: int, d: Draft) -> Result<
    ConfigView,
    ParseError,
>
    decreases args.len() - i,
{
    if i < 0 || i >= args.len() {
        finish(d)
    } else {
        let t = args[i];
        match long_flag(t) {
            Some(Flag::Takes(kind)) => if i + 1 < args.len() {
                parse_from(args, exists, i + 2, with_value(d, kind, args[i + 1]))
            } else {
                Err(ParseError::MissingArgument(kind))
            },
            Some(Flag::NoPrompt) => parse_from(args, exists, i + 1, Draft { prompt: false, ..d }),
            Some(Flag::Help) => Err(ParseError::HelpRequested),
            None => if is_cluster(t) {
                match cluster_from(args, t, 1, i + 1, d) {
                    // A cluster never moves backwards nor past the end, so the
                    // second branch is never taken; it keeps the recursion finite.
                    Ok((d2, n)) => if i < n <= args.len() {
                        parse_from(args, exists, n, d2)
                    } else {
                        Err(ParseError::MissingDatabase)
                    },
                    Err(e) => Err(e),
                }
            } else {
                match with_positional(d, t, exists[i]) {
                    Ok(d2) => parse_from(args, exists, i + 1, d2),
                    Err(e) => Err(e),
                }
            },
        }
    }
}

/// The configuration that the full argument vector gives; `args[0]` is the
/// program name and is not read.
pub open spec fn parse_args(args: Seq<Seq<char>>, exists: Seq<bool>) -> Result<ConfigView, ParseError> {
    parse_from(args, exists, 1, initial_draft())
}

pub open spec fn texts(args: Seq<String>) -> Seq<Seq<char>> {
    args.map_values(|s: String| s@)
}

pub open spec fn result_view(r: Result<Config, ParseError>) -> Result<ConfigView, ParseError> {
    match r {
        Ok(c) => Ok(c@),
        Err(e) => Err(e),
    }
}


fn long_flag_of(t: &str) -> (r: Option<Flag>)
    ensures
        r == long_flag(t@),
{
    if same_text(t, "--column") {
        Some(Flag::Takes(ArgKind::Column))
    } else if same_text(t, "--table") {
        Some(Flag::Takes(ArgKind::Table))
    } else if same_text(t, "--search") {
        Some(Flag::Takes(ArgKind::Search))
    } else if same_text(t, "--replace") {
        Some(Flag::Takes(ArgKind::Replace))
    } else if same_text(t, "--no-prompt") {
        Some(Flag::NoPrompt)
    } else if same_text(t, "--help") {
        Some(Flag::Help)
    } else {
        None
    }
}

fn short_flag_of(c: char) -> (r: Option<Flag>)
    ensures
        r == short_flag(c),
{
    if c == 'c' {
        Some(Flag::Takes(ArgKind::Column))
    } else if c == 't' {
        Some(Flag::Takes(ArgKind::Table))
    } else if c == 's' {
        Some(Flag::Takes(ArgKind::Search))
    } else if c == 'r' {
        Some(Flag::Takes(ArgKind::Replace))
    } else if c == 'y' {
        Some(Flag::NoPrompt)
    } else if c == 'h' {
        Some(Flag::Help)
    } else {
        None
    }
}

/// The executable counterpart of `Draft`.
struct Pending {
    db_path: Option<String>,
    table: Option<String>,
    column: Option<String>,
    search_text: Option<String>,
    replace_text: Option<String>,
    prompt: bool,
}

spec fn text_of(o: Option<String>) -> Option<Seq<char>> {
    match o {
        Some(s) => Some(s@),
        None => None,
    }
}

impl View for Pending {
    type V = Draft;

    closed spec fn view(&self) -> Draft {
        Draft {
            db_path: text_of(self.db_path),
            table: text_of(self.table),
            column: text_of(self.column),
            search_text: text_of(self.search_text),
            replace_text: text_of(self.replace_text),
            prompt: self.prompt,
        }
    }
}

fn set_value(p: &mut Pending, kind: ArgKind, v: String)
    ensures
        final(p)@ == with_value(old(p)@, kind, v@),
{
    match kind {
        ArgKind::Column => p.column = Some(v),
        ArgKind::Table => p.table = Some(v),
        ArgKind::Search => p.search_text = Some(v),
        ArgKind::Replace => p.replace_text = Some(v),
    }
}

fn finish_exec(p: Pending) -> (r: Result<Config, ParseError>)
    ensures
        result_view(r) == finish(p@),
{
    let Pending { db_path, table, column, search_text, replace_text, prompt } = p;
    match (db_path, search_text, replace_text) {
        (Some(db_path), Some(search_text), Some(replace_text)) => {
            let table = match table {
                Some(t) => t,
                None => String::from_str("justinmetadata"),
            };
            let column = match column {
                Some(c) => c,
                None => String::from_str("FilePath"),
            };
            Ok(Config { db_path, table, column, search_text, replace_text, prompt })
        },
        _ => Err(ParseError::MissingDatabase),
    }
}

/// Reads the letters of a short option cluster `args[i]`.
/// Gives the index of the first argument that no letter consumed.
fn read_cluster(args: &[String], i: usize, p: &mut Pending) -> (r: Result<usize, ParseError>)
    requires
        i < args@.len(),
        is_cluster(args@[i as int]@),
    ensures
        match cluster_from(texts(args@), args@[i as int]@, 1, i + 1, old(p)@) {
            Ok((d, n)) => r == Ok::<usize, ParseError>(n as usize) && final(p)@ == d && i < n
                <= args@.len(),
            Err(e) => r == Err::<usize, ParseError>(e),
        },
{
    let ghost a = texts(args@);
    let ghost start = p@;
    let t = args[i].as_str();
    let len = t.unicode_len();
    let mut k: usize = 1;
    let mut next: usize = i + 1;
    while k < len
        invariant
            a == texts(args@),
            start == old(p)@,
            t@ == a[i as int],
            len == t@.len(),
            1 <= k <= len,
            i < next <= args@.len(),
            cluster_from(a, t@, k as int, next as int, p@) == cluster_from(
                a,
                t@,
                1,
                i + 1,
                start,
            ),
        decreases len - k,
    {
        let c = t.get_char(k);
        match short_flag_of(c) {
            None => {
                return Err(ParseError::UnknownOption(c));
            },
            Some(Flag::Help) => {
                return Err(ParseError::HelpRequested);
            },
            Some(Flag::NoPrompt) => {
                p.prompt = false;
            },
            Some(Flag::Takes(kind)) => {
                if next < args.len() {
                    set_value(p, kind, args[next].clone());
                    next = next + 1;
                } else {
                    return Err(ParseError::MissingArgument(kind));
                }
            },
        }
        k = k + 1;
    }
    Ok(next)
}

/// Relies on std::path::Path::exists: whether something is found on the file
/// system at the path. The answer depends on the disk, so nothing is stated.
#[verifier::external_body]
fn path_exists(path: &str) -> (r: bool) {
    std::path::Path::new(path).exists()
}

/// The path itself where a file exists there, else nothing.
pub fn check_path(path: &str) -> (r: Option<String>)
    ensures
        match r {
            Some(s) => s@ == path@,
            None => true,
        },
{
    if path_exists(path) {
        Some(String::from_str(path))
    } else {
        None
    }
}

impl Config {
    /// Turns an argument vector into a configuration, asking the file system
    /// which arguments name an existing file; `args[0]` is the program name.
    pub fn new(args: &[String]) -> (r: Result<Config, ParseError>)
        ensures
            exists|found: Seq<bool>|
                found.len() == args@.len() && result_view(r) == #[trigger] parse_args(
                    texts(args@),
                    found,
                ),
    {
        let mut found: Vec<bool> = Vec::new();
        let mut i: usize = 0;
        while i < args.len()
            invariant
                i <= args@.len(),
                found@.len() == i,
            decreases args@.len() - i,
        {
            found.push(check_path(args[i].as_str()).is_some());
            i = i + 1;
        }
        let r = Config::parse_with(args, found.as_slice());
        assert(found@.len() == args@.len() && result_view(r) == parse_args(texts(args@), found@));
        r
    }

    /// Turns an argument vector into a configuration; `args[0]` is the
    /// program name. `exists[j]` tells whether a file exists at `args[j]`.
    pub fn parse_with(args: &[String], exists: &[bool]) -> (r: Result<Config, ParseError>)
        requires
            exists@.len() == args@.len(),
        ensures
            result_view(r) == parse_args(texts(args@), exists@),
    {
        let ghost a = texts(args@);
        let n = args.len();
        let mut p = Pending {
            db_path: None,
            table: None,
            column: None,
            search_text: None,
            replace_text: None,
            prompt: true,
        };
        let mut i: usize = 1;
        while i < n
            invariant
                a == texts(args@),
                n == args@.len(),
                n == exists@.len(),
                1 <= i,
                parse_from(a, exists@, i as int, p@) == parse_args(a, exists@),
            decreases n - i,
        {
            let t = args[i].as_str();
            match long_flag_of(t) {
                Some(Flag::Takes(kind)) => {
                    if i + 1 < n {
                        set_value(&mut p, kind, args[i + 1].clone());
                        i = i + 2;
                    } else {
                        return Err(ParseError::MissingArgument(kind));
                    }
                },
                Some(Flag::NoPrompt) => {
                    p.prompt = false;
                    i = i + 1;
                },
                Some(Flag::Help) => {
                    return Err(ParseError::HelpRequested);
                },
                None => {
                    let len = t.unicode_len();
                    if len >= 2 && t.get_char(0) == '-' && t.get_char(1) != '-' {
                        match read_cluster(args, i, &mut p) {
                            Ok(next) => {
                                i = next;
                            },
                            Err(e) => {
                                return Err(e);
                            },
                        }
                    } else {
                        let v = args[i].clone();
                        if p.search_text.is_none() {
                            p.search_text = Some(v);
                        } else if p.replace_text.is_none() {
                            p.replace_text = Some(v);
                        } else if p.db_path.is_none() {
                            if exists[i] {
                                p.db_path = Some(v);
                            }
                        } else {
                            return Err(ParseError::MultipleDatabases);
                        }
                        i = i + 1;
                    }
                },
            }
        }
        finish_exec(p)
    }
}

} // verus!
