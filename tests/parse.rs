use smd_replace::config::{check_path, ArgKind, Config, ParseError};

fn strings(v: &[&str]) -> Vec<String> {
    v.iter().map(|s| s.to_string()).collect()
}

fn parse(v: &[&str], found: &[bool]) -> Result<Config, ParseError> {
    Config::parse_with(&strings(v), found)
}

#[test]
fn positional_arguments_take_defaults() {
    let c = parse(&["smd", "/old", "/new", "lib.db"], &[false, false, false, true]).unwrap();
    assert_eq!(c.search_text, "/old");
    assert_eq!(c.replace_text, "/new");
    assert_eq!(c.db_path, "lib.db");
    assert_eq!(c.table, "justinmetadata");
    assert_eq!(c.column, "FilePath");
    assert!(c.prompt);
}

#[test]
fn long_options_set_every_field() {
    let c = parse(
        &["smd", "--table", "files", "--column", "Path", "--search", "a", "--replace", "b", "--no-prompt", "x.db"],
        &[false, false, false, false, false, false, false, false, false, false, true],
    )
    .unwrap();
    assert_eq!(c.table, "files");
    assert_eq!(c.column, "Path");
    assert_eq!(c.search_text, "a");
    assert_eq!(c.replace_text, "b");
    assert_eq!(c.db_path, "x.db");
    assert!(!c.prompt);
}

#[test]
fn short_options_mean_what_long_ones_do() {
    let c = parse(
        &["smd", "-s", "a", "-r", "b", "-t", "files", "-c", "Path", "-y", "x.db"],
        &[false, false, false, false, false, false, false, false, false, false, true],
    )
    .unwrap();
    assert_eq!(c.search_text, "a");
    assert_eq!(c.replace_text, "b");
    assert_eq!(c.table, "files");
    assert_eq!(c.column, "Path");
    assert!(!c.prompt);
}

#[test]
fn short_cluster_takes_values_in_order() {
    let c = parse(
        &["smd", "-yct", "Path", "files", "a", "b", "x.db"],
        &[false, false, false, false, false, false, true],
    )
    .unwrap();
    assert!(!c.prompt);
    assert_eq!(c.column, "Path");
    assert_eq!(c.table, "files");
    assert_eq!(c.search_text, "a");
    assert_eq!(c.replace_text, "b");
    assert_eq!(c.db_path, "x.db");
}

#[test]
fn later_option_value_wins() {
    let c = parse(&["smd", "a", "b", "x.db", "--search", "z"], &[false, false, false, true, false, false]).unwrap();
    assert_eq!(c.search_text, "z");
    assert_eq!(c.replace_text, "b");
}

#[test]
fn missing_file_is_skipped_for_a_later_one() {
    let c = parse(&["smd", "a", "b", "gone.db", "here.db"], &[false, false, false, false, true]).unwrap();
    assert_eq!(c.db_path, "here.db");
}

#[test]
fn no_existing_file_is_missing_database() {
    assert_eq!(parse(&["smd", "a", "b", "gone.db"], &[false, false, false, false]).err(), Some(ParseError::MissingDatabase));
    assert_eq!(parse(&["smd"], &[false]).err(), Some(ParseError::MissingDatabase));
    assert_eq!(parse(&[], &[]).err(), Some(ParseError::MissingDatabase));
}

#[test]
fn option_without_value_is_missing_argument() {
    let found = [false, false, false, true, false];
    assert_eq!(parse(&["smd", "a", "b", "x.db", "--column"], &found).err(), Some(ParseError::MissingArgument(ArgKind::Column)));
    assert_eq!(parse(&["smd", "a", "b", "x.db", "--table"], &found).err(), Some(ParseError::MissingArgument(ArgKind::Table)));
    assert_eq!(parse(&["smd", "a", "b", "x.db", "--search"], &found).err(), Some(ParseError::MissingArgument(ArgKind::Search)));
    assert_eq!(parse(&["smd", "a", "b", "x.db", "--replace"], &found).err(), Some(ParseError::MissingArgument(ArgKind::Replace)));
    assert_eq!(parse(&["smd", "a", "b", "x.db", "-r"], &found).err(), Some(ParseError::MissingArgument(ArgKind::Replace)));
}

#[test]
fn unknown_short_letter_is_an_error() {
    assert_eq!(parse(&["smd", "-yq", "a", "b", "x.db"], &[false, false, false, false, true]).err(), Some(ParseError::UnknownOption('q')));
}

#[test]
fn second_database_is_an_error() {
    assert_eq!(
        parse(&["smd", "a", "b", "x.db", "y.db"], &[false, false, false, true, true]).err(),
        Some(ParseError::MultipleDatabases)
    );
}

#[test]
fn help_is_requested_long_and_short() {
    assert_eq!(parse(&["smd", "--help"], &[false, false]).err(), Some(ParseError::HelpRequested));
    assert_eq!(parse(&["smd", "-h"], &[false, false]).err(), Some(ParseError::HelpRequested));
    assert_eq!(parse(&["smd", "a", "-yh", "b"], &[false, false, false, false]).err(), Some(ParseError::HelpRequested));
}

#[test]
fn only_help_exits_with_zero() {
    assert_eq!(ParseError::HelpRequested.exit_code(), 0);
    assert_eq!(ParseError::MissingDatabase.exit_code(), 1);
    assert_eq!(ParseError::MissingArgument(ArgKind::Table).exit_code(), 1);
    assert_eq!(ParseError::UnknownOption('x').exit_code(), 1);
    assert_eq!(ParseError::MultipleDatabases.exit_code(), 1);
}

#[test]
fn check_path_sees_the_file_system() {
    assert_eq!(check_path("/"), Some("/".to_string()));
    assert_eq!(check_path("/no/such/dir/for/this/test.db"), None);
}

#[test]
fn new_asks_the_file_system() {
    let c = Config::new(&strings(&["smd", "a", "b", "/no/such/file.db", "/"])).unwrap();
    assert_eq!(c.db_path, "/");
    assert_eq!(
        Config::new(&strings(&["smd", "a", "b", "/no/such/file.db"])).err(),
        Some(ParseError::MissingDatabase)
    );
}
