use vstd::prelude::*;
use crate::config::Config;

verus! {

/// The `LIKE` pattern that matches any text holding `search` as a substring.
pub open spec fn like_pattern_of(search: Seq<char>) -> Seq<char> {
    "%"@ + search + "%"@
}

/// The statement that counts the rows whose column matches the bound pattern.
pub open spec fn count_query_of(table: Seq<char>, column: Seq<char>) -> Seq<char> {
    "SELECT COUNT(rowid) FROM "@ + table + " WHERE "@ + column + " LIKE ?"@
}

/// The statement that replaces, in the rows whose column matches the bound
/// pattern (third value), every occurrence of the first bound value by the second.
pub open spec fn update_query_of(table: Seq<char>, column: Seq<char>) -> Seq<char> {
    "UPDATE "@ + table + " SET "@ + column + " = REPLACE("@ + column + ", ?, ?) WHERE "@ + column
        + " LIKE ?"@
}

/// Builds the `LIKE` pattern that is bound to the count and update statements.
pub fn like_pattern(search: &str) -> (r: String)
    ensures
        r@ == like_pattern_of(search@),
{
    let mut r = String::from_str("%");
    r.append(search);
    r.append("%");
    r
}

/// Builds the count statement for a table and column; the search pattern is
/// bound to its one placeholder.
pub fn count_query(table: &str, column: &str) -> (r: String)
    ensures
        r@ == count_query_of(table@, column@),
{
    let mut r = String::from_str("SELECT COUNT(rowid) FROM ");
    r.append(table);
    r.append(" WHERE ");
    r.append(column);
    r.append(" LIKE ?");
    r
}

/// Builds the update statement for a table and column; the search text, the
/// replacement text and the search pattern are bound to its placeholders.
pub fn update_query(table: &str, column: &str) -> (r: String)
    ensures
        r@ == update_query_of(table@, column@),
{
    let mut r = String::from_str("UPDATE ");
    r.append(table);
    r.append(" SET ");
    r.append(column);
    r.append(" = REPLACE(");
    r.append(column);
    r.append(", ?, ?) WHERE ");
    r.append(column);
    r.append(" LIKE ?");
    r
}

impl Config {
    /// The count statement for this configuration's table and column.
    pub fn count_sql(&self) -> (r: String)
        ensures
            r@ == count_query_of(self.table@, self.column@),
    {
        count_query(self.table.as_str(), self.column.as_str())
    }

    /// The update statement for this configuration's table and column.
    pub fn update_sql(&self) -> (r: String)
        ensures
            r@ == update_query_of(self.table@, self.column@),
    {
        update_query(self.table.as_str(), self.column.as_str())
    }

    /// The pattern bound to both statements to select the matching rows.
    pub fn search_pattern(&self) -> (r: String)
        ensures
            r@ == like_pattern_of(self.search_text@),
    {
        like_pattern(self.search_text.as_str())
    }
}

} // verus!
