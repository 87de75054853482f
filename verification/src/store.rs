//! The two kinds of entries that the views show, and the statements that read a page of them
//! from the store.

use crate::tableview::Stringify;
use vstd::prelude::*;
use vstd::string::{StrSliceExecFns, StringExecFns};

verus! {

/// A directory that was visited, with the time of the visit in seconds since the epoch.
#[derive(Clone, Debug, PartialEq, Eq)]
pub struct Path {
    pub id: i64,
    pub path: String,
    pub date: i64,
}

/// A name given to a directory.
#[derive(Clone, Debug, PartialEq, Eq)]
pub struct Shortcut {
    pub id: i64,
    pub name: String,
    pub path: String,
}

impl Stringify for Path {
    open spec fn text(&self) -> Seq<char> {
        self.path@
    }

    fn stringify(&self) -> (text: String) {
        self.path.clone()
    }
}

impl Stringify for Shortcut {
    open spec fn text(&self) -> Seq<char> {
        self.path@
    }

    fn stringify(&self) -> (text: String) {
        self.path.clone()
    }
}

/// A statement for the store, with the values of its parameters in their order.
#[derive(Debug, PartialEq, Eq)]
pub struct Query {
    pub sql: String,
    pub params: Vec<String>,
}

/// The decimal digit for `value`, which is below 10; 48 is the code of `0`.
pub open spec fn digit(value: nat) -> char {
    (48 + value) as u8 as char
}

/// `value` written in decimal digits, without leading zeros.
pub open spec fn decimal(value: nat) -> Seq<char>
    decreases value,
{
    if value < 10 {
        seq![digit(value)]
    } else {
        decimal(value / 10).push(digit(value % 10))
    }
}

/// The values of the parameters of a page of rows: the filter where there is one, then the
/// length of the page, then its position.
pub open spec fn page_params(pos: nat, len: nat, like_text: Seq<char>) -> Seq<Seq<char>> {
    if like_text.len() > 0 {
        seq![like_text, decimal(len), decimal(pos)]
    } else {
        seq![decimal(len), decimal(pos)]
    }
}

/// The texts of a list of values.
pub open spec fn values(params: Vec<String>) -> Seq<Seq<char>> {
    params@.map_values(|param: String| param@)
}

/// Appends `value` in decimal digits to `text`.
fn push_decimal(text: &mut String, value: usize)
    ensures
        final(text)@ == old(text)@ + decimal(value as nat),
    decreases value,
{
    if value >= 10 {
        push_decimal(text, value / 10);
    }
    let last: u8 = (value % 10) as u8;
    text.push((48u8 + last) as char);
    assert(final(text)@ =~= old(text)@ + decimal(value as nat));
}

/// `value` written in decimal digits.
pub fn to_decimal(value: usize) -> (text: String)
    ensures
        text@ == decimal(value as nat),
{
    let mut text = String::new();
    push_decimal(&mut text, value);
    assert(text@ =~= decimal(value as nat));
    text
}

/// The values of the parameters of a page of rows.
fn page_values(pos: usize, len: usize, like_text: &str) -> (params: Vec<String>)
    ensures
        values(params) == page_params(pos as nat, len as nat, like_text@),
{
    let mut params: Vec<String> = Vec::new();
    if like_text.unicode_len() > 0 {
        params.push(like_text.to_owned());
    }
    params.push(to_decimal(len));
    params.push(to_decimal(pos));
    assert(values(params) =~= page_params(pos as nat, len as nat, like_text@));
    params
}

/// The statement that reads `len` visited paths from position `pos`, newest first, of those
/// whose path contains `like_text`; of all where `like_text` is empty.
pub fn list_paths_query(pos: usize, len: usize, like_text: &str) -> (query: Query)
    ensures
        query.sql@ == if like_text@.len() > 0 {
            "SELECT id, path, date FROM paths WHERE path like '%' || (?1) || '%' ORDER BY date desc, id desc LIMIT (?2) OFFSET (?3)"@
        } else {
            "SELECT id, path, date FROM paths ORDER BY date desc, id desc LIMIT (?1) OFFSET (?2)"@
        },
        values(query.params) == page_params(pos as nat, len as nat, like_text@),
{
    let sql = if like_text.unicode_len() > 0 {
        String::from_str(
            "SELECT id, path, date FROM paths WHERE path like '%' || (?1) || '%' ORDER BY date desc, id desc LIMIT (?2) OFFSET (?3)",
        )
    } else {
        String::from_str(
            "SELECT id, path, date FROM paths ORDER BY date desc, id desc LIMIT (?1) OFFSET (?2)",
        )
    };
    Query { sql, params: page_values(pos, len, like_text) }
}

/// The statement that reads `len` shortcuts from position `pos`, by name, of those whose
/// path or name contains `like_text`; of all where `like_text` is empty.
pub fn list_shortcuts_query(pos: usize, len: usize, like_text: &str) -> (query: Query)
    ensures
        query.sql@ == if like_text@.len() > 0 {
            "SELECT id, name, path FROM shortcuts WHERE path like '%' || (?1) || '%' OR name like '%' || (?1) || '%' ORDER BY name asc, id desc LIMIT (?2) OFFSET (?3)"@
        } else {
            "SELECT id, name, path FROM shortcuts ORDER BY name asc, id desc LIMIT (?1) OFFSET (?2)"@
        },
        values(query.params) == page_params(pos as nat, len as nat, like_text@),
{
    let sql = if like_text.unicode_len() > 0 {
        String::from_str(
            "SELECT id, name, path FROM shortcuts WHERE path like '%' || (?1) || '%' OR name like '%' || (?1) || '%' ORDER BY name asc, id desc LIMIT (?2) OFFSET (?3)",
        )
    } else {
        String::from_str(
            "SELECT id, name, path FROM shortcuts ORDER BY name asc, id desc LIMIT (?1) OFFSET (?2)",
        )
    };
    Query { sql, params: page_values(pos, len, like_text) }
}

} // verus!
