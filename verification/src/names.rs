//! Aliases that SQL can name without quotes.

use vstd::prelude::*;

use crate::errors::{DeltaFunnelError, ErrorView};
use crate::options::reports;
use crate::text::{chars_of, identifiers_match, same_identifier};

verus! {

/// Letters of the ASCII alphabet, and the underscore.
pub open spec fn starts_identifier(c: char) -> bool {
    ('a' <= c && c <= 'z') || ('A' <= c && c <= 'Z') || c == '_'
}

/// What may follow the first character of an identifier.
pub open spec fn continues_identifier(c: char) -> bool {
    starts_identifier(c) || ('0' <= c && c <= '9')
}

/// The text has the form of an unquoted identifier.
pub open spec fn is_identifier(s: Seq<char>) -> bool {
    &&& s.len() > 0
    &&& starts_identifier(s[0])
    &&& forall|i: int| 0 <= i < s.len() ==> continues_identifier(#[trigger] s[i])
}

/// Words that SQL keeps for itself where a table may be named.
pub open spec fn reserved_words() -> Seq<Seq<char>> {
    seq![
        "select"@,
        "from"@,
        "where"@,
        "group"@,
        "having"@,
        "order"@,
        "limit"@,
        "offset"@,
        "union"@,
        "intersect"@,
        "except"@,
        "join"@,
        "on"@,
        "using"@,
        "with"@,
        "as"@,
        "values"@,
        "table"@,
        "create"@,
        "insert"@,
        "update"@,
        "delete"@,
        "into"@,
        "set"@,
        "and"@,
        "or"@,
        "not"@,
        "null"@,
        "case"@,
        "end"@,
    ]
}

/// The text is a reserved word, whatever its case.
pub open spec fn is_reserved(s: Seq<char>) -> bool {
    exists|i: int|
        0 <= i < reserved_words().len() && same_identifier(s, #[trigger] reserved_words()[i])
}

/// The text can name a table without quotes.
pub open spec fn is_valid_source_name(s: Seq<char>) -> bool {
    is_identifier(s) && !is_reserved(s)
}

/// What is wrong with a name, if anything.
pub open spec fn source_name_problem(name: Seq<char>) -> Option<ErrorView> {
    if !is_identifier(name) {
        Some(
            ErrorView::InvalidSourceName {
                name,
                message: "name must be an unquoted SQL identifier"@,
            },
        )
    } else if is_reserved(name) {
        Some(ErrorView::InvalidSourceName { name, message: "name is a reserved SQL word"@ })
    } else {
        None
    }
}

fn starts(c: char) -> (r: bool)
    ensures
        r == starts_identifier(c),
{
    ('a' <= c && c <= 'z') || ('A' <= c && c <= 'Z') || c == '_'
}

fn has_identifier_form(name: &str) -> (r: bool)
    ensures
        r == is_identifier(name@),
{
    let chars = chars_of(name);
    if chars.len() == 0 || !starts(chars[0]) {
        return false;
    }
    let mut i: usize = 0;
    while i < chars.len()
        invariant
            i <= chars.len(),
            chars@ == name@,
            forall|k: int| 0 <= k < i ==> continues_identifier(#[trigger] name@[k]),
        decreases chars.len() - i,
    {
        let c = chars[i];
        if !starts(c) && !('0' <= c && c <= '9') {
            assert(!continues_identifier(name@[i as int]));
            return false;
        }
        i += 1;
    }
    true
}

fn reserved_word_list() -> (r: Vec<&'static str>)
    ensures
        r@.len() == reserved_words().len(),
        forall|i: int| 0 <= i < r@.len() ==> (#[trigger] r@[i])@ == reserved_words()[i],
{
    vec![
        "select", "from", "where", "group", "having", "order", "limit", "offset", "union",
        "intersect", "except", "join", "on", "using", "with", "as", "values", "table", "create",
        "insert", "update", "delete", "into", "set", "and", "or", "not", "null", "case", "end",
    ]
}

fn reserved(name: &str) -> (r: bool)
    ensures
        r == is_reserved(name@),
{
    let words = reserved_word_list();
    let mut i: usize = 0;
    while i < words.len()
        invariant
            i <= words.len(),
            words@.len() == reserved_words().len(),
            forall|k: int| 0 <= k < words@.len() ==> (#[trigger] words@[k])@ == reserved_words()[k],
            forall|k: int| 0 <= k < i ==> !same_identifier(name@, #[trigger] reserved_words()[k]),
        decreases words.len() - i,
    {
        assert(words@[i as int]@ == reserved_words()[i as int]);
        if identifiers_match(name, words[i]) {
            return true;
        }
        i += 1;
    }
    false
}

/// Accepts a name that SQL can use without quotes.
pub fn validate_table_source_name(name: &str) -> (r: Result<(), DeltaFunnelError>)
    ensures
        reports(r, source_name_problem(name@)),
        r is Ok <==> is_valid_source_name(name@),
{
    if !has_identifier_form(name) {
        return Err(
            DeltaFunnelError::InvalidSourceName {
                name: name.to_owned(),
                message: "name must be an unquoted SQL identifier".to_owned(),
            },
        );
    }
    if reserved(name) {
        return Err(
            DeltaFunnelError::InvalidSourceName {
                name: name.to_owned(),
                message: "name is a reserved SQL word".to_owned(),
            },
        );
    }
    Ok(())
}

} // verus!
