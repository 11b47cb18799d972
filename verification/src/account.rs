//! Syntactic validity of account identifiers.
//!
//! An identifier is valid when it is 2 to 64 characters long, made of
//! lower-case letters, digits and the separators `-`, `_` and `.`, with no
//! separator at either end and no two separators in a row.

use vstd::prelude::*;
use vstd::string::StrSliceExecFns;

verus! {

/// A separator character inside an account identifier.
pub open spec fn spec_is_separator(c: char) -> bool {
    c == '-' || c == '_' || c == '.'
}

/// A character allowed in an account identifier: a lower-case letter,
/// a digit, or a separator.
pub open spec fn spec_is_account_char(c: char) -> bool {
    ('a' <= c && c <= 'z') || ('0' <= c && c <= '9') || spec_is_separator(c)
}

/// A syntactically valid account identifier: 2 to 64 allowed characters,
/// no separator first or last, and no two separators adjacent.
pub open spec fn valid_account_id(s: Seq<char>) -> bool {
    &&& 2 <= s.len() && s.len() <= 64
    &&& forall|i: int| 0 <= i < s.len() ==> spec_is_account_char(#[trigger] s[i])
    &&& !spec_is_separator(s[0])
    &&& !spec_is_separator(s[s.len() - 1])
    &&& forall|i: int| 0 < i < s.len() ==> !(spec_is_separator(s[i - 1]) && spec_is_separator(#[trigger] s[i]))
}

fn is_separator(c: char) -> (r: bool)
    ensures
        r == spec_is_separator(c),
{
    c == '-' || c == '_' || c == '.'
}

fn is_account_char(c: char) -> (r: bool)
    ensures
        r == spec_is_account_char(c),
{
    ('a' <= c && c <= 'z') || ('0' <= c && c <= '9') || is_separator(c)
}

/// Decides whether `account_id` is a syntactically valid account identifier.
pub fn is_valid_account_id(account_id: &String) -> (r: bool)
    ensures
        r == valid_account_id(account_id@),
{
    let s: &str = account_id.as_str();
    let n: usize = s.unicode_len();
    if n < 2 || n > 64 {
        return false;
    }
    let mut i: usize = 0;
    let mut last_sep: bool = true;
    while i < n
        invariant
            2 <= n <= 64,
            n == s@.len(),
            s@ == account_id@,
            i <= n,
            forall|j: int| 0 <= j < i ==> spec_is_account_char(#[trigger] s@[j]),
            forall|j: int| 0 < j < i ==> !(spec_is_separator(s@[j - 1]) && spec_is_separator(#[trigger] s@[j])),
            i == 0 ==> last_sep == true,
            i > 0 ==> last_sep == spec_is_separator(s@[i - 1]),
            i > 0 ==> !spec_is_separator(s@[0]),
        decreases n - i,
    {
        let c = s.get_char(i);
        if !is_account_char(c) {
            return false;
        }
        let sep = is_separator(c);
        if sep && last_sep {
            return false;
        }
        last_sep = sep;
        i = i + 1;
    }
    !last_sep
}

} // verus!
