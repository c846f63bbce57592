//! Account identifiers for the NEAR-style contracts.
//!
//! An account id is a human-readable name such as `alice` or
//! `nonexistent-contract.near`: between 2 and 64 characters, drawn from
//! lowercase letters, digits and the separators `-`, `_` and `.`, where a
//! separator may neither start nor end the name nor follow another separator.

use vstd::prelude::*;

verus! {

/// True for the characters an account id may contain.
pub open spec fn account_char(c: char) -> bool {
    ('a' <= c && c <= 'z') || ('0' <= c && c <= '9') || separator_char(c)
}

/// True for the separator characters `-`, `_` and `.`.
pub open spec fn separator_char(c: char) -> bool {
    c == '-' || c == '_' || c == '.'
}

/// What it means for a character sequence to be a well-formed account id.
pub open spec fn valid_account_seq(s: Seq<char>) -> bool {
    &&& 2 <= s.len() <= 64
    &&& forall|i: int| 0 <= i < s.len() ==> account_char(#[trigger] s[i])
    &&& !separator_char(s[0])
    &&& !separator_char(s[s.len() - 1])
    &&& forall|i: int|
        0 <= i < s.len() - 1 ==> !(separator_char(#[trigger] s[i]) && separator_char(s[i + 1]))
}

/// Decides whether a single character may appear in an account id.
fn is_account_char(c: char) -> (r: bool)
    ensures
        r == account_char(c),
{
    ('a' <= c && c <= 'z') || ('0' <= c && c <= '9') || is_separator_char(c)
}

/// Decides whether a character is one of the separators `-`, `_` or `.`.
fn is_separator_char(c: char) -> (r: bool)
    ensures
        r == separator_char(c),
{
    c == '-' || c == '_' || c == '.'
}

/// The error returned when a string is not a well-formed account id.
#[derive(Clone, Copy, PartialEq, Eq, Structural, Debug)]
pub struct InvalidAccountId;

/// A validated account id.
///
/// [`AccountId::new`] establishes the well-formedness predicate
/// [`AccountId::wf`]; nothing else constructs one from raw text.
#[derive(PartialEq, Eq, Debug)]
pub struct AccountId {
    id: String,
}

impl View for AccountId {
    type V = Seq<char>;

    closed spec fn view(&self) -> Seq<char> {
        self.id@
    }
}

impl Clone for AccountId {
    fn clone(&self) -> (r: Self)
        ensures
            r@ == self@,
    {
        AccountId { id: self.id.clone() }
    }
}

impl AccountId {
    /// A validated account id reads as a well-formed name.
    pub open spec fn wf(self) -> bool {
        valid_account_seq(self@)
    }

    /// Validates `id` and wraps it.
    pub fn new(id: String) -> (r: Result<AccountId, InvalidAccountId>)
        ensures
            match r {
                Ok(a) => valid_account_seq(id@) && a@ == id@ && a.wf(),
                Err(_) => !valid_account_seq(id@),
            },
    {
        if valid_account_str(id.as_str()) {
            Ok(AccountId { id })
        } else {
            Err(InvalidAccountId)
        }
    }

    /// The name as text.
    pub fn as_str(&self) -> (r: &str)
        ensures
            r@ == self@,
    {
        self.id.as_str()
    }

    /// True when the two ids read the same.
    pub fn eq_id(&self, other: &AccountId) -> (r: bool)
        ensures
            r == (self@ == other@),
    {
        self.id == other.id
    }
}

/// Decides whether a string is a well-formed account id.
pub fn valid_account_str(s: &str) -> (r: bool)
    ensures
        r == valid_account_seq(s@),
{
    let n = s.unicode_len();
    if n < 2 || n > 64 {
        return false;
    }
    if is_separator_char(s.get_char(0)) || is_separator_char(s.get_char(n - 1)) {
        return false;
    }
    let mut i: usize = 0;
    let mut prev_sep: bool = false;
    while i < n
        invariant
            0 < n == s@.len() <= 64,
            0 <= i <= n,
            forall|j: int| 0 <= j < i ==> account_char(#[trigger] s@[j]),
            forall|j: int|
                0 <= j < i - 1 ==> !(separator_char(#[trigger] s@[j]) && separator_char(s@[j + 1])),
            i > 0 ==> prev_sep == separator_char(s@[i - 1]),
        decreases n - i,
    {
        let c = s.get_char(i);
        if !is_account_char(c) {
            return false;
        }
        let sep = is_separator_char(c);
        if prev_sep && sep {
            return false;
        }
        prev_sep = sep;
        i = i + 1;
    }
    true
}

} // verus!
