//! The search filter: whether a symbol belongs in a filtered listing for a
//! given query.
//!
//! The filter receives the query already folded to ASCII lowercase by the
//! caller.  A symbol matches when its raw name contains that query
//! case-sensitively, or its demangled name, itself folded to lowercase,
//! contains it.  The resulting asymmetry — raw names match case-sensitively,
//! demangled names case-insensitively — is deliberate, pinned behavior.

use vstd::prelude::*;
use vstd::string::StrSliceExecFns;
use crate::model::Symbol;

verus! {

/// ASCII case folding of one character: 'A' through 'Z' map to 'a' through
/// 'z'; every other character is unchanged.
pub open spec fn lower_char(c: char) -> char {
    if 65 <= c as u32 && c as u32 <= 90 {
        ((c as u32 + 32) as u32) as char
    } else {
        c
    }
}

/// ASCII case folding of a whole character sequence.
pub open spec fn lower_seq(s: Seq<char>) -> Seq<char> {
    s.map_values(|c: char| lower_char(c))
}

/// `needle` occurs in `hay` starting at position `i`.
pub open spec fn contains_at(hay: Seq<char>, needle: Seq<char>, i: int) -> bool {
    &&& 0 <= i
    &&& i + needle.len() <= hay.len()
    &&& hay.subrange(i, i + needle.len() as int) == needle
}

/// `needle` occurs somewhere in `hay`.
pub open spec fn has_substring(hay: Seq<char>, needle: Seq<char>) -> bool {
    exists|i: int| contains_at(hay, needle, i)
}

/// Compares `needle` against the slice of `hay` that starts at `i`.
fn substring_at(hay: &str, i: usize, needle: &str) -> (r: bool)
    requires
        i + needle@.len() <= hay@.len(),
        hay@.len() <= usize::MAX,
    ensures
        r == contains_at(hay@, needle@, i as int),
{
    let nlen = needle.unicode_len();
    let mut j: usize = 0;
    while j < nlen
        invariant
            nlen == needle@.len(),
            i + nlen <= hay@.len(),
            hay@.len() <= usize::MAX,
            j <= nlen,
            forall|k: int| 0 <= k < j ==> hay@[i + k] == needle@[k],
        decreases nlen - j,
    {
        if hay.get_char(i + j) != needle.get_char(j) {
            assert(hay@.subrange(i as int, i + nlen) != needle@) by {
                assert(hay@.subrange(i as int, i + nlen)[j as int] == hay@[i + j]);
            }
            return false;
        }
        j += 1;
    }
    assert(hay@.subrange(i as int, i + nlen) =~= needle@);
    true
}

/// Whether `needle` occurs in `hay` as a contiguous substring.
pub fn str_contains(hay: &str, needle: &str) -> (r: bool)
    ensures
        r == has_substring(hay@, needle@),
{
    let hlen = hay.unicode_len();
    let nlen = needle.unicode_len();
    if nlen > hlen {
        return false;
    }
    if nlen == 0 {
        assert(contains_at(hay@, needle@, 0)) by {
            assert(hay@.subrange(0, 0) =~= needle@);
        }
        return true;
    }
    let mut i: usize = 0;
    while i <= hlen - nlen
        invariant
            hlen == hay@.len(),
            nlen == needle@.len(),
            1 <= nlen <= hlen,
            i <= hlen - nlen + 1,
            forall|k: int| 0 <= k < i ==> !contains_at(hay@, needle@, k),
        decreases hlen - i,
    {
        if substring_at(hay, i, needle) {
            return true;
        }
        i += 1;
    }
    false
}

/// Two string slices hold the same characters.
pub fn str_eq(a: &str, b: &str) -> (r: bool)
    ensures
        r == (a@ == b@),
{
    let alen = a.unicode_len();
    let blen = b.unicode_len();
    if alen != blen {
        return false;
    }
    let mut i: usize = 0;
    while i < alen
        invariant
            alen == a@.len(),
            alen == b@.len(),
            i <= alen,
            forall|k: int| 0 <= k < i ==> a@[k] == b@[k],
        decreases alen - i,
    {
        if a.get_char(i) != b.get_char(i) {
            return false;
        }
        i += 1;
    }
    assert(a@ =~= b@);
    true
}

/// Relies on `str::to_ascii_lowercase`: each ASCII uppercase letter is
/// mapped to its lowercase equivalent, every other character is unchanged.
#[verifier::external_body]
pub(crate) fn ascii_lowercase(s: &str) -> (r: String)
    ensures
        r@ == lower_seq(s@),
{
    s.to_ascii_lowercase()
}

/// What the search filter accepts: an empty query matches everything;
/// otherwise the raw name must contain the query, or the demangled name,
/// folded to ASCII lowercase, must contain it.
pub open spec fn symbol_matches_spec(sym: Symbol, query: Seq<char>) -> bool {
    ||| query.len() == 0
    ||| has_substring(sym.name@, query)
    ||| (sym.demangled_name matches Some(d) && has_substring(lower_seq(d@), query))
}

/// Decides whether `symbol` belongs in a listing filtered by `search_str`.
/// `search_str` is expected already folded to lowercase by the caller; it is
/// matched case-sensitively against the raw name and against the folded
/// demangled name.
pub fn symbol_matches_search(symbol: &Symbol, search_str: &str) -> (r: bool)
    ensures
        r == symbol_matches_spec(*symbol, search_str@),
{
    if search_str.is_empty() {
        return true;
    }
    if str_contains(symbol.name.as_str(), search_str) {
        return true;
    }
    match &symbol.demangled_name {
        Some(d) => {
            let lowered = ascii_lowercase(d.as_str());
            str_contains(lowered.as_str(), search_str)
        },
        None => false,
    }
}

/// Law: an empty query matches every symbol.
pub proof fn lemma_empty_query_matches(sym: Symbol)
    ensures
        symbol_matches_spec(sym, Seq::<char>::empty()),
{
}

} // verus!
