//! Comparisons on strings and helpers for lists of strings, stated over
//! sequences of characters.

use vstd::prelude::*;

verus! {

/// The code point of `c` with the upper-case ASCII letters mapped to lower case.
pub open spec fn ascii_fold(c: char) -> u32 {
    if 'A' <= c && c <= 'Z' {
        (c as u32 + 32) as u32
    } else {
        c as u32
    }
}

/// Two character sequences are equal up to the case of their ASCII letters.
pub open spec fn eq_ignoring_ascii_case(a: Seq<char>, b: Seq<char>) -> bool {
    &&& a.len() == b.len()
    &&& forall|i: int| 0 <= i < a.len() ==> ascii_fold(#[trigger] a[i]) == ascii_fold(b[i])
}

/// Computes [`ascii_fold`].
pub fn fold_ascii(c: char) -> (r: u32)
    ensures
        r == ascii_fold(c),
{
    let code: u32 = c as u32;
    if 'A' <= c && c <= 'Z' {
        code + 32
    } else {
        code
    }
}

/// Whether two strings hold the same characters.
pub fn str_eq(a: &str, b: &str) -> (r: bool)
    ensures
        r == (a@ == b@),
{
    let n: usize = a.unicode_len();
    if b.unicode_len() != n {
        return false;
    }
    let mut i: usize = 0;
    while i < n
        invariant
            n == a@.len(),
            n == b@.len(),
            i <= n,
            forall|j: int| 0 <= j < i ==> a@[j] == b@[j],
        decreases n - i,
    {
        if a.get_char(i) != b.get_char(i) {
            return false;
        }
        i += 1;
    }
    assert(a@ =~= b@);
    true
}

/// Whether two strings are equal when the case of ASCII letters is ignored.
/// Characters outside ASCII must match exactly.
pub fn eq_ignore_ascii_case(a: &str, b: &str) -> (r: bool)
    ensures
        r == eq_ignoring_ascii_case(a@, b@),
{
    let n: usize = a.unicode_len();
    if b.unicode_len() != n {
        return false;
    }
    let mut i: usize = 0;
    while i < n
        invariant
            n == a@.len(),
            n == b@.len(),
            i <= n,
            forall|j: int| 0 <= j < i ==> ascii_fold(#[trigger] a@[j]) == ascii_fold(b@[j]),
        decreases n - i,
    {
        if fold_ascii(a.get_char(i)) != fold_ascii(b.get_char(i)) {
            return false;
        }
        i += 1;
    }
    true
}

/// The character sequences of a list of strings, in order.
pub open spec fn string_views(strings: Seq<String>) -> Seq<Seq<char>> {
    strings.map_values(|s: String| s@)
}

/// Appends a copy of `s` to the list.
pub fn push_str(list: &mut Vec<String>, s: &str)
    ensures
        string_views(final(list)@) == string_views(old(list)@).push(s@),
{
    list.push(String::from_str(s));
    assert(string_views(list@) =~= string_views(old(list)@).push(s@));
}

/// Appends copies of the strings of `more` to the list, in order.
pub fn push_all(list: &mut Vec<String>, more: &Vec<String>)
    ensures
        string_views(final(list)@) == string_views(old(list)@) + string_views(more@),
{
    let mut i: usize = 0;
    assert(string_views(more@).take(0) =~= Seq::<Seq<char>>::empty());
    assert(string_views(list@) =~= string_views(old(list)@) + string_views(more@).take(0));
    while i < more.len()
        invariant
            i <= more@.len(),
            string_views(list@) == string_views(old(list)@) + string_views(more@).take(i as int),
        decreases more@.len() - i,
    {
        let ghost before = string_views(list@);
        push_str(list, more[i].as_str());
        assert(string_views(more@).take(i + 1) =~= string_views(more@).take(i as int).push(
            more@[i as int]@,
        ));
        assert(string_views(list@) =~= string_views(old(list)@) + string_views(more@).take(i + 1));
        i += 1;
    }
    assert(string_views(more@).take(i as int) =~= string_views(more@));
}

} // verus!
