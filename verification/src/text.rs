//! Verified text primitives: substring containment, prefix tests, field
//! extraction from separated lines, whitespace trimming and line splitting.
//!
//! Every exec function here is specified against a spec-level model of the
//! same operation on `Seq<char>`, so that the parsers built on top can state
//! their results exactly.

use vstd::prelude::*;

verus! {

use vstd::string::StrSliceExecFns;

/// The needle occurs in the haystack starting at position `i`.
pub open spec fn contains_at(hay: Seq<char>, needle: Seq<char>, i: int) -> bool {
    0 <= i && i + needle.len() <= hay.len() && hay.subrange(i, i + needle.len()) == needle
}

/// The needle occurs somewhere in the haystack.
pub open spec fn contains_seq(hay: Seq<char>, needle: Seq<char>) -> bool {
    exists|i: int| contains_at(hay, needle, i)
}

/// The sequence begins with the given prefix.
pub open spec fn starts_with_seq(s: Seq<char>, prefix: Seq<char>) -> bool {
    prefix.len() <= s.len() && s.subrange(0, prefix.len() as int) == prefix
}

/// Prefix test on string slices, character by character.
pub fn str_starts_with(s: &str, prefix: &str) -> (r: bool)
    ensures
        r == starts_with_seq(s@, prefix@),
{
    let n = prefix.unicode_len();
    if n > s.unicode_len() {
        return false;
    }
    let mut j: usize = 0;
    while j < n
        invariant
            j <= n,
            n == prefix@.len(),
            n <= s@.len(),
            forall|k: int| 0 <= k < j ==> s@[k] == prefix@[k],
        decreases n - j,
    {
        if s.get_char(j) != prefix.get_char(j) {
            proof {
                assert(s@.subrange(0, n as int)[j as int] == s@[j as int]);
            }
            return false;
        }
        j += 1;
    }
    proof {
        assert(s@.subrange(0, n as int) =~= prefix@);
    }
    true
}

/// Equality of string slices as character sequences.
pub fn str_eq(a: &str, b: &str) -> (r: bool)
    ensures
        r == (a@ == b@),
{
    if a.unicode_len() != b.unicode_len() {
        return false;
    }
    let r = str_starts_with(a, b);
    proof {
        if r {
            assert(a@.subrange(0, b@.len() as int) =~= a@);
        }
        if a@ == b@ {
            assert(a@.subrange(0, b@.len() as int) =~= b@);
        }
    }
    r
}

/// The needle occurs in the haystack starting exactly at position `i`.
fn matches_at(hay: &str, needle: &str, i: usize) -> (r: bool)
    requires
        i + needle@.len() <= hay@.len(),
    ensures
        r == contains_at(hay@, needle@, i as int),
{
    let n = needle.unicode_len();
    let hlen = hay.unicode_len();
    let mut j: usize = 0;
    while j < n
        invariant
            j <= n,
            n == needle@.len(),
            hlen == hay@.len(),
            i + n <= hlen,
            forall|k: int| 0 <= k < j ==> hay@[i + k] == needle@[k],
        decreases n - j,
    {
        if hay.get_char(i + j) != needle.get_char(j) {
            proof {
                assert(hay@.subrange(i as int, i + n)[j as int] == hay@[i + j]);
            }
            return false;
        }
        j += 1;
    }
    proof {
        assert(hay@.subrange(i as int, i + n) =~= needle@);
    }
    true
}

/// Substring search: whether the needle occurs anywhere in the haystack.
pub fn str_contains(hay: &str, needle: &str) -> (r: bool)
    ensures
        r == contains_seq(hay@, needle@),
{
    let hn = hay.unicode_len();
    let nn = needle.unicode_len();
    if nn > hn {
        proof {
            assert(forall|i: int| !contains_at(hay@, needle@, i));
        }
        return false;
    }
    let last = hn - nn;
    let mut i: usize = 0;
    loop
        invariant
            last == hay@.len() - needle@.len(),
            i <= last,
            nn == needle@.len(),
            forall|k: int| 0 <= k < i ==> !contains_at(hay@, needle@, k),
        ensures
            forall|k: int| 0 <= k <= last ==> !contains_at(hay@, needle@, k),
        decreases last - i,
    {
        if matches_at(hay, needle, i) {
            return true;
        }
        if i == last {
            break;
        }
        i += 1;
    }
    proof {
        assert(forall|k: int| contains_at(hay@, needle@, k) ==> 0 <= k <= last);
    }
    false
}

/// Index of the first occurrence of `c` in `s`, or `s.len()` if absent.
pub open spec fn idx_of(s: Seq<char>, c: char) -> int
    decreases s.len(),
{
    if s.len() == 0 {
        0
    } else if s[0] == c {
        0
    } else {
        1 + idx_of(s.drop_first(), c)
    }
}

/// `idx_of` is within bounds, points at `c` when `c` occurs, and nothing
/// before it is `c`.
pub proof fn lemma_idx_of_props(s: Seq<char>, c: char)
    ensures
        0 <= idx_of(s, c) <= s.len(),
        idx_of(s, c) < s.len() ==> s[idx_of(s, c)] == c,
        forall|j: int| 0 <= j < idx_of(s, c) ==> s[j] != c,
    decreases s.len(),
{
    if s.len() == 0 {
    } else if s[0] == c {
    } else {
        lemma_idx_of_props(s.drop_first(), c);
        assert forall|j: int| 0 <= j < idx_of(s, c) implies s[j] != c by {
            if j > 0 {
                assert(s.drop_first()[j - 1] == s[j]);
            }
        }
    }
}

/// Any position with no earlier occurrence of `c`, and `c` at it unless it is
/// the end, is the first occurrence.
pub proof fn lemma_idx_of_unique(s: Seq<char>, c: char, i: int)
    requires
        0 <= i <= s.len(),
        forall|j: int| 0 <= j < i ==> s[j] != c,
        i < s.len() ==> s[i] == c,
    ensures
        idx_of(s, c) == i,
    decreases s.len(),
{
    if s.len() == 0 {
    } else if s[0] == c {
        assert(i == 0);
    } else {
        assert(i >= 1);
        lemma_idx_of_unique(s.drop_first(), c, i - 1);
    }
}

/// Scan for the first occurrence of a character.
pub fn find_char(s: &str, c: char) -> (i: usize)
    ensures
        i as int == idx_of(s@, c),
        i <= s@.len(),
{
    let n = s.unicode_len();
    let mut i: usize = 0;
    while i < n
        invariant
            i <= n,
            n == s@.len(),
            forall|j: int| 0 <= j < i ==> s@[j] != c,
        decreases n - i,
    {
        if s.get_char(i) == c {
            proof {
                lemma_idx_of_unique(s@, c, i as int);
            }
            return i;
        }
        i += 1;
    }
    proof {
        lemma_idx_of_unique(s@, c, n as int);
    }
    n
}

/// Field number `k` of `s` when split at `sep`: the run of characters between
/// the `k`-th and the following separator. A field past the end is empty.
pub open spec fn spec_field(s: Seq<char>, sep: char, k: nat) -> Seq<char>
    decreases k,
{
    let i = idx_of(s, sep);
    if k == 0 {
        s.subrange(0, i)
    } else if i == s.len() {
        Seq::empty()
    } else {
        spec_field(s.subrange(i + 1, s.len() as int), sep, (k - 1) as nat)
    }
}

/// Whether `s` split at `sep` has a field number `k` (rather than running out
/// of separators before it).
pub open spec fn spec_has_field(s: Seq<char>, sep: char, k: nat) -> bool
    decreases k,
{
    if k == 0 {
        true
    } else if idx_of(s, sep) == s.len() {
        false
    } else {
        spec_has_field(s.subrange(idx_of(s, sep) + 1, s.len() as int), sep, (k - 1) as nat)
    }
}

/// The ASCII characters this library treats as whitespace.
pub open spec fn is_space(c: char) -> bool {
    c == ' ' || c == '\t' || c == '\r' || c == '\n'
}

/// Executable counterpart of `is_space`.
pub fn char_is_space(c: char) -> (r: bool)
    ensures
        r == is_space(c),
{
    c == ' ' || c == '\t' || c == '\r' || c == '\n'
}

/// Index of the first non-whitespace character, or `s.len()` if all blank.
pub open spec fn idx_nonspace(s: Seq<char>) -> int
    decreases s.len(),
{
    if s.len() == 0 {
        0
    } else if !is_space(s[0]) {
        0
    } else {
        1 + idx_nonspace(s.drop_first())
    }
}

/// Index of the first whitespace character, or `s.len()` if there is none.
pub open spec fn idx_space(s: Seq<char>) -> int
    decreases s.len(),
{
    if s.len() == 0 {
        0
    } else if is_space(s[0]) {
        0
    } else {
        1 + idx_space(s.drop_first())
    }
}

/// Number of whitespace characters at the end of `s`.
pub open spec fn trailing_spaces(s: Seq<char>) -> int
    decreases s.len(),
{
    if s.len() == 0 {
        0
    } else if is_space(s[s.len() - 1]) {
        1 + trailing_spaces(s.drop_last())
    } else {
        0
    }
}

/// Bounds and characterisation of `idx_nonspace`.
pub proof fn lemma_idx_nonspace_props(s: Seq<char>)
    ensures
        0 <= idx_nonspace(s) <= s.len(),
        idx_nonspace(s) < s.len() ==> !is_space(s[idx_nonspace(s)]),
        forall|j: int| 0 <= j < idx_nonspace(s) ==> is_space(s[j]),
    decreases s.len(),
{
    if s.len() == 0 {
    } else if !is_space(s[0]) {
    } else {
        lemma_idx_nonspace_props(s.drop_first());
        assert forall|j: int| 0 <= j < idx_nonspace(s) implies is_space(s[j]) by {
            if j > 0 {
                assert(s.drop_first()[j - 1] == s[j]);
            }
        }
    }
}

/// A position with only whitespace before it, and a non-blank character at it
/// unless it is the end, is `idx_nonspace`.
pub proof fn lemma_idx_nonspace_unique(s: Seq<char>, i: int)
    requires
        0 <= i <= s.len(),
        forall|j: int| 0 <= j < i ==> is_space(s[j]),
        i < s.len() ==> !is_space(s[i]),
    ensures
        idx_nonspace(s) == i,
    decreases s.len(),
{
    if s.len() == 0 {
    } else if !is_space(s[0]) {
        assert(i == 0);
    } else {
        assert(i >= 1);
        lemma_idx_nonspace_unique(s.drop_first(), i - 1);
    }
}

/// Bounds and characterisation of `idx_space`.
pub proof fn lemma_idx_space_props(s: Seq<char>)
    ensures
        0 <= idx_space(s) <= s.len(),
        idx_space(s) < s.len() ==> is_space(s[idx_space(s)]),
        forall|j: int| 0 <= j < idx_space(s) ==> !is_space(s[j]),
    decreases s.len(),
{
    if s.len() == 0 {
    } else if is_space(s[0]) {
    } else {
        lemma_idx_space_props(s.drop_first());
        assert forall|j: int| 0 <= j < idx_space(s) implies !is_space(s[j]) by {
            if j > 0 {
                assert(s.drop_first()[j - 1] == s[j]);
            }
        }
    }
}

/// A position with nothing blank before it, and whitespace at it unless it is
/// the end, is `idx_space`.
pub proof fn lemma_idx_space_unique(s: Seq<char>, i: int)
    requires
        0 <= i <= s.len(),
        forall|j: int| 0 <= j < i ==> !is_space(s[j]),
        i < s.len() ==> is_space(s[i]),
    ensures
        idx_space(s) == i,
    decreases s.len(),
{
    if s.len() == 0 {
    } else if is_space(s[0]) {
        assert(i == 0);
    } else {
        assert(i >= 1);
        lemma_idx_space_unique(s.drop_first(), i - 1);
    }
}

/// A count of blank characters closing `s`, with a non-blank one just before
/// them unless they are the whole of `s`, is `trailing_spaces`.
pub proof fn lemma_trailing_spaces_unique(s: Seq<char>, t: int)
    requires
        0 <= t <= s.len(),
        forall|j: int| s.len() - t <= j < s.len() ==> is_space(s[j]),
        t < s.len() ==> !is_space(s[s.len() - t - 1]),
    ensures
        trailing_spaces(s) == t,
    decreases s.len(),
{
    if s.len() == 0 {
    } else if is_space(s[s.len() - 1]) {
        assert(t >= 1);
        assert forall|j: int| s.drop_last().len() - (t - 1) <= j < s.drop_last().len()
            implies is_space(s.drop_last()[j]) by {
            assert(s.drop_last()[j] == s[j]);
        }
        lemma_trailing_spaces_unique(s.drop_last(), t - 1);
    } else {
        if t >= 1 {
            assert(is_space(s[s.len() - 1]));
        }
    }
}

/// Scan for the first non-whitespace character.
pub fn find_nonspace(s: &str) -> (i: usize)
    ensures
        i as int == idx_nonspace(s@),
        i <= s@.len(),
{
    let n = s.unicode_len();
    let mut i: usize = 0;
    while i < n
        invariant
            i <= n,
            n == s@.len(),
            forall|j: int| 0 <= j < i ==> is_space(s@[j]),
        decreases n - i,
    {
        if !char_is_space(s.get_char(i)) {
            proof {
                lemma_idx_nonspace_unique(s@, i as int);
            }
            return i;
        }
        i += 1;
    }
    proof {
        lemma_idx_nonspace_unique(s@, n as int);
    }
    n
}

/// Scan for the first whitespace character.
pub fn find_space(s: &str) -> (i: usize)
    ensures
        i as int == idx_space(s@),
        i <= s@.len(),
{
    let n = s.unicode_len();
    let mut i: usize = 0;
    while i < n
        invariant
            i <= n,
            n == s@.len(),
            forall|j: int| 0 <= j < i ==> !is_space(s@[j]),
        decreases n - i,
    {
        if char_is_space(s.get_char(i)) {
            proof {
                lemma_idx_space_unique(s@, i as int);
            }
            return i;
        }
        i += 1;
    }
    proof {
        lemma_idx_space_unique(s@, n as int);
    }
    n
}

/// `s` with leading and trailing whitespace removed.
pub open spec fn spec_trim(s: Seq<char>) -> Seq<char> {
    let a = idx_nonspace(s);
    if a == s.len() {
        Seq::empty()
    } else {
        s.subrange(a, s.len() - trailing_spaces(s))
    }
}

/// Remove leading and trailing whitespace.
pub fn trim_spaces<'a>(s: &'a str) -> (r: &'a str)
    ensures
        r@ == spec_trim(s@),
{
    let n = s.unicode_len();
    let a = find_nonspace(s);
    if a == n {
        let empty = "";
        proof {
            reveal_strlit("");
            assert(empty@ =~= Seq::<char>::empty());
        }
        return empty;
    }
    proof {
        lemma_idx_nonspace_props(s@);
    }
    let mut b: usize = n;
    loop
        invariant
            a < b <= n,
            n == s@.len(),
            a as int == idx_nonspace(s@),
            a < n,
            !is_space(s@[a as int]),
            forall|j: int| b <= j < n ==> is_space(s@[j]),
        ensures
            a < b <= n,
            forall|j: int| b <= j < n ==> is_space(s@[j]),
            b == a + 1 || !is_space(s@[b - 1]),
        decreases b,
    {
        if b == a + 1 {
            break;
        }
        if !char_is_space(s.get_char(b - 1)) {
            break;
        }
        b -= 1;
    }
    proof {
        assert(!is_space(s@[b - 1])) by {
            if b == a + 1 {
                assert(s@[b - 1] == s@[a as int]);
            }
        }
        lemma_trailing_spaces_unique(s@, n - b);
    }
    s.substring_char(a, b)
}

/// Extract field number `k` of `s` split at `sep`; empty if there is none.
pub fn field_of<'a>(s: &'a str, sep: char, k: usize) -> (r: (&'a str, bool))
    ensures
        r.0@ == spec_field(s@, sep, k as nat),
        r.1 == spec_has_field(s@, sep, k as nat),
    decreases k,
{
    proof {
        lemma_idx_of_props(s@, sep);
    }
    let i = find_char(s, sep);
    let n = s.unicode_len();
    if k == 0 {
        (s.substring_char(0, i), true)
    } else if i == n {
        let empty = "";
        proof {
            reveal_strlit("");
            assert(empty@ =~= Seq::<char>::empty());
        }
        (empty, false)
    } else {
        field_of(s.substring_char(i + 1, n), sep, k - 1)
    }
}

/// Start of the second whitespace-separated token of `s`, or `s.len()` if
/// there is no such token.
pub open spec fn spec_second_token_start(s: Seq<char>) -> int {
    let a0 = idx_nonspace(s);
    let b0 = a0 + idx_space(s.subrange(a0, s.len() as int));
    b0 + idx_nonspace(s.subrange(b0, s.len() as int))
}

/// Whether `s` has at least two whitespace-separated tokens.
pub open spec fn spec_has_second_token(s: Seq<char>) -> bool {
    spec_second_token_start(s) < s.len()
}

/// The second whitespace-separated token of `s`.
pub open spec fn spec_second_token(s: Seq<char>) -> Seq<char> {
    let a1 = spec_second_token_start(s);
    s.subrange(a1, a1 + idx_space(s.subrange(a1, s.len() as int)))
}

/// The second whitespace-separated token, if `s` has one.
pub fn second_ws_token<'a>(s: &'a str) -> (r: Option<&'a str>)
    ensures
        match r {
            Some(t) => spec_has_second_token(s@) && t@ == spec_second_token(s@),
            None => !spec_has_second_token(s@),
        },
{
    let n = s.unicode_len();
    let a0 = find_nonspace(s);
    let rest0 = s.substring_char(a0, n);
    let b0 = a0 + find_space(rest0);
    proof {
        lemma_idx_space_props(rest0@);
    }
    let rest1 = s.substring_char(b0, n);
    let a1 = b0 + find_nonspace(rest1);
    proof {
        lemma_idx_nonspace_props(rest1@);
    }
    if a1 >= n {
        None
    } else {
        let rest2 = s.substring_char(a1, n);
        let b1 = a1 + find_space(rest2);
        proof {
            lemma_idx_space_props(rest2@);
        }
        Some(s.substring_char(a1, b1))
    }
}

/// `line` with one trailing carriage return removed, if it ends in one.
pub open spec fn strip_cr(line: Seq<char>) -> Seq<char> {
    if line.len() > 0 && line[line.len() - 1] == '\r' {
        line.drop_last()
    } else {
        line
    }
}

/// The first line of `s`: everything before the first line feed, with a
/// carriage return closing it removed; all of `s` when it has no line feed.
pub open spec fn spec_first_line(s: Seq<char>) -> Seq<char> {
    let i = idx_of(s, '\n');
    if i >= s.len() {
        s
    } else {
        strip_cr(s.subrange(0, i))
    }
}

/// Extract the first line of `s`.
pub fn first_line<'a>(s: &'a str) -> (r: &'a str)
    ensures
        r@ == spec_first_line(s@),
{
    let n = s.unicode_len();
    let i = find_char(s, '\n');
    proof {
        lemma_idx_of_props(s@, '\n');
    }
    if i == n {
        s
    } else if i > 0 && s.get_char(i - 1) == '\r' {
        proof {
            assert(s@.subrange(0, i as int).drop_last() =~= s@.subrange(0, i - 1));
        }
        s.substring_char(0, i - 1)
    } else {
        proof {
            if i > 0 {
                assert(s@.subrange(0, i as int)[i - 1] == s@[i - 1]);
            }
        }
        s.substring_char(0, i)
    }
}

/// The lines of `text`: split at line feeds, each line stripped of a closing
/// carriage return, with an unterminated final line kept as it stands and a
/// final line feed producing no extra empty line.
pub open spec fn spec_lines(text: Seq<char>) -> Seq<Seq<char>>
    decreases text.len(),
        via spec_lines_decreases
{
    if text.len() == 0 {
        Seq::empty()
    } else {
        let i = idx_of(text, '\n');
        if i >= text.len() {
            seq![text]
        } else {
            seq![strip_cr(text.subrange(0, i))] + spec_lines(
                text.subrange(i + 1, text.len() as int),
            )
        }
    }
}

#[via_fn]
proof fn spec_lines_decreases(text: Seq<char>) {
    lemma_idx_of_props(text, '\n');
}

/// Split `text` into its lines.
pub fn split_lines(text: &str) -> (r: Vec<String>)
    ensures
        r.deep_view() == spec_lines(text@),
{
    let mut acc: Vec<String> = Vec::new();
    let mut rest: &str = text;
    proof {
        assert(acc.deep_view() + spec_lines(text@) =~~= spec_lines(text@));
    }
    loop
        invariant_except_break
            spec_lines(text@) == acc.deep_view() + spec_lines(rest@),
        ensures
            spec_lines(text@) == acc.deep_view(),
        decreases rest@.len(),
    {
        let n = rest.unicode_len();
        if n == 0 {
            proof {
                assert(spec_lines(text@) =~~= acc.deep_view());
            }
            break;
        }
        let i = find_char(rest, '\n');
        proof {
            lemma_idx_of_props(rest@, '\n');
        }
        if i == n {
            let ghost pre = acc.deep_view();
            acc.push(rest.to_owned());
            proof {
                assert(acc.deep_view() =~~= pre.push(rest@));
                assert(spec_lines(rest@) =~~= seq![rest@]);
                assert(spec_lines(text@) =~~= acc.deep_view());
            }
            break;
        }
        let line = first_line(rest);
        let next = rest.substring_char(i + 1, n);
        proof {
            assert(spec_first_line(rest@) == strip_cr(rest@.subrange(0, i as int)));
            assert(spec_lines(rest@) =~~= seq![spec_first_line(rest@)] + spec_lines(next@));
        }
        let ghost pre = acc.deep_view();
        acc.push(line.to_owned());
        proof {
            assert(acc.deep_view() =~~= pre.push(line@));
            assert(acc.deep_view() + spec_lines(next@) =~~= pre + spec_lines(rest@));
        }
        rest = next;
    }
    acc
}

} // verus!
