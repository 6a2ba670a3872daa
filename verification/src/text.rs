//! Character-level scanning: white space, tokens, prefixes and trimming.
//!
//! Contracts speak of a string through its view, a `Seq<char>`; the
//! executable functions scan a `Vec<char>` that holds the same characters.

use vstd::prelude::*;

verus! {

/// White space in the sense of Unicode's `White_Space` property.
pub open spec fn is_space(c: char) -> bool {
    let u = c as u32;
    ||| 0x09 <= u <= 0x0d
    ||| u == 0x20
    ||| u == 0x85
    ||| u == 0xa0
    ||| u == 0x1680
    ||| 0x2000 <= u <= 0x200a
    ||| u == 0x2028
    ||| u == 0x2029
    ||| u == 0x202f
    ||| u == 0x205f
    ||| u == 0x3000
}

/// The first index at or after `i` that holds no white space, or the length of `s`.
pub open spec fn skip_spaces(s: Seq<char>, i: int) -> int
    decreases s.len() - i,
{
    if 0 <= i < s.len() && is_space(s[i]) {
        skip_spaces(s, i + 1)
    } else {
        i
    }
}

/// The first index at or after `i` that holds white space, or the length of `s`.
pub open spec fn skip_word(s: Seq<char>, i: int) -> int
    decreases s.len() - i,
{
    if 0 <= i < s.len() && !is_space(s[i]) {
        skip_word(s, i + 1)
    } else {
        i
    }
}

/// Where the first token of `s` begins: past the leading white space.
pub open spec fn first_start(s: Seq<char>) -> int {
    skip_spaces(s, 0)
}

/// Where the first token of `s` ends.
pub open spec fn first_end(s: Seq<char>) -> int {
    skip_word(s, first_start(s))
}

/// Where the second token of `s` begins.
pub open spec fn second_start(s: Seq<char>) -> int {
    skip_spaces(s, first_end(s))
}

/// Where the second token of `s` ends.
pub open spec fn second_end(s: Seq<char>) -> int {
    skip_word(s, second_start(s))
}

/// The first maximal run of characters of `s` that are not white space, if there is one.
pub open spec fn first_token(s: Seq<char>) -> Option<Seq<char>> {
    if first_start(s) < s.len() {
        Some(s.subrange(first_start(s), first_end(s)))
    } else {
        None
    }
}

/// The second maximal run of characters of `s` that are not white space, if there is one.
pub open spec fn second_token(s: Seq<char>) -> Option<Seq<char>> {
    if second_start(s) < s.len() {
        Some(s.subrange(second_start(s), second_end(s)))
    } else {
        None
    }
}

/// `s` without the characters `c` at its end.
pub open spec fn trim_end(s: Seq<char>, c: char) -> Seq<char>
    decreases s.len(),
{
    if s.len() > 0 && s.last() == c {
        trim_end(s.drop_last(), c)
    } else {
        s
    }
}

/// Whether `s` holds a colon directly followed by a space.
pub open spec fn has_separator(s: Seq<char>) -> bool {
    exists|i: int| 0 <= i && i + 1 < s.len() && s[i] == ':' && #[trigger] s[i + 1] == ' '
}

/// Whether `s` holds no white space.
pub open spec fn plain(s: Seq<char>) -> bool {
    forall|i: int| 0 <= i < s.len() ==> !is_space(#[trigger] s[i])
}

/// White space from `i` up to `j`, and none at `j`: skipping the white
/// space at `i` leads to `j`.
pub proof fn lemma_skip_spaces_to(s: Seq<char>, i: int, j: int)
    requires
        0 <= i <= j <= s.len(),
        forall|k: int| i <= k < j ==> is_space(#[trigger] s[k]),
        j == s.len() || !is_space(s[j]),
    ensures
        skip_spaces(s, i) == j,
    decreases j - i,
{
    if i < j {
        lemma_skip_spaces_to(s, i + 1, j);
    }
}

/// No white space from `i` up to `j`, and white space or the end at `j`:
/// the word at `i` ends at `j`.
pub proof fn lemma_skip_word_to(s: Seq<char>, i: int, j: int)
    requires
        0 <= i <= j <= s.len(),
        forall|k: int| i <= k < j ==> !is_space(#[trigger] s[k]),
        j == s.len() || is_space(s[j]),
    ensures
        skip_word(s, i) == j,
    decreases j - i,
{
    if i < j {
        lemma_skip_word_to(s, i + 1, j);
    }
}

/// A text that does not end with `c` is its own trimmed form, also behind
/// any number of `c` at its end.
pub proof fn lemma_trim_end_run(s: Seq<char>, c: char, n: nat)
    requires
        s.len() > 0 ==> s.last() != c,
    ensures
        trim_end(s + Seq::new(n, |i: int| c), c) == s,
    decreases n,
{
    let run = Seq::new(n, |i: int| c);
    if n == 0 {
        assert(s + run =~= s);
    } else {
        lemma_trim_end_run(s, c, (n - 1) as nat);
        assert((s + run).drop_last() =~= s + Seq::new((n - 1) as nat, |i: int| c));
    }
}

/// Skipping white space from `i` stays within `s`, passes white space
/// only, and stops at a character that is none.
pub proof fn lemma_skip_spaces_bounds(s: Seq<char>, i: int)
    requires
        0 <= i <= s.len(),
    ensures
        i <= skip_spaces(s, i) <= s.len(),
        skip_spaces(s, i) < s.len() ==> !is_space(s[skip_spaces(s, i)]),
        forall|j: int| i <= j < skip_spaces(s, i) ==> is_space(#[trigger] s[j]),
    decreases s.len() - i,
{
    if i < s.len() && is_space(s[i]) {
        lemma_skip_spaces_bounds(s, i + 1);
    }
}

/// Whether `c` is white space.
pub fn is_space_char(c: char) -> (b: bool)
    ensures
        b == is_space(c),
{
    let u: u32 = c as u32;
    (0x09 <= u && u <= 0x0d) || u == 0x20 || u == 0x85 || u == 0xa0 || u == 0x1680 || (0x2000 <= u
        && u <= 0x200a) || u == 0x2028 || u == 0x2029 || u == 0x202f || u == 0x205f || u == 0x3000
}

/// The characters of `s`, one element each.
pub fn chars_of(s: &str) -> (v: Vec<char>)
    ensures
        v@ == s@,
{
    broadcast use vstd::string::group_string_axioms;

    let mut v: Vec<char> = Vec::new();
    for c in it: s.chars()
        invariant
            it.seq() == s@,
            v@ == s@.take(it.index() as int),
    {
        v.push(c);
    }
    v
}

/// The first index at or after `i` that holds no white space.
pub fn scan_spaces(v: &Vec<char>, i: usize) -> (j: usize)
    requires
        i <= v.len(),
    ensures
        j == skip_spaces(v@, i as int),
        i <= j <= v.len(),
{
    let mut j: usize = i;
    while j < v.len() && is_space_char(v[j])
        invariant
            i <= j <= v.len(),
            skip_spaces(v@, i as int) == skip_spaces(v@, j as int),
        decreases v.len() - j,
    {
        j = j + 1;
    }
    j
}

/// The first index at or after `i` that holds white space.
pub fn scan_word(v: &Vec<char>, i: usize) -> (j: usize)
    requires
        i <= v.len(),
    ensures
        j == skip_word(v@, i as int),
        i <= j <= v.len(),
{
    let mut j: usize = i;
    while j < v.len() && !is_space_char(v[j])
        invariant
            i <= j <= v.len(),
            skip_word(v@, i as int) == skip_word(v@, j as int),
        decreases v.len() - j,
    {
        j = j + 1;
    }
    j
}

/// Where the characters of `v` from `from` up to `to` end once the
/// characters `c` at their end are left off.
pub fn scan_trim_end(v: &Vec<char>, from: usize, to: usize, c: char) -> (n: usize)
    requires
        from <= to <= v.len(),
    ensures
        from <= n <= to,
        v@.subrange(from as int, n as int) == trim_end(v@.subrange(from as int, to as int), c),
{
    let mut n: usize = to;
    while n > from && v[n - 1] == c
        invariant
            from <= n <= to <= v.len(),
            trim_end(v@.subrange(from as int, n as int), c) == trim_end(
                v@.subrange(from as int, to as int),
                c,
            ),
        decreases n,
    {
        assert(v@.subrange(from as int, n as int).drop_last() =~= v@.subrange(
            from as int,
            n - 1,
        ));
        n = n - 1;
    }
    n
}

/// Whether `v` holds a colon directly followed by a space.
pub fn scan_separator(v: &Vec<char>) -> (b: bool)
    ensures
        b == has_separator(v@),
{
    if v.len() < 2 {
        return false;
    }
    let mut i: usize = 0;
    while i < v.len() - 1
        invariant
            2 <= v.len(),
            i <= v.len() - 1,
            forall|k: int| 0 <= k < i ==> !(v@[k] == ':' && #[trigger] v@[k + 1] == ' '),
        decreases v.len() - i,
    {
        if v[i] == ':' && v[i + 1] == ' ' {
            return true;
        }
        i = i + 1;
    }
    false
}

/// Whether `v` begins with the characters of `word`.
pub fn begins_with(v: &Vec<char>, word: &Vec<char>) -> (b: bool)
    ensures
        b == word@.is_prefix_of(v@),
{
    if word.len() > v.len() {
        return false;
    }
    let mut i: usize = 0;
    while i < word.len()
        invariant
            i <= word.len() <= v.len(),
            forall|k: int| 0 <= k < i ==> v@[k] == word@[k],
        decreases word.len() - i,
    {
        if v[i] != word[i] {
            return false;
        }
        i = i + 1;
    }
    true
}

/// Whether the characters of `v` from `from` up to `to` are those of `word`.
pub fn range_is(v: &Vec<char>, from: usize, to: usize, word: &Vec<char>) -> (b: bool)
    requires
        from <= to <= v.len(),
    ensures
        b == (v@.subrange(from as int, to as int) == word@),
{
    if to - from != word.len() {
        return false;
    }
    let mut i: usize = 0;
    while i < word.len()
        invariant
            i <= word.len(),
            to - from == word.len(),
            from <= to <= v.len(),
            forall|k: int| 0 <= k < i ==> v@[from + k] == word@[k],
        decreases word.len() - i,
    {
        if v[from + i] != word[i] {
            return false;
        }
        i = i + 1;
    }
    assert(v@.subrange(from as int, to as int) =~= word@);
    true
}

} // verus!
