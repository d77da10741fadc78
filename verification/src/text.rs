//! Reading short codes out of text: which characters are blank, what is left
//! of a string when the blanks around it are taken off, and letter case.

use vstd::prelude::*;

verus! {

/// Whether `c` is white space: one of the 25 characters that Unicode gives
/// the property `White_Space`. These are what `str::trim` takes off.
pub open spec fn is_space(c: char) -> bool {
    let n = c as u32;
    ||| 0x09 <= n <= 0x0D
    ||| n == 0x20
    ||| n == 0x85
    ||| n == 0xA0
    ||| n == 0x1680
    ||| 0x2000 <= n <= 0x200A
    ||| n == 0x2028
    ||| n == 0x2029
    ||| n == 0x202F
    ||| n == 0x205F
    ||| n == 0x3000
}

/// `s` without the white space it begins with.
pub open spec fn skip_spaces(s: Seq<char>) -> Seq<char>
    decreases s.len(),
{
    if s.len() > 0 && is_space(s[0]) {
        skip_spaces(s.drop_first())
    } else {
        s
    }
}

/// `s` without the white space it ends with.
pub open spec fn drop_spaces(s: Seq<char>) -> Seq<char>
    decreases s.len(),
{
    if s.len() > 0 && is_space(s.last()) {
        drop_spaces(s.drop_last())
    } else {
        s
    }
}

/// `s` without the white space around it.
pub open spec fn trimmed(s: Seq<char>) -> Seq<char> {
    drop_spaces(skip_spaces(s))
}

/// The capital of an ASCII small letter; any other character itself.
pub open spec fn upper(c: char) -> char {
    if 'a' <= c <= 'z' {
        ((c as u8) - 32) as char
    } else {
        c
    }
}

/// `s` with each ASCII small letter replaced by its capital.
pub open spec fn uppercase(s: Seq<char>) -> Seq<char> {
    s.map_values(|c: char| upper(c))
}

/// Whether every character of `s` is white space.
pub open spec fn is_blank(s: Seq<char>) -> bool {
    forall|i: int| 0 <= i < s.len() ==> is_space(#[trigger] s[i])
}

/// Whether `c` is white space.
pub fn is_whitespace(c: char) -> (r: bool)
    ensures
        r == is_space(c),
{
    let n: u32 = c as u32;
    (0x09 <= n && n <= 0x0D) || n == 0x20 || n == 0x85 || n == 0xA0 || n == 0x1680 || (0x2000 <= n
        && n <= 0x200A) || n == 0x2028 || n == 0x2029 || n == 0x202F || n == 0x205F || n == 0x3000
}

/// The capital of an ASCII small letter; any other character itself.
pub fn to_upper(c: char) -> (r: char)
    ensures
        r == upper(c),
{
    if 'a' <= c && c <= 'z' {
        ((c as u8) - 32) as char
    } else {
        c
    }
}

/// The characters of `s`, one by one.
pub fn chars_of(s: &str) -> (chars: Vec<char>)
    ensures
        chars@ == s@,
{
    let mut chars: Vec<char> = Vec::new();
    for c in it: s.chars()
        invariant
            it.seq() == s@,
            chars@ == s@.take(it.index() as int),
    {
        chars.push(c);
    }
    chars
}

/// Where the part of `chars` without the white space around it begins and
/// ends: behind the white space that `chars` begins with, and as far on as
/// that part is long.
pub fn trim_bounds(chars: &Vec<char>) -> (bounds: (usize, usize))
    ensures
        bounds.0 <= bounds.1 <= chars.len(),
        bounds.0 + skip_spaces(chars@).len() == chars.len(),
        chars@.subrange(bounds.0 as int, bounds.1 as int) == trimmed(chars@),
{
    let n: usize = chars.len();
    let mut start: usize = 0;
    assert(chars@.skip(0) == chars@);
    while start < n && is_whitespace(chars[start])
        invariant
            start <= n == chars.len(),
            skip_spaces(chars@) == skip_spaces(chars@.skip(start as int)),
        decreases n - start,
    {
        assert(chars@.skip(start as int).drop_first() == chars@.skip(start + 1));
        start = start + 1;
    }
    let mut end: usize = n;
    while end > start && is_whitespace(chars[end - 1])
        invariant
            start <= end <= n == chars.len(),
            trimmed(chars@) == drop_spaces(chars@.subrange(start as int, end as int)),
        decreases end,
    {
        assert(chars@.subrange(start as int, end as int).drop_last() == chars@.subrange(
            start as int,
            end - 1,
        ));
        end = end - 1;
    }
    (start, end)
}

/// `s` without the white space around it.
pub fn trim(s: &str) -> (r: &str)
    ensures
        r@ == trimmed(s@),
{
    let chars: Vec<char> = chars_of(s);
    let (start, end) = trim_bounds(&chars);
    s.substring_char(start, end)
}

/// Whether the characters of `chars` from `start` up to `end` spell `word`,
/// whatever the case of their letters is.
pub fn spells(chars: &Vec<char>, start: usize, end: usize, word: &str) -> (r: bool)
    requires
        start <= end <= chars.len(),
    ensures
        r == (uppercase(chars@.subrange(start as int, end as int)) == word@),
{
    let ghost part = chars@.subrange(start as int, end as int);
    let letters: Vec<char> = chars_of(word);
    if letters.len() != end - start {
        return false;
    }
    let mut i: usize = 0;
    while i < letters.len()
        invariant
            start <= end <= chars.len(),
            letters.len() == end - start,
            i <= letters.len(),
            letters@ == word@,
            part == chars@.subrange(start as int, end as int),
            forall|j: int| 0 <= j < i ==> uppercase(part)[j] == word@[j],
        decreases letters.len() - i,
    {
        if to_upper(chars[start + i]) != letters[i] {
            return false;
        }
        i = i + 1;
    }
    assert(uppercase(part) =~= word@);
    true
}

/// Taking the white space off commutes with putting in upper case.
pub proof fn lemma_trimmed_uppercase(s: Seq<char>)
    ensures
        trimmed(uppercase(s)) == uppercase(trimmed(s)),
{
    lemma_skip_spaces_uppercase(s);
    lemma_drop_spaces_uppercase(skip_spaces(s));
}

/// Skipping the white space in front commutes with putting in upper case:
/// no letter is white space.
proof fn lemma_skip_spaces_uppercase(s: Seq<char>)
    ensures
        skip_spaces(uppercase(s)) == uppercase(skip_spaces(s)),
    decreases s.len(),
{
    if s.len() > 0 && is_space(s[0]) {
        assert(uppercase(s).drop_first() =~= uppercase(s.drop_first()));
        lemma_skip_spaces_uppercase(s.drop_first());
    }
}

/// Dropping the white space behind commutes with putting in upper case.
proof fn lemma_drop_spaces_uppercase(s: Seq<char>)
    ensures
        drop_spaces(uppercase(s)) == uppercase(drop_spaces(s)),
    decreases s.len(),
{
    if s.len() > 0 && is_space(s.last()) {
        assert(uppercase(s).drop_last() =~= uppercase(s.drop_last()));
        lemma_drop_spaces_uppercase(s.drop_last());
    }
}

/// Nothing is left of a blank string.
proof fn lemma_skip_spaces_blank(s: Seq<char>)
    requires
        is_blank(s),
    ensures
        skip_spaces(s).len() == 0,
    decreases s.len(),
{
    if s.len() > 0 {
        lemma_skip_spaces_blank(s.drop_first());
    }
}

/// White space in front of a string is skipped with the string's own.
proof fn lemma_skip_spaces_before(lead: Seq<char>, s: Seq<char>)
    requires
        is_blank(lead),
    ensures
        skip_spaces(lead + s) == skip_spaces(s),
    decreases lead.len(),
{
    if lead.len() > 0 {
        assert((lead + s).drop_first() =~= lead.drop_first() + s);
        lemma_skip_spaces_before(lead.drop_first(), s);
    }
}

/// White space behind a string is dropped with the string's own.
proof fn lemma_drop_spaces_after(s: Seq<char>, trail: Seq<char>)
    requires
        is_blank(trail),
    ensures
        drop_spaces(s + trail) == drop_spaces(s),
    decreases trail.len(),
{
    if trail.len() > 0 {
        assert((s + trail).drop_last() =~= s + trail.drop_last());
        lemma_drop_spaces_after(s, trail.drop_last());
    }
}

/// Where something is left of a string, what follows the string is left too.
proof fn lemma_skip_spaces_keeps_tail(s: Seq<char>, trail: Seq<char>)
    requires
        skip_spaces(s).len() > 0,
    ensures
        skip_spaces(s + trail) == skip_spaces(s) + trail,
    decreases s.len(),
{
    if s.len() > 0 && is_space(s[0]) {
        assert((s + trail).drop_first() =~= s.drop_first() + trail);
        lemma_skip_spaces_keeps_tail(s.drop_first(), trail);
    }
}

/// White space around a string does not change what is left when the white
/// space around it is taken off.
pub proof fn lemma_trimmed_ignores_padding(lead: Seq<char>, s: Seq<char>, trail: Seq<char>)
    requires
        is_blank(lead),
        is_blank(trail),
    ensures
        trimmed(lead + s + trail) == trimmed(s),
{
    assert(lead + s + trail =~= lead + (s + trail));
    lemma_skip_spaces_before(lead, s + trail);
    if skip_spaces(s).len() > 0 {
        lemma_skip_spaces_keeps_tail(s, trail);
        lemma_drop_spaces_after(skip_spaces(s), trail);
    } else {
        lemma_skip_spaces_all_blank(s);
        lemma_skip_spaces_blank(s + trail);
    }
}

/// A string of which nothing is left is blank.
proof fn lemma_skip_spaces_all_blank(s: Seq<char>)
    requires
        skip_spaces(s).len() == 0,
    ensures
        is_blank(s),
    decreases s.len(),
{
    if s.len() > 0 {
        lemma_skip_spaces_all_blank(s.drop_first());
        assert forall|i: int| 0 <= i < s.len() implies is_space(#[trigger] s[i]) by {
            if i > 0 {
                assert(s[i] == s.drop_first()[i - 1]);
            }
        }
    }
}

} // verus!
