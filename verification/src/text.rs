//! Byte and character classification shared by configuration checks, the
//! Bearer header parser and the logical table label.

use vstd::prelude::*;

verus! {

/// Unicode's `White_Space` property of a character, which
/// `char::is_whitespace` and `str::trim` test: tab, line feed, vertical tab,
/// form feed, carriage return, space, next line, no-break space, ogham space
/// mark, the spaces from en quad to hair space, line separator, paragraph
/// separator, narrow no-break space, medium mathematical space and
/// ideographic space.
pub open spec fn char_is_whitespace(c: char) -> bool {
    let u = c as u32;
    ||| 0x09 <= u <= 0x0d
    ||| u == 0x20
    ||| u == 0x85
    ||| u == 0xa0
    ||| u == 0x1680
    ||| 0x2000 <= u <= 0x200a
    ||| u == 0x2028
    ||| u == 0x2029
    ||| u == 0x202f
    ||| u == 0x205f
    ||| u == 0x3000
}

/// The number of whitespace characters at the start of `s`.
pub open spec fn leading_whitespace(s: Seq<char>) -> nat
    decreases s.len(),
{
    if s.len() == 0 {
        0
    } else if char_is_whitespace(s[0]) {
        1 + leading_whitespace(s.drop_first())
    } else {
        0
    }
}

/// The number of whitespace characters at the end of `s`.
pub open spec fn trailing_whitespace(s: Seq<char>) -> nat
    decreases s.len(),
{
    if s.len() == 0 {
        0
    } else if char_is_whitespace(s.last()) {
        1 + trailing_whitespace(s.drop_last())
    } else {
        0
    }
}

/// `s` without its leading and trailing whitespace.
pub open spec fn trim_whitespace(s: Seq<char>) -> Seq<char> {
    if leading_whitespace(s) == s.len() {
        Seq::empty()
    } else {
        s.subrange(leading_whitespace(s) as int, s.len() - trailing_whitespace(s))
    }
}

/// The leading whitespace of `s` is whitespace, and the character after it
/// is not.
pub proof fn lemma_leading_whitespace(s: Seq<char>)
    ensures
        leading_whitespace(s) <= s.len(),
        forall|i: int| 0 <= i < leading_whitespace(s) ==> char_is_whitespace(#[trigger] s[i]),
        leading_whitespace(s) < s.len() ==> !char_is_whitespace(s[leading_whitespace(s) as int]),
    decreases s.len(),
{
    if s.len() > 0 && char_is_whitespace(s[0]) {
        lemma_leading_whitespace(s.drop_first());
        assert forall|i: int| 0 <= i < leading_whitespace(s) implies char_is_whitespace(
            #[trigger] s[i],
        ) by {
            if i > 0 {
                assert(s[i] == s.drop_first()[i - 1]);
            }
        }
    }
}

/// The trailing whitespace of `s` is whitespace, and the character before
/// it is not.
pub proof fn lemma_trailing_whitespace(s: Seq<char>)
    ensures
        trailing_whitespace(s) <= s.len(),
        forall|i: int|
            s.len() - trailing_whitespace(s) <= i < s.len() ==> char_is_whitespace(#[trigger] s[i]),
        trailing_whitespace(s) < s.len() ==> !char_is_whitespace(
            s[s.len() - trailing_whitespace(s) - 1],
        ),
    decreases s.len(),
{
    if s.len() > 0 && char_is_whitespace(s.last()) {
        lemma_trailing_whitespace(s.drop_last());
        assert forall|i: int|
            s.len() - trailing_whitespace(s) <= i < s.len() implies char_is_whitespace(
            #[trigger] s[i],
        ) by {
            if i < s.len() - 1 {
                assert(s[i] == s.drop_last()[i]);
            }
        }
    }
}

/// A trimmed text is empty or starts and ends with a character that is not
/// whitespace.
pub proof fn lemma_trim_ends(s: Seq<char>)
    ensures
        trim_whitespace(s).len() > 0 ==> !char_is_whitespace(trim_whitespace(s)[0])
            && !char_is_whitespace(trim_whitespace(s).last()),
        trim_whitespace(s).len() == 0 <==> forall|i: int|
            0 <= i < s.len() ==> char_is_whitespace(#[trigger] s[i]),
{
    lemma_leading_whitespace(s);
    lemma_trailing_whitespace(s);
    let l = leading_whitespace(s) as int;
    let t = trailing_whitespace(s) as int;
    if l < s.len() {
        // The first non-whitespace character bounds the trailing run.
        if s.len() - t <= l {
            assert(char_is_whitespace(s[l]));
        }
        assert(!char_is_whitespace(s[l]));
    } else {
        assert forall|i: int| 0 <= i < s.len() implies char_is_whitespace(#[trigger] s[i]) by {}
    }
}

/// Trimming a trimmed text changes nothing.
pub proof fn lemma_trim_is_idempotent(s: Seq<char>)
    ensures
        trim_whitespace(trim_whitespace(s)) == trim_whitespace(s),
{
    let t = trim_whitespace(s);
    lemma_trim_ends(s);
    if t.len() > 0 {
        assert(leading_whitespace(t) == 0);
        assert(trailing_whitespace(t) == 0);
        assert(t.subrange(0, t.len() as int) =~= t);
    }
}

/// Calls `str::trim`: the slice of `s` without leading and trailing
/// characters that have the Unicode `White_Space` property.
#[verifier::external_body]
pub(crate) fn trim(s: &str) -> (trimmed: &str)
    ensures
        trimmed@ == trim_whitespace(s@),
{
    s.trim()
}

/// The space byte that separates an HTTP authentication scheme from its
/// credentials.
pub open spec fn space_byte() -> u8 {
    0x20
}

/// `u8::is_ascii_graphic`: a byte from `!` (0x21) to `~` (0x7e).
pub open spec fn is_ascii_graphic(b: u8) -> bool {
    0x21 <= b && b <= 0x7e
}

/// Every byte of `s` is ASCII graphic.
pub open spec fn all_ascii_graphic(s: Seq<u8>) -> bool {
    forall|i: int| 0 <= i < s.len() ==> is_ascii_graphic(#[trigger] s[i])
}

/// `u8::to_ascii_lowercase`.
pub open spec fn ascii_lowercase(b: u8) -> u8 {
    if 0x41 <= b && b <= 0x5a {
        (b + 0x20) as u8
    } else {
        b
    }
}

/// `eq_ignore_ascii_case` on byte strings: equal lengths, and equal bytes
/// once ASCII letters are lowercased.
pub open spec fn eq_ignore_ascii_case(a: Seq<u8>, b: Seq<u8>) -> bool {
    &&& a.len() == b.len()
    &&& forall|i: int| 0 <= i < a.len() ==> ascii_lowercase(#[trigger] a[i]) == ascii_lowercase(b[i])
}

/// `i` is the position of the first space byte of `s`.
pub open spec fn is_first_space(s: Seq<u8>, i: int) -> bool {
    &&& 0 <= i < s.len()
    &&& s[i] == space_byte()
    &&& forall|j: int| 0 <= j < i ==> s[j] != space_byte()
}

/// `split_once(' ')` on ASCII text: the bytes before and after the first
/// space, or `None` where there is no space.
pub open spec fn split_once_space(s: Seq<u8>) -> Option<(Seq<u8>, Seq<u8>)> {
    if exists|i: int| is_first_space(s, i) {
        let i = choose|i: int| is_first_space(s, i);
        Some((s.take(i), s.skip(i + 1)))
    } else {
        None
    }
}

/// Tests `u8::is_ascii_graphic` on every byte of `s`.
pub fn bytes_are_ascii_graphic(s: &[u8]) -> (all: bool)
    ensures
        all == all_ascii_graphic(s@),
{
    let mut i: usize = 0;
    while i < s.len()
        invariant
            0 <= i <= s.len(),
            forall|j: int| 0 <= j < i ==> is_ascii_graphic(#[trigger] s@[j]),
        decreases s.len() - i,
    {
        let b = s[i];
        if !(0x21 <= b && b <= 0x7e) {
            return false;
        }
        i = i + 1;
    }
    true
}

/// Lowercases one ASCII letter and leaves every other byte as it is.
pub fn to_ascii_lowercase(b: u8) -> (lower: u8)
    ensures
        lower == ascii_lowercase(b),
{
    if 0x41 <= b && b <= 0x5a {
        b + 0x20
    } else {
        b
    }
}

/// Compares two byte strings, ignoring the case of ASCII letters.
pub fn bytes_eq_ignore_ascii_case(a: &[u8], b: &[u8]) -> (eq: bool)
    ensures
        eq == eq_ignore_ascii_case(a@, b@),
{
    if a.len() != b.len() {
        return false;
    }
    let mut i: usize = 0;
    while i < a.len()
        invariant
            a@.len() == b@.len(),
            0 <= i <= a.len(),
            forall|j: int| 0 <= j < i ==> ascii_lowercase(#[trigger] a@[j]) == ascii_lowercase(b@[j]),
        decreases a.len() - i,
    {
        if to_ascii_lowercase(a[i]) != to_ascii_lowercase(b[i]) {
            return false;
        }
        i = i + 1;
    }
    true
}

/// The position of the first space byte of `s`, if any.
pub fn first_space(s: &[u8]) -> (index: Option<usize>)
    ensures
        match index {
            Some(i) => is_first_space(s@, i as int),
            None => forall|j: int| 0 <= j < s@.len() ==> s@[j] != space_byte(),
        },
{
    let mut i: usize = 0;
    while i < s.len()
        invariant
            0 <= i <= s.len(),
            forall|j: int| 0 <= j < i ==> s@[j] != space_byte(),
        decreases s.len() - i,
    {
        if s[i] == 0x20 {
            return Some(i);
        }
        i = i + 1;
    }
    None
}

/// The first space of a sequence is unique, so `split_once_space` splits at
/// the position that [`first_space`] finds.
pub proof fn lemma_split_at_first_space(s: Seq<u8>, i: int)
    requires
        is_first_space(s, i),
    ensures
        split_once_space(s) == Some((s.take(i), s.skip(i + 1))),
{
    let k = choose|k: int| is_first_space(s, k);
    assert(is_first_space(s, k));
    if k < i {
        assert(s[k] != space_byte());
    } else if i < k {
        assert(s[i] != space_byte());
    }
}

} // verus!
