use vstd::prelude::*;
use vstd::utf8::{encode_utf8, encode_scalar, is_ascii_chars, is_ascii_chars_encode_utf8};

verus! {

broadcast use vstd::utf8::char_is_scalar;

/// Whether `c` is one of the ASCII digits `0` to `9`.
pub open spec fn is_ascii_digit_char(c: char) -> bool {
    '0' <= c <= '9'
}

/// Whether every character of `s` is an ASCII digit.
pub open spec fn all_ascii_digits(s: Seq<char>) -> bool {
    forall|i: int| 0 <= i < s.len() ==> is_ascii_digit_char(#[trigger] s[i])
}

/// The number of bytes of the UTF-8 encoding of `s`.
pub open spec fn utf8_len(s: Seq<char>) -> nat {
    encode_utf8(s).len()
}

/// The UTF-8 encoding of a concatenation is the concatenation of the encodings.
pub proof fn lemma_encode_utf8_append(a: Seq<char>, b: Seq<char>)
    ensures
        encode_utf8(a + b) == encode_utf8(a) + encode_utf8(b),
    decreases a.len(),
{
    if a.len() == 0 {
        assert(a + b == b);
        assert(encode_utf8(a) == Seq::<u8>::empty());
        assert(encode_utf8(a) + encode_utf8(b) == encode_utf8(b));
    } else {
        lemma_encode_utf8_append(a.drop_first(), b);
        assert((a + b).drop_first() == a.drop_first() + b);
        assert(encode_utf8(a + b) == encode_scalar(a[0] as u32) + encode_utf8(a.drop_first() + b));
        assert(encode_utf8(a) == encode_scalar(a[0] as u32) + encode_utf8(a.drop_first()));
        assert(encode_scalar(a[0] as u32) + (encode_utf8(a.drop_first()) + encode_utf8(b))
            == (encode_scalar(a[0] as u32) + encode_utf8(a.drop_first())) + encode_utf8(b));
    }
}

/// Extending a prefix by one character adds that character's width.
pub proof fn lemma_utf8_len_push(s: Seq<char>, i: int)
    requires
        0 <= i < s.len(),
    ensures
        utf8_len(s.take(i + 1)) == utf8_len(s.take(i)) + encode_scalar(s[i] as u32).len(),
{
    assert(s.take(i + 1) == s.take(i) + seq![s[i]]);
    lemma_encode_utf8_append(s.take(i), seq![s[i]]);
    assert(seq![s[i]].drop_first() == Seq::<char>::empty());
    assert(encode_utf8(seq![s[i]]) == encode_scalar(s[i] as u32) + encode_utf8(Seq::<char>::empty()));
    assert(encode_utf8(Seq::<char>::empty()) == Seq::<u8>::empty());
    assert(encode_scalar(s[i] as u32) + Seq::<u8>::empty() == encode_scalar(s[i] as u32));
}

/// A prefix never takes more bytes than the whole.
pub proof fn lemma_utf8_len_prefix(s: Seq<char>, k: int)
    requires
        0 <= k <= s.len(),
    ensures
        utf8_len(s.take(k)) <= utf8_len(s),
{
    assert(s == s.take(k) + s.skip(k));
    lemma_encode_utf8_append(s.take(k), s.skip(k));
}

/// The number of bytes that `c` takes in UTF-8.
fn char_width(c: char) -> (w: usize)
    ensures
        w == encode_scalar(c as u32).len(),
        1 <= w <= 4,
{
    let u = c as u32;
    if u < 0x80 {
        1
    } else if u < 0x800 {
        2
    } else if u < 0x10000 {
        3
    } else {
        4
    }
}

/// Whether `c` occurs in `s`.
pub fn contains_char(s: &str, c: char) -> (r: bool)
    ensures
        r == s@.contains(c),
{
    let mut found = false;
    let ghost chars = s@;
    for ch in it: s.chars()
        invariant
            it.seq() == chars,
            chars == s@,
            found ==> chars.contains(c),
            !found ==> forall|j: int| 0 <= j < it.index() ==> chars[j] != c,
    {
        if ch == c {
            assert(chars[it.index() as int] == c);
            found = true;
        }
    }
    found
}

/// Whether the UTF-8 encoding of `s` takes at least `n` bytes.
pub fn utf8_len_at_least(s: &str, n: usize) -> (r: bool)
    ensures
        r == (utf8_len(s@) >= n),
{
    let ghost chars = s@;
    let mut count: usize = 0;
    if n == 0 {
        return true;
    }
    for ch in it: s.chars()
        invariant
            it.seq() == chars,
            chars == s@,
            0 <= it.index() <= chars.len(),
            count == utf8_len(chars.take(it.index() as int)),
            count < n,
    {
        proof {
            lemma_utf8_len_push(chars, it.index() as int);
        }
        let w = char_width(ch);
        if w >= n - count {
            proof {
                lemma_utf8_len_prefix(chars, it.index() + 1);
            }
            return true;
        }
        count = count + w;
    }
    assert(chars.take(chars.len() as int) == chars);
    false
}

/// Whether `s` is made of exactly `n` characters, each an ASCII digit.
pub fn is_digit_string_of_len(s: &str, n: usize) -> (r: bool)
    ensures
        r == (s@.len() == n && all_ascii_digits(s@)),
{
    let ghost chars = s@;
    let mut count: usize = 0;
    for ch in it: s.chars()
        invariant
            it.seq() == chars,
            chars == s@,
            count == it.index(),
            count <= n,
            all_ascii_digits(chars.take(it.index() as int)),
    {
        if count == n || !('0' <= ch && ch <= '9') {
            return false;
        }
        assert(chars.take(it.index() + 1) == chars.take(it.index() as int).push(ch));
        count = count + 1;
    }
    assert(chars.take(chars.len() as int) == chars);
    count == n
}

/// A string of ASCII digits takes one byte per character.
pub proof fn lemma_digits_utf8_len(s: Seq<char>)
    requires
        all_ascii_digits(s),
    ensures
        utf8_len(s) == s.len(),
{
    assert(is_ascii_chars(s));
    is_ascii_chars_encode_utf8(s);
}

} // verus!
