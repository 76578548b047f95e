//! Text helpers: Unicode whitespace, word counting, UTF-8 byte length and
//! decimal rendering of counts.
use vstd::prelude::*;
use vstd::string::StringExecFns;
use vstd::utf8::encode_utf8;

verus! {

broadcast use vstd::string::group_string_axioms;

/// Whether `c` has the Unicode `White_Space` property, the set that
/// `char::is_whitespace` tests.
pub open spec fn is_space(c: char) -> bool {
    let u = c as u32;
    ||| 0x09 <= u <= 0x0d
    ||| u == 0x20
    ||| u == 0x85
    ||| u == 0xa0
    ||| u == 0x1680
    ||| 0x2000 <= u <= 0x200a
    ||| u == 0x2028
    ||| u == 0x2029
    ||| u == 0x202f
    ||| u == 0x205f
    ||| u == 0x3000
}

/// Whether every character of `s` is whitespace, that is, whether `s`
/// trims to the empty string.
pub open spec fn blank(s: Seq<char>) -> bool {
    forall|i: int| 0 <= i < s.len() ==> is_space(#[trigger] s[i])
}

/// Whether `s` holds the NUL character.
pub open spec fn has_nul(s: Seq<char>) -> bool {
    exists|i: int| 0 <= i < s.len() && s[i] == '\0'
}

/// Whether position `i` of `s` starts a word: a non-whitespace character
/// that is first or follows whitespace.
pub open spec fn starts_word(s: Seq<char>, i: int) -> bool {
    &&& !is_space(s[i])
    &&& (i == 0 || is_space(s[i - 1]))
}

/// The number of maximal runs of non-whitespace characters in `s`: what
/// `split_whitespace().count()` returns.
pub open spec fn word_count(s: Seq<char>) -> nat
    decreases s.len(),
{
    if s.len() == 0 {
        0
    } else {
        word_count(s.drop_last()) + if starts_word(s, s.len() - 1) { 1nat } else { 0nat }
    }
}

/// Whether the UTF-8 encoding of `s` fits in memory, as that of every
/// string held in memory does.
pub open spec fn fits_in_memory(s: Seq<char>) -> bool {
    encode_utf8(s).len() <= usize::MAX
}

/// The length in bytes of the UTF-8 encoding of `s`, as `str::len` reports it.
pub open spec fn byte_len(s: Seq<char>) -> usize {
    encode_utf8(s).len() as usize
}

/// The ASCII digit for `d` (below ten).
pub open spec fn digit_char(d: nat) -> char {
    ((d + 48) as u8) as char
}

/// The decimal rendering of `n`, without leading zeros.
pub open spec fn decimal(n: nat) -> Seq<char>
    decreases n,
{
    if n < 10 {
        seq![digit_char(n)]
    } else {
        decimal(n / 10).push(digit_char(n % 10))
    }
}

/// Whether `c` is whitespace, as `char::is_whitespace` decides it.
pub fn is_whitespace(c: char) -> (b: bool)
    ensures
        b == is_space(c),
{
    let u = c as u32;
    (0x09 <= u && u <= 0x0d) || u == 0x20 || u == 0x85 || u == 0xa0 || u == 0x1680 || (0x2000
        <= u && u <= 0x200a) || u == 0x2028 || u == 0x2029 || u == 0x202f || u == 0x205f || u
        == 0x3000
}

/// Whether `s` is empty once whitespace is trimmed from both ends.
pub fn is_blank(s: &str) -> (b: bool)
    ensures
        b == blank(s@),
{
    for c in it: s.chars()
        invariant
            it.seq() == s@,
            blank(s@.take(it.index() as int)),
    {
        proof {
            assert(s@.take(it.index() as int + 1) =~= s@.take(it.index() as int).push(c));
        }
        if !is_whitespace(c) {
            return false;
        }
    }
    proof {
        assert(s@.take(s@.len() as int) =~= s@);
    }
    true
}

/// Whether `s` holds the NUL character, as `str::contains('\0')` decides it.
pub fn contains_nul(s: &str) -> (b: bool)
    ensures
        b == has_nul(s@),
        b == s@.contains('\0'),
{
    for c in it: s.chars()
        invariant
            it.seq() == s@,
            !has_nul(s@.take(it.index() as int)),
    {
        proof {
            assert(s@.take(it.index() as int + 1) =~= s@.take(it.index() as int).push(c));
        }
        if c == '\0' {
            assert(s@[it.index() as int] == '\0');
            return true;
        }
    }
    proof {
        assert(s@.take(s@.len() as int) =~= s@);
    }
    false
}

/// A UTF-8 encoding has at least one byte per character.
pub proof fn lemma_encoding_covers_chars(s: Seq<char>)
    ensures
        encode_utf8(s).len() >= s.len(),
    decreases s.len(),
{
    if s.len() > 0 {
        lemma_encoding_covers_chars(s.drop_first());
    }
}

/// A string in memory has at most `usize::MAX` characters, and its UTF-8
/// encoding at most `usize::MAX` bytes.
pub(crate) fn char_count_fits(s: &str)
    ensures
        s@.len() <= usize::MAX,
        encode_utf8(s@).len() <= usize::MAX,
{
    let b = s.as_bytes();
    let _n = b.len();
    proof {
        lemma_encoding_covers_chars(s@);
    }
}

/// The number of whitespace-separated words of `s`.
pub fn count_words(s: &str) -> (n: usize)
    ensures
        n == word_count(s@),
{
    char_count_fits(s);
    let mut n: usize = 0;
    let mut after_space = true;
    for c in it: s.chars()
        invariant
            it.seq() == s@,
            n == word_count(s@.take(it.index() as int)),
            n <= it.index(),
            s@.len() <= usize::MAX,
            after_space == (it.index() == 0 || is_space(s@[it.index() - 1])),
    {
        let ghost i = it.index() as int;
        let ghost p = s@.take(i + 1);
        proof {
            assert(p.drop_last() =~= s@.take(i));
            assert(p.last() == c);
            if i > 0 {
                assert(p[i - 1] == s@[i - 1]);
            }
        }
        let ws = is_whitespace(c);
        if !ws && after_space {
            n = n + 1;
        }
        after_space = ws;
    }
    proof {
        assert(s@.take(s@.len() as int) =~= s@);
    }
    n
}

/// Calls `String::push`, which appends one character.
#[verifier::external_body]
fn push_char(s: &mut String, c: char)
    ensures
        final(s)@ == old(s)@.push(c),
{
    s.push(c);
}

/// Appends the decimal rendering of `n` to `s`.
pub fn push_decimal(s: &mut String, n: usize)
    ensures
        final(s)@ == old(s)@ + decimal(n as nat),
    decreases n,
{
    if n >= 10 {
        push_decimal(s, n / 10);
    }
    let d: u8 = (n % 10) as u8;
    push_char(s, (d + 48) as char);
    proof {
        assert(decimal(n as nat) == if n < 10 { seq![digit_char(n as nat)] } else { decimal((n / 10) as nat).push(digit_char((n % 10) as nat)) });
    }
}

} // verus!
