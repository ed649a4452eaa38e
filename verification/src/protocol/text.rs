//! Text and bytes: what the codec needs of strings.

use vstd::prelude::*;
use vstd::utf8::*;

verus! {

#[verifier::external_type_specification]
#[verifier::external_body]
pub struct ExFromUtf8Error(std::string::FromUtf8Error);

/// Turns bytes into the string they encode.
///
/// Trusted: `String::from_utf8` of the standard library succeeds exactly on
/// well-formed UTF-8, and the string it then returns holds the bytes it was
/// given.
#[verifier::external_body]
pub(crate) fn string_from_utf8(bytes: Vec<u8>) -> (r: Result<String, std::string::FromUtf8Error>)
    ensures
        r is Ok <==> valid_utf8(bytes@),
        r matches Ok(s) ==> s@ == decode_utf8(bytes@),
{
    String::from_utf8(bytes)
}

/// The characters that count as white space: the code points with the
/// Unicode property `White_Space`.
pub open spec fn is_white_space(c: char) -> bool {
    let v = c as int;
    ||| 0x09 <= v <= 0x0d
    ||| v == 0x20
    ||| v == 0x85
    ||| v == 0xa0
    ||| v == 0x1680
    ||| 0x2000 <= v <= 0x200a
    ||| v == 0x2028
    ||| v == 0x2029
    ||| v == 0x202f
    ||| v == 0x205f
    ||| v == 0x3000
}

/// `s` without the white space at its end.
pub open spec fn trimmed_end(s: Seq<char>) -> Seq<char>
    decreases s.len(),
{
    if s.len() > 0 && is_white_space(s.last()) {
        trimmed_end(s.drop_last())
    } else {
        s
    }
}

/// `s` without the line feeds at its end.
pub open spec fn without_line_ends(s: Seq<char>) -> Seq<char>
    decreases s.len(),
{
    if s.len() > 0 && s.last() == '\n' {
        without_line_ends(s.drop_last())
    } else {
        s
    }
}

/// Cuts the white space off the end of a string.
///
/// Trusted: `str::trim_end` of the standard library returns the string
/// without its trailing white space, where white space is what the Unicode
/// property `White_Space` names.
#[verifier::external_body]
pub(crate) fn trim_end(s: &str) -> (r: &str)
    ensures
        r@ == trimmed_end(s@),
{
    s.trim_end()
}

/// Cuts the line feeds off the end of a string.
///
/// Trusted: `str::trim_end_matches` of the standard library returns the
/// string without the suffixes that match the pattern, repeatedly; the
/// pattern here is the one character `\n`.
#[verifier::external_body]
pub(crate) fn trim_line_ends(s: &str) -> (r: &str)
    ensures
        r@ == without_line_ends(s@),
{
    s.trim_end_matches('\n')
}

/// Whether two byte strings are the same.
pub fn same_bytes(a: &[u8], b: &[u8]) -> (r: bool)
    ensures
        r == (a@ == b@),
{
    if a.len() != b.len() {
        return false;
    }
    let mut i: usize = 0;
    while i < a.len()
        invariant
            i <= a.len(),
            a.len() == b.len(),
            forall|j: int| 0 <= j < i ==> a@[j] == b@[j],
        decreases a.len() - i,
    {
        if a[i] != b[i] {
            return false;
        }
        i += 1;
    }
    proof {
        assert(a@ =~= b@);
    }
    true
}

/// Whether two strings are the same text.
pub fn same_text(a: &str, b: &str) -> (r: bool)
    ensures
        r == (a@ == b@),
{
    let r = same_bytes(a.as_bytes(), b.as_bytes());
    proof {
        encode_utf8_decode_utf8(a@);
        encode_utf8_decode_utf8(b@);
    }
    r
}

/// A copy of the bytes from `from` up to `to`.
pub fn copy_range(bytes: &[u8], from: usize, to: usize) -> (r: Vec<u8>)
    requires
        from <= to <= bytes@.len(),
    ensures
        r@ == bytes@.subrange(from as int, to as int),
{
    let mut out: Vec<u8> = Vec::new();
    let mut i: usize = from;
    while i < to
        invariant
            from <= i <= to,
            to <= bytes@.len(),
            out@ == bytes@.subrange(from as int, i as int),
        decreases to - i,
    {
        out.push(bytes[i]);
        proof {
            assert(bytes@.subrange(from as int, i + 1) =~= bytes@.subrange(
                from as int,
                i as int,
            ).push(bytes@[i as int]));
        }
        i += 1;
    }
    out
}

/// The bytes that separate the words of a payload: space, tab, line feed,
/// form feed and carriage return.
pub open spec fn is_space(b: u8) -> bool {
    b == 32 || b == 9 || b == 10 || b == 12 || b == 13
}

/// The first position from `from` on that holds no space.
pub open spec fn after_spaces(s: Seq<u8>, from: int) -> int
    decreases s.len() - from,
{
    if 0 <= from < s.len() && is_space(s[from]) {
        after_spaces(s, from + 1)
    } else {
        from
    }
}

/// The first position from `from` on that holds a space, or the end.
pub open spec fn after_word(s: Seq<u8>, from: int) -> int
    decreases s.len() - from,
{
    if 0 <= from < s.len() && !is_space(s[from]) {
        after_word(s, from + 1)
    } else {
        from
    }
}

/// The two words of `s`, where `s` consists of exactly two words.
pub open spec fn two_words(s: Seq<u8>) -> Option<(Seq<u8>, Seq<u8>)> {
    let a = after_spaces(s, 0);
    let b = after_word(s, a);
    let c = after_spaces(s, b);
    let d = after_word(s, c);
    let e = after_spaces(s, d);
    if a < s.len() && c < s.len() && e >= s.len() {
        Some((s.subrange(a, b), s.subrange(c, d)))
    } else {
        None
    }
}

fn is_space_byte(b: u8) -> (r: bool)
    ensures
        r == is_space(b),
{
    b == 32 || b == 9 || b == 10 || b == 12 || b == 13
}

/// Scans over spaces.
pub fn skip_spaces(bytes: &[u8], from: usize) -> (r: usize)
    requires
        from <= bytes@.len(),
    ensures
        r == after_spaces(bytes@, from as int),
        from <= r <= bytes@.len(),
{
    let mut i: usize = from;
    while i < bytes.len() && is_space_byte(bytes[i])
        invariant
            from <= i <= bytes@.len(),
            after_spaces(bytes@, from as int) == after_spaces(bytes@, i as int),
        decreases bytes@.len() - i,
    {
        i += 1;
    }
    i
}

/// Scans over a word.
pub fn skip_word(bytes: &[u8], from: usize) -> (r: usize)
    requires
        from <= bytes@.len(),
    ensures
        r == after_word(bytes@, from as int),
        from <= r <= bytes@.len(),
{
    let mut i: usize = from;
    while i < bytes.len() && !is_space_byte(bytes[i])
        invariant
            from <= i <= bytes@.len(),
            after_word(bytes@, from as int) == after_word(bytes@, i as int),
        decreases bytes@.len() - i,
    {
        i += 1;
    }
    i
}

/// Splits a payload that consists of exactly two words.
pub fn split_two_words(bytes: &[u8]) -> (r: Option<(Vec<u8>, Vec<u8>)>)
    ensures
        match r {
            Some((first, second)) => two_words(bytes@) == Some((first@, second@)),
            None => two_words(bytes@) is None,
        },
{
    let a = skip_spaces(bytes, 0);
    let b = skip_word(bytes, a);
    let c = skip_spaces(bytes, b);
    let d = skip_word(bytes, c);
    let e = skip_spaces(bytes, d);
    if a < bytes.len() && c < bytes.len() && e >= bytes.len() {
        Some((copy_range(bytes, a, b), copy_range(bytes, c, d)))
    } else {
        None
    }
}

/// A word, one space and a second word split into these two words.
pub proof fn lemma_two_words_joined(first: Seq<u8>, second: Seq<u8>)
    requires
        first.len() > 0,
        second.len() > 0,
        forall|i: int| 0 <= i < first.len() ==> !is_space(#[trigger] first[i]),
        forall|i: int| 0 <= i < second.len() ==> !is_space(#[trigger] second[i]),
    ensures
        two_words(first + seq![32u8] + second) == Some((first, second)),
{
    let s = first + seq![32u8] + second;
    let n = first.len() as int;
    let m = s.len() as int;
    assert(s[0] == first[0]);
    assert(after_spaces(s, 0) == 0);
    lemma_word_run(s, 0, n);
    assert(s[n] == 32u8);
    assert(after_spaces(s, n + 1) == n + 1) by {
        assert(s[n + 1] == second[0]);
    }
    assert(after_spaces(s, n) == n + 1);
    lemma_word_run(s, n + 1, m);
    assert(after_spaces(s, m) == m);
    assert(s.subrange(0, n) =~= first);
    assert(s.subrange(n + 1, m) =~= second);
}

/// A run without spaces that ends at a space or at the end is one word.
pub proof fn lemma_word_run(s: Seq<u8>, from: int, to: int)
    requires
        0 <= from <= to <= s.len(),
        forall|i: int| from <= i < to ==> !is_space(#[trigger] s[i]),
        to == s.len() || is_space(s[to]),
    ensures
        after_word(s, from) == to,
    decreases to - from,
{
    if from < to {
        lemma_word_run(s, from + 1, to);
    }
}

/// The decimal digits of `n`, most significant first.
pub open spec fn decimal_text(n: nat) -> Seq<char>
    decreases n,
{
    if n < 10 {
        seq![((48 + n) as u8) as char]
    } else {
        decimal_text(n / 10).push(((48 + n % 10) as u8) as char)
    }
}

/// Prints a number in decimal.
pub fn decimal(n: u32) -> (r: String)
    ensures
        r@ == decimal_text(n as nat),
{
    // Least significant digit first.
    let mut digits: Vec<char> = Vec::new();
    let mut rest: u32 = n;
    while rest >= 10
        invariant
            decimal_text(n as nat) == decimal_text(rest as nat) + digits@.reverse(),
        decreases rest,
    {
        let d: u8 = (rest % 10) as u8;
        let c: char = (48 + d) as char;
        proof {
            let before = digits@;
            assert(before.push(c).reverse() =~= seq![c] + before.reverse());
            assert(decimal_text(rest as nat) == decimal_text((rest / 10) as nat).push(c));
            assert(decimal_text((rest / 10) as nat).push(c) + before.reverse() =~= decimal_text(
                (rest / 10) as nat,
            ) + (seq![c] + before.reverse()));
        }
        digits.push(c);
        rest = rest / 10;
    }
    let first: char = (48 + rest as u8) as char;
    let mut r = String::new();
    crate::ids::push_char(&mut r, first);
    let mut k: usize = digits.len();
    proof {
        assert(decimal_text(rest as nat) =~= seq![first]);
        assert(digits@.reverse().subrange(0, 0) =~= Seq::<char>::empty());
        assert(r@ =~= seq![first]);
    }
    while k > 0
        invariant
            k <= digits.len(),
            r@ == seq![first] + digits@.reverse().subrange(0, digits.len() - k),
        decreases k,
    {
        k -= 1;
        crate::ids::push_char(&mut r, digits[k]);
        proof {
            let rev = digits@.reverse();
            let m = digits.len() - k;
            assert(rev[m - 1] == digits@[k as int]);
            assert(rev.subrange(0, m) =~= rev.subrange(0, m - 1).push(rev[m - 1]));
            assert(r@ =~= seq![first] + rev.subrange(0, m));
        }
    }
    proof {
        let rev = digits@.reverse();
        assert(rev.subrange(0, digits.len() as int) =~= rev);
    }
    r
}

} // verus!
