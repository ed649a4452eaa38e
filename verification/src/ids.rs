//! Opaque 128-bit identifiers and their text form.
//!
//! An identifier is printed as a short prefix that names its kind, followed
//! by its value as 32 lower-case hexadecimal digits.  The prefix is there
//! for the reader of a log; the value alone identifies.

use vstd::prelude::*;

verus! {

/// The character that stands for the hexadecimal digit `d`.
pub open spec fn digit_char(d: int) -> char {
    if d < 10 {
        ((48 + d) as u8) as char
    } else {
        ((87 + d) as u8) as char
    }
}

/// The value of the hexadecimal digit `c`, where it is one.
pub open spec fn digit_value(c: char) -> Option<int> {
    let v = c as int;
    if 48 <= v <= 57 {
        Some(v - 48)
    } else if 97 <= v <= 102 {
        Some(v - 87)
    } else {
        None
    }
}

/// The last `n` hexadecimal digits of `v`, most significant first.
pub open spec fn hex_text(v: nat, n: nat) -> Seq<char>
    decreases n,
{
    if n == 0 {
        Seq::empty()
    } else {
        hex_text(v / 16, (n - 1) as nat).push(digit_char((v % 16) as int))
    }
}

/// Whether `s` consists of hexadecimal digits only.
pub open spec fn is_hex(s: Seq<char>) -> bool {
    forall|i: int| 0 <= i < s.len() ==> digit_value(#[trigger] s[i]) is Some
}

/// The number that the hexadecimal digits `s` denote.
pub open spec fn hex_value(s: Seq<char>) -> nat
    decreases s.len(),
{
    if s.len() == 0 {
        0
    } else {
        match digit_value(s.last()) {
            Some(d) => hex_value(s.drop_last()) * 16 + d as nat,
            None => hex_value(s.drop_last()) * 16,
        }
    }
}

/// Sixteen to the power of `n`.
pub open spec fn pow16(n: nat) -> nat
    decreases n,
{
    if n == 0 {
        1
    } else {
        16 * pow16((n - 1) as nat)
    }
}

/// The text form of the identifier `value` under `prefix`.
pub open spec fn id_text(prefix: Seq<char>, value: u128) -> Seq<char> {
    prefix + hex_text(value as nat, 32)
}

/// The identifier that `text` denotes under `prefix`, where it denotes one.
pub open spec fn id_value(prefix: Seq<char>, text: Seq<char>) -> Option<u128> {
    if text.len() == prefix.len() + 32 && text.subrange(0, prefix.len() as int) == prefix
        && is_hex(text.subrange(prefix.len() as int, text.len() as int)) && hex_value(
        text.subrange(prefix.len() as int, text.len() as int),
    ) <= u128::MAX {
        Some(hex_value(text.subrange(prefix.len() as int, text.len() as int)) as u128)
    } else {
        None
    }
}

/// A digit character is read back as the digit it stands for.
pub proof fn lemma_digit_round_trip(d: int)
    requires
        0 <= d < 16,
    ensures
        digit_value(digit_char(d)) == Some(d),
{
    if d < 10 {
        let b = (48 + d) as u8;
        assert((b as char) as int == b as int);
    } else {
        let b = (87 + d) as u8;
        assert((b as char) as int == b as int);
    }
}

/// The digits of a number are hexadecimal digits, and denote the number
/// where the number fits in them.
pub proof fn lemma_hex_round_trip(v: nat, n: nat)
    ensures
        hex_text(v, n).len() == n,
        is_hex(hex_text(v, n)),
        v < pow16(n) ==> hex_value(hex_text(v, n)) == v,
    decreases n,
{
    if n > 0 {
        let rest = hex_text(v / 16, (n - 1) as nat);
        let t = hex_text(v, n);
        lemma_hex_round_trip(v / 16, (n - 1) as nat);
        lemma_digit_round_trip((v % 16) as int);
        assert(t.drop_last() =~= rest);
        assert(t.last() == digit_char((v % 16) as int));
        assert forall|i: int| 0 <= i < t.len() implies digit_value(#[trigger] t[i]) is Some by {
            if i < rest.len() {
                assert(t[i] == rest[i]);
            }
        }
        if v < pow16(n) {
            assert(v / 16 < pow16((n - 1) as nat));
            assert(v == (v / 16) * 16 + v % 16);
        }
    }
}

/// Every 128-bit value fits in 32 hexadecimal digits.
pub proof fn lemma_pow16_32()
    ensures
        pow16(32) == 0x1_0000_0000_0000_0000_0000_0000_0000_0000,
{
    reveal_with_fuel(pow16, 33);
}

/// Thirty-one hexadecimal digits leave room for one more in 128 bits.
pub proof fn lemma_pow16_31()
    ensures
        pow16(31) == 0x1000_0000_0000_0000_0000_0000_0000_0000,
{
    reveal_with_fuel(pow16, 32);
}

/// Reading the text form of an identifier gives the identifier back.
pub proof fn lemma_id_round_trip(prefix: Seq<char>, value: u128)
    ensures
        id_value(prefix, id_text(prefix, value)) == Some(value),
{
    let text = id_text(prefix, value);
    lemma_hex_round_trip(value as nat, 32);
    lemma_pow16_32();
    assert(text.subrange(0, prefix.len() as int) =~= prefix);
    assert(text.subrange(prefix.len() as int, text.len() as int) =~= hex_text(value as nat, 32));
}

/// A text that could not be read as an identifier.
#[derive(Clone, Copy, Debug, PartialEq, Eq, Structural)]
pub struct IdParseError;

/// Appends one character to a string.
///
/// Trusted: `String::push` of the standard library appends the given
/// character to the end of the string.
#[verifier::external_body]
pub(crate) fn push_char(s: &mut String, c: char)
    ensures
        final(s)@ == old(s)@.push(c),
{
    s.push(c)
}

/// A fresh 128-bit value.
///
/// Trusted: `uuid::Uuid::new_v4` draws a random version-4 UUID from the
/// operating system's generator, and `Uuid::as_u128` hands its 128 bits
/// back.  Nothing is promised of the value.
#[verifier::external_body]
fn random_u128() -> u128 {
    uuid::Uuid::new_v4().as_u128()
}

/// Prints `value` as `prefix` followed by 32 hexadecimal digits.
pub fn print_id(prefix: &str, value: u128) -> (r: String)
    ensures
        r@ == id_text(prefix@, value),
{
    let mut digits: Vec<char> = Vec::new();
    let mut rest: u128 = value;
    let mut n: usize = 0;
    proof {
        lemma_hex_round_trip(value as nat, 32);
        assert(hex_text(value as nat, 32).subrange(0, 32) =~= hex_text(value as nat, 32));
    }
    // Least significant digit first.
    while n < 32
        invariant
            n <= 32,
            digits@.len() == n,
            hex_text(value as nat, 32).len() == 32,
            forall|i: int|
                0 <= i < n ==> #[trigger] digits@[i] == hex_text(value as nat, 32)[31 - i],
            hex_text(value as nat, 32).subrange(0, 32 - n) == hex_text(rest as nat, (32 - n) as nat),
        decreases 32 - n,
    {
        let d: u8 = (rest % 16) as u8;
        let c: char = if d < 10 {
            (48 + d) as char
        } else {
            (87 + d) as char
        };
        proof {
            let t = hex_text(rest as nat, (32 - n) as nat);
            lemma_hex_round_trip(rest as nat, (32 - n) as nat);
            lemma_hex_round_trip((rest / 16) as nat, (31 - n) as nat);
            assert(t.last() == digit_char((rest % 16) as int));
            assert(t.drop_last() =~= hex_text((rest / 16) as nat, (31 - n) as nat));
            assert(hex_text(value as nat, 32).subrange(0, 32 - n)[31 - n] == c);
            assert(hex_text(value as nat, 32).subrange(0, 31 - n) =~= t.drop_last());
        }
        digits.push(c);
        rest = rest / 16;
        n += 1;
    }
    let mut r = prefix.to_owned();
    let mut k: usize = 0;
    proof {
        lemma_hex_round_trip(value as nat, 32);
    }
    while k < 32
        invariant
            k <= 32,
            digits@.len() == 32,
            hex_text(value as nat, 32).len() == 32,
            forall|i: int|
                0 <= i < 32 ==> #[trigger] digits@[i] == hex_text(value as nat, 32)[31 - i],
            r@ == prefix@ + hex_text(value as nat, 32).subrange(0, k as int),
        decreases 32 - k,
    {
        push_char(&mut r, digits[31 - k]);
        proof {
            let h = hex_text(value as nat, 32);
            assert(h.subrange(0, k + 1) =~= h.subrange(0, k as int).push(h[k as int]));
            assert(digits@[31 - k] == h[31 - (31 - k)]);
            assert(r@ =~= prefix@ + h.subrange(0, k + 1));
        }
        k += 1;
    }
    proof {
        let h = hex_text(value as nat, 32);
        assert(h.subrange(0, 32) =~= h);
    }
    r
}

/// Reads `prefix` followed by 32 hexadecimal digits.
pub fn parse_id(prefix: &str, text: &str) -> (r: Option<u128>)
    ensures
        vstd::utf8::is_ascii_chars(prefix@) ==> r == id_value(prefix@, text@),
        !vstd::utf8::is_ascii_chars(prefix@) ==> r is None,
{
    if !prefix.is_ascii() || !text.is_ascii() {
        proof {
            if vstd::utf8::is_ascii_chars(prefix@) && id_value(prefix@, text@) is Some {
                // A text made of an ASCII prefix and hexadecimal digits is ASCII.
                let p = prefix@.len() as int;
                let digits = text@.subrange(p, text@.len() as int);
                assert forall|i: int| 0 <= i < text@.len() implies '\0' <= #[trigger] text@[i]
                    <= '\u{7f}' by {
                    if i < p {
                        assert(text@.subrange(0, p)[i] == text@[i]);
                        assert(prefix@[i] == text@[i]);
                        assert('\0' <= prefix@[i] <= '\u{7f}');
                    } else {
                        assert(digits[i - p] == text@[i]);
                        assert(digit_value(digits[i - p]) is Some);
                        assert((text@[i] as int) <= 102);
                    }
                }
                assert(vstd::utf8::is_ascii_chars(text@));
            }
        }
        return None;
    }
    let p = prefix.as_bytes();
    let t = text.as_bytes();
    proof {
        vstd::string::is_ascii_spec_bytes(prefix);
        vstd::string::is_ascii_spec_bytes(text);
    }
    let prefix_len = p.len();
    let text_len = t.len();
    if prefix_len > usize::MAX - 32 || text_len != prefix_len + 32 {
        return None;
    }
    let mut i: usize = 0;
    while i < p.len()
        invariant
            i <= p.len(),
            t.len() == p.len() + 32,
            p@.len() == prefix@.len(),
            t@.len() == text@.len(),
            forall|j: int| 0 <= j < p@.len() ==> #[trigger] p@[j] == prefix@[j] as u8,
            forall|j: int| 0 <= j < t@.len() ==> #[trigger] t@[j] == text@[j] as u8,
            vstd::utf8::is_ascii_chars(prefix@),
            vstd::utf8::is_ascii_chars(text@),
            forall|j: int| 0 <= j < i ==> #[trigger] text@[j] == prefix@[j],
        decreases p.len() - i,
    {
        if t[i] != p[i] {
            proof {
                assert(text@.subrange(0, prefix@.len() as int)[i as int] == text@[i as int]);
                assert(text@[i as int] != prefix@[i as int]);
            }
            return None;
        }
        proof {
            lemma_ascii_char_of_byte(text@, prefix@, i as int);
        }
        i += 1;
    }
    let ghost digits = text@.subrange(prefix@.len() as int, text@.len() as int);
    let mut value: u128 = 0;
    let mut k: usize = 0;
    proof {
        assert(text@.subrange(0, prefix@.len() as int) =~= prefix@);
        assert(digits.subrange(0, 0) =~= Seq::<char>::empty());
    }
    while k < 32
        invariant
            k <= 32,
            t.len() == p.len() + 32,
            p@.len() == prefix@.len(),
            t@.len() == text@.len(),
            digits == text@.subrange(prefix@.len() as int, text@.len() as int),
            forall|j: int| 0 <= j < t@.len() ==> #[trigger] t@[j] == text@[j] as u8,
            vstd::utf8::is_ascii_chars(text@),
            is_hex(digits.subrange(0, k as int)),
            value as nat == hex_value(digits.subrange(0, k as int)),
            (value as nat) < pow16(k as nat),
            text@.subrange(0, prefix@.len() as int) == prefix@,
        decreases 32 - k,
    {
        let b = t[p.len() + k];
        let d: u8 = if 48 <= b && b <= 57 {
            b - 48
        } else if 97 <= b && b <= 102 {
            b - 87
        } else {
            proof {
                let c = digits[k as int];
                assert(c == text@[p.len() + k]);
                lemma_ascii_code(text@, (p.len() + k) as int);
                assert(digit_value(c) is None);
            }
            return None;
        };
        proof {
            let c = digits[k as int];
            assert(c == text@[p.len() + k]);
            lemma_ascii_code(text@, (p.len() + k) as int);
            assert(digit_value(c) == Some(d as int));
            let next = digits.subrange(0, k + 1);
            assert(next.drop_last() =~= digits.subrange(0, k as int));
            assert(next.last() == c);
            assert forall|j: int| 0 <= j < next.len() implies digit_value(
                #[trigger] next[j],
            ) is Some by {
                if j < k {
                    assert(next[j] == digits.subrange(0, k as int)[j]);
                }
            }
            lemma_pow16_32();
            lemma_pow16_grows(k as nat + 1, 32);
            assert(pow16(k as nat + 1) == 16 * pow16(k as nat));
        }
        proof {
            lemma_pow16_grows(k as nat, 31);
            lemma_pow16_31();
        }
        value = value * 16 + d as u128;
        k += 1;
    }
    proof {
        assert(digits.subrange(0, 32) =~= digits);
    }
    Some(value)
}

/// The powers of sixteen grow.
pub proof fn lemma_pow16_grows(a: nat, b: nat)
    requires
        a <= b,
    ensures
        pow16(a) <= pow16(b),
        pow16(a) >= 1,
    decreases b,
{
    if a < b {
        lemma_pow16_grows(a, (b - 1) as nat);
    } else if a > 0 {
        lemma_pow16_grows((a - 1) as nat, (b - 1) as nat);
    }
}

/// In an ASCII text the code of a character is its byte.
proof fn lemma_ascii_code(text: Seq<char>, i: int)
    requires
        vstd::utf8::is_ascii_chars(text),
        0 <= i < text.len(),
    ensures
        0 <= (text[i] as int) < 128,
        (text[i] as u8) as int == text[i] as int,
{
}

/// Two ASCII characters with the same byte are the same character.
proof fn lemma_ascii_char_of_byte(a: Seq<char>, b: Seq<char>, i: int)
    requires
        vstd::utf8::is_ascii_chars(a),
        vstd::utf8::is_ascii_chars(b),
        0 <= i < a.len(),
        0 <= i < b.len(),
        a[i] as u8 == b[i] as u8,
    ensures
        a[i] == b[i],
{
    lemma_ascii_code(a, i);
    lemma_ascii_code(b, i);
}

/// Identity of a session.
#[derive(Clone, Copy, Debug, PartialEq, Eq, Hash, Structural)]
pub struct SessionId(pub u128);

/// Identity of a monitor, assigned when its connector becomes usable.
#[derive(Clone, Copy, Debug, PartialEq, Eq, Hash, Structural)]
pub struct MonitorId(pub u128);

/// Identity of a client connection.
#[derive(Clone, Copy, Debug, PartialEq, Eq, Hash, Structural)]
pub struct ClientId(pub u128);

/// One-shot bearer token.
#[derive(Clone, Copy, Debug, PartialEq, Eq, Hash, Structural)]
pub struct Token(pub u128);

impl SessionId {
    /// A fresh random identifier.
    pub fn rand() -> SessionId {
        SessionId(random_u128())
    }

    /// The identifier as `ses_` and 32 hexadecimal digits.
    pub fn to_text(&self) -> (r: String)
        ensures
            r@ == id_text("ses_"@, self.0),
    {
        print_id("ses_", self.0)
    }

    /// Reads `ses_` and 32 hexadecimal digits.
    pub fn parse(text: &str) -> (r: Result<SessionId, IdParseError>)
        ensures
            match id_value("ses_"@, text@) {
                Some(v) => r == Ok::<SessionId, IdParseError>(SessionId(v)),
                None => r is Err,
            },
    {
        proof {
            reveal_strlit("ses_");
        }
        match parse_id("ses_", text) {
            Some(v) => Ok(SessionId(v)),
            None => Err(IdParseError),
        }
    }
}

impl MonitorId {
    /// A fresh random identifier.
    pub fn rand() -> MonitorId {
        MonitorId(random_u128())
    }

    /// The identifier as `mon_` and 32 hexadecimal digits.
    pub fn to_text(&self) -> (r: String)
        ensures
            r@ == id_text("mon_"@, self.0),
    {
        print_id("mon_", self.0)
    }

    /// Reads `mon_` and 32 hexadecimal digits.
    pub fn parse(text: &str) -> (r: Result<MonitorId, IdParseError>)
        ensures
            match id_value("mon_"@, text@) {
                Some(v) => r == Ok::<MonitorId, IdParseError>(MonitorId(v)),
                None => r is Err,
            },
    {
        proof {
            reveal_strlit("mon_");
        }
        match parse_id("mon_", text) {
            Some(v) => Ok(MonitorId(v)),
            None => Err(IdParseError),
        }
    }
}

impl ClientId {
    /// A fresh random identifier.
    pub fn rand() -> ClientId {
        ClientId(random_u128())
    }

    /// The identifier as `cli_` and 32 hexadecimal digits.
    pub fn to_text(&self) -> (r: String)
        ensures
            r@ == id_text("cli_"@, self.0),
    {
        print_id("cli_", self.0)
    }
}

impl Token {
    /// A fresh random token.
    pub fn rand() -> Token {
        Token(random_u128())
    }

    /// The token as `tok_` and 32 hexadecimal digits.
    pub fn to_text(&self) -> (r: String)
        ensures
            r@ == id_text("tok_"@, self.0),
    {
        print_id("tok_", self.0)
    }

    /// Reads `tok_` and 32 hexadecimal digits.
    pub fn parse(text: &str) -> (r: Result<Token, IdParseError>)
        ensures
            match id_value("tok_"@, text@) {
                Some(v) => r == Ok::<Token, IdParseError>(Token(v)),
                None => r is Err,
            },
    {
        proof {
            reveal_strlit("tok_");
        }
        match parse_id("tok_", text) {
            Some(v) => Ok(Token(v)),
            None => Err(IdParseError),
        }
    }
}

/// The base64 text of some bytes, in the standard alphabet and without
/// padding, as the `base64` crate computes it.
pub uninterp spec fn base64_text(bytes: Seq<u8>) -> Seq<char>;

/// Encodes bytes as base64 text.
///
/// Trusted: `Engine::encode` of the `base64` crate, on its engine
/// `STANDARD_NO_PAD`, returns the base64 text of the bytes; the text is a
/// function of the bytes alone.  The call fails where the length of the
/// text does not fit the machine, which the bound on the input excludes.
#[verifier::external_body]
fn base64_no_pad(bytes: &[u8]) -> (r: String)
    requires
        bytes@.len() <= 0x1000_0000,
    ensures
        r@ == base64_text(bytes@),
{
    base64::Engine::encode(&base64::engine::general_purpose::STANDARD_NO_PAD, bytes)
}

/// The sixteen bytes of a 128-bit value, most significant first.
fn be_bytes(value: u128) -> (r: Vec<u8>)
    ensures
        r@.len() == 16,
{
    let mut out: Vec<u8> = Vec::new();
    let mut i: u32 = 0;
    while i < 16
        invariant
            i <= 16,
            out@.len() == i,
        decreases 16 - i,
    {
        let shift: u32 = 8 * (15 - i);
        let part: u128 = (value >> shift) & 0xff;
        assert(part <= 0xff) by (bit_vector)
            requires
                part == (value >> shift) & 0xff,
        ;
        out.push(part as u8);
        i += 1;
    }
    out
}

/// The text of an identifier: the prefix, an underscore, and two parts.
pub open spec fn composed(prefix: Seq<char>, first: Seq<char>, second: Seq<char>) -> Seq<char> {
    prefix + seq!['_'] + first + second
}

/// Puts an identifier together out of its prefix and its two parts.
pub fn compose_id(prefix: &str, first: &str, second: &str) -> (r: String)
    ensures
        r@ == composed(prefix@, first@, second@),
{
    let mut r = prefix.to_owned();
    r.append("_");
    r.append(first);
    r.append(second);
    proof {
        reveal_strlit("_");
        assert("_"@ =~= seq!['_']);
        assert(r@ =~= composed(prefix@, first@, second@));
    }
    r
}

/// A random UUID as base64 text.
fn encode_uuid() -> (r: String)
    ensures
        exists|bytes: Seq<u8>| bytes.len() == 16 && r@ == #[trigger] base64_text(bytes),
{
    let bytes = be_bytes(random_u128());
    base64_no_pad(bytes.as_slice())
}

/// Mints a textual identifier: the prefix, an underscore, and the base64
/// text of two random UUIDs.
pub fn generate_id(prefix: &str) -> (r: String)
    ensures
        exists|a: Seq<u8>, b: Seq<u8>|
            a.len() == 16 && b.len() == 16 && r@ == #[trigger] composed(
                prefix@,
                base64_text(a),
                base64_text(b),
            ),
{
    let part1 = encode_uuid();
    let part2 = encode_uuid();
    let r = compose_id(prefix, part1.as_str(), part2.as_str());
    proof {
        let a = choose|bytes: Seq<u8>| bytes.len() == 16 && part1@ == #[trigger] base64_text(bytes);
        let b = choose|bytes: Seq<u8>| bytes.len() == 16 && part2@ == #[trigger] base64_text(bytes);
        assert(r@ == composed(prefix@, base64_text(a), base64_text(b)));
    }
    r
}

} // verus!
