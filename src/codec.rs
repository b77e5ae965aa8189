//! Conversions between wire-native integers and byte strings and their
//! caller-facing forms: lowercase hex, decimal digit strings, bit-reinterpreted
//! signed integers and arbitrary-precision integers.

use vstd::prelude::*;

verus! {

/// The character that stands for the hex digit `d` (lowercase).
pub open spec fn hex_digit_char(d: int) -> char {
    seq!['0', '1', '2', '3', '4', '5', '6', '7', '8', '9', 'a', 'b', 'c', 'd', 'e', 'f'][d]
}

/// Lowercase hex rendering of a byte string: two digits per byte, high nibble
/// first, no prefix and no separator.
pub open spec fn hex_chars(b: Seq<u8>) -> Seq<char> {
    Seq::new(
        2 * b.len(),
        |i: int|
            if i % 2 == 0 {
                hex_digit_char(b[i / 2] as int / 16)
            } else {
                hex_digit_char(b[i / 2] as int % 16)
            },
    )
}

/// Whether the hex rendering of a byte string of this length can be
/// allocated: twice the length must not exceed `isize::MAX`.
pub open spec fn hex_fits(b: Seq<u8>) -> bool {
    2 * b.len() <= isize::MAX
}

/// Whether `b` can be rendered in hex, computed.
pub fn hex_len_ok(b: &Vec<u8>) -> (r: bool)
    ensures
        r == hex_fits(b@),
{
    b.len() <= (isize::MAX as usize) / 2
}

/// Relies on faster_hex::hex_string: lowercase hex, two digits per byte, high
/// nibble first, no prefix or separator; it panics only when twice the length
/// exceeds `isize::MAX`.
#[verifier::external_body]
fn hex_string_of(b: &[u8]) -> (r: String)
    requires
        hex_fits(b@),
    ensures
        r@ == hex_chars(b@),
{
    faster_hex::hex_string(b)
}

/// Lowercase hex of a byte string, as every hash, address and data field is
/// shown to callers.
pub fn hex_encode(b: &Vec<u8>) -> (r: String)
    requires
        hex_fits(b@),
    ensures
        r@ == hex_chars(b@),
{
    hex_string_of(b.as_slice())
}

/// The signed integer with the same 64-bit pattern as `u`.
pub open spec fn widened(u: u64) -> int {
    if u < 0x8000_0000_0000_0000 {
        u as int
    } else {
        u as int - 0x1_0000_0000_0000_0000
    }
}

/// Reinterprets the bit pattern of `u` as a signed integer; values at or above
/// 2^63 become negative.
pub fn as_i64(u: u64) -> (r: i64)
    ensures
        r as int == widened(u),
        u >= 0x8000_0000_0000_0000 ==> r < 0,
        u < 0x8000_0000_0000_0000 ==> r as int == u as int,
{
    if u < 0x8000_0000_0000_0000 {
        u as i64
    } else {
        ((u - 0x8000_0000_0000_0000) as i64) + i64::MIN
    }
}

/// The unsigned integer with the same 64-bit pattern as `x`.
pub open spec fn bits_as_u64(x: i64) -> u64 {
    if x >= 0 {
        x as u64
    } else {
        (x as int + 0x1_0000_0000_0000_0000) as u64
    }
}

/// Reinterprets the bit pattern of `x` as unsigned; negative values wrap to
/// values at or above 2^63.
pub fn i64_to_u64_bits(x: i64) -> (r: u64)
    ensures
        r == bits_as_u64(x),
        widened(r) == x as int,
{
    if x >= 0 {
        x as u64
    } else {
        ((x - i64::MIN) as u64) + 0x8000_0000_0000_0000
    }
}

/// Arbitrary-precision integer: a sign and little-endian 64-bit words.
#[derive(Clone, Debug, Default, PartialEq, Eq)]
pub struct BigInt {
    pub sign_bit: bool,
    pub words: Vec<u64>,
}

/// Magnitude of little-endian 64-bit words.
pub open spec fn words_value(w: Seq<u64>) -> nat
    decreases w.len(),
{
    if w.len() == 0 {
        0
    } else {
        w[0] as nat + 0x1_0000_0000_0000_0000 * words_value(w.drop_first())
    }
}

impl BigInt {
    /// The number this value stands for.
    pub open spec fn value(&self) -> int {
        if self.sign_bit {
            -(words_value(self.words@) as int)
        } else {
            words_value(self.words@) as int
        }
    }
}

/// The exact value of `u` as an arbitrary-precision integer.
pub fn u64_to_bigint(u: u64) -> (r: BigInt)
    ensures
        !r.sign_bit,
        r.words@ == seq![u],
        r.value() == u as int,
{
    let r = BigInt { sign_bit: false, words: vec![u] };
    proof {
        assert(r.words@.drop_first() =~= Seq::<u64>::empty());
        assert(words_value(r.words@.drop_first()) == 0);
    }
    r
}

/// The character of the decimal digit `d`.
pub open spec fn decimal_digit_char(d: int) -> char {
    seq!['0', '1', '2', '3', '4', '5', '6', '7', '8', '9'][d]
}

/// Whether `c` is an ASCII decimal digit.
pub open spec fn is_decimal_digit(c: char) -> bool {
    '0' <= c && c <= '9'
}

/// The value of an ASCII decimal digit.
pub open spec fn decimal_digit_value(c: char) -> int {
    c as int - '0' as int
}

/// The shortest decimal rendering of `n`, without sign or leading zeros.
pub open spec fn decimal_chars(n: nat) -> Seq<char>
    decreases n,
{
    if n < 10 {
        seq![decimal_digit_char(n as int)]
    } else {
        decimal_chars(n / 10).push(decimal_digit_char((n % 10) as int))
    }
}

/// Whether every character of `s` is a decimal digit.
pub open spec fn all_decimal_digits(s: Seq<char>) -> bool {
    forall|i: int| 0 <= i < s.len() ==> is_decimal_digit(#[trigger] s[i])
}

/// The number written by a string of decimal digits (most significant first).
pub open spec fn digits_value(s: Seq<char>) -> nat
    decreases s.len(),
{
    if s.len() == 0 {
        0
    } else {
        (10 * digits_value(s.drop_last()) + decimal_digit_value(s.last())) as nat
    }
}

/// The digits of an unsigned decimal literal: an optional leading `+` is
/// dropped.
pub open spec fn unsigned_literal_digits(s: Seq<char>) -> Seq<char> {
    if s.len() > 0 && s[0] == '+' {
        s.drop_first()
    } else {
        s
    }
}

/// Whether `s` is an unsigned decimal literal whose value fits in a `u64`:
/// an optional `+`, then one or more digits.
pub open spec fn is_u64_literal(s: Seq<char>) -> bool {
    let d = unsigned_literal_digits(s);
    d.len() > 0 && all_decimal_digits(d) && digits_value(d) <= u64::MAX
}

/// The lenient reading of a register filter value: the literal's value, or
/// zero when `s` is not a `u64` literal.
pub open spec fn lenient_u64(s: Seq<char>) -> u64 {
    if is_u64_literal(s) {
        digits_value(unsigned_literal_digits(s)) as u64
    } else {
        0
    }
}

/// The most characters this library builds into one string; at four bytes a
/// character such a string stays far below `isize::MAX` bytes.
pub const TEXT_LIMIT: usize = 128;

/// Relies on String::push: appends one character. It panics only when the
/// capacity would exceed `isize::MAX` bytes, which the length bound excludes.
#[verifier::external_body]
pub(crate) fn push_char(s: &mut String, c: char)
    requires
        old(s)@.len() < TEXT_LIMIT,
    ensures
        final(s)@ == old(s)@.push(c),
{
    s.push(c)
}

fn decimal_digit(d: u64) -> (c: char)
    requires
        d < 10,
    ensures
        c == decimal_digit_char(d as int),
{
    let digits: [char; 10] = ['0', '1', '2', '3', '4', '5', '6', '7', '8', '9'];
    proof {
        assert(digits@ == seq!['0', '1', '2', '3', '4', '5', '6', '7', '8', '9']);
    }
    digits[d as usize]
}

fn append_decimal(n: u64, s: &mut String)
    requires
        old(s)@.len() + decimal_chars(n as nat).len() <= TEXT_LIMIT,
    ensures
        final(s)@ == old(s)@ + decimal_chars(n as nat),
    decreases n,
{
    proof {
        if n >= 10 {
            assert(decimal_chars(n as nat).len() == decimal_chars((n / 10) as nat).len() + 1);
        }
    }
    if n >= 10 {
        append_decimal(n / 10, s);
    }
    let c = decimal_digit(n % 10);
    push_char(s, c);
    proof {
        if n >= 10 {
            assert(final(s)@ =~= old(s)@ + decimal_chars(n as nat));
        } else {
            assert(final(s)@ =~= old(s)@ + decimal_chars(n as nat));
        }
    }
}

/// Ten to the power `k`.
pub open spec fn pow10(k: nat) -> nat
    decreases k,
{
    if k == 0 {
        1
    } else {
        10 * pow10((k - 1) as nat)
    }
}

proof fn lemma_decimal_chars_short(n: nat, k: nat)
    requires
        n < pow10(k),
        k >= 1,
    ensures
        decimal_chars(n).len() <= k,
    decreases k,
{
    if n >= 10 {
        assert(k >= 2) by {
            if k == 1 {
                assert(pow10(1) == 10 * pow10(0));
            }
        }
        assert(n / 10 < pow10((k - 1) as nat)) by {
            assert(pow10(k) == 10 * pow10((k - 1) as nat));
        }
        lemma_decimal_chars_short(n / 10, (k - 1) as nat);
    }
}

/// Exact decimal rendering of `u`.
pub fn u64_to_digit_string(u: u64) -> (r: String)
    ensures
        r@ == decimal_chars(u as nat),
{
    let mut s = String::new();
    proof {
        reveal_with_fuel(pow10, 21);
        assert(pow10(20) == 100000000000000000000nat);
        lemma_decimal_chars_short(u as nat, 20);
    }
    append_decimal(u, &mut s);
    proof {
        assert(s@ =~= decimal_chars(u as nat));
    }
    s
}

proof fn lemma_digits_value_grows(s: Seq<char>, i: int, j: int)
    requires
        0 <= i <= j <= s.len(),
        all_decimal_digits(s),
    ensures
        digits_value(s.subrange(0, i)) <= digits_value(s.subrange(0, j)),
    decreases j - i,
{
    if i < j {
        lemma_digits_value_grows(s, i, j - 1);
        let p = s.subrange(0, j);
        assert(p.drop_last() =~= s.subrange(0, j - 1));
        assert(is_decimal_digit(s[j - 1]));
    }
}

/// Reads a register filter value leniently: an unsigned decimal literal gives
/// its value, anything else (empty, a stray character, a value above
/// `u64::MAX`) gives zero.
pub fn digit_string_to_u64(s: &str) -> (r: u64)
    ensures
        r == lenient_u64(s@),
{
    let n = s.unicode_len();
    let mut start: usize = 0;
    if n > 0 && s.get_char(0) == '+' {
        start = 1;
    }
    let ghost d = unsigned_literal_digits(s@);
    proof {
        assert(d =~= s@.subrange(start as int, n as int));
    }
    if start == n {
        return 0;
    }
    let mut i: usize = start;
    while i < n
        invariant
            start <= i <= n,
            n == s@.len(),
            d == s@.subrange(start as int, n as int),
            d == unsigned_literal_digits(s@),
            forall|k: int| 0 <= k < i - start ==> is_decimal_digit(#[trigger] d[k]),
        decreases n - i,
    {
        let c = s.get_char(i);
        proof {
            assert(c == d[i - start]);
        }
        if !('0' <= c && c <= '9') {
            proof {
                assert(!is_decimal_digit(d[i - start]));
                assert(!all_decimal_digits(d));
                assert(!is_u64_literal(s@));
            }
            return 0;
        }
        i = i + 1;
    }
    let mut v: u64 = 0;
    let mut i: usize = start;
    while i < n
        invariant
            start <= i <= n,
            n == s@.len(),
            d == s@.subrange(start as int, n as int),
            d == unsigned_literal_digits(s@),
            all_decimal_digits(d),
            v as nat == digits_value(d.subrange(0, i - start)),
        decreases n - i,
    {
        let c = s.get_char(i);
        proof {
            assert(c == d[i - start]);
            assert(is_decimal_digit(d[i - start]));
        }
        let dv = (c as u32 - '0' as u32) as u64;
        let ghost p = d.subrange(0, i - start + 1);
        proof {
            assert(p.drop_last() =~= d.subrange(0, i - start));
            assert(p.last() == c);
        }
        if v > (u64::MAX - dv) / 10 {
            proof {
                assert(digits_value(p) > u64::MAX) by (nonlinear_arith)
                    requires
                        v > (u64::MAX - dv) / 10,
                        digits_value(p) == 10 * v + dv,
                        dv <= 9,
                ;
                lemma_digits_value_grows(d, i - start + 1, d.len() as int);
                assert(d.subrange(0, d.len() as int) =~= d);
            }
            return 0;
        }
        proof {
            assert(10 * v + dv <= u64::MAX) by (nonlinear_arith)
                requires
                    v <= (u64::MAX - dv) / 10,
                    dv <= 9,
            ;
        }
        v = v * 10 + dv;
        i = i + 1;
    }
    proof {
        assert(d.subrange(0, d.len() as int) =~= d);
    }
    v
}

proof fn lemma_decimal_digit_char(d: int)
    requires
        0 <= d < 10,
    ensures
        is_decimal_digit(decimal_digit_char(d)),
        decimal_digit_value(decimal_digit_char(d)) == d,
        decimal_digit_char(d) != '+',
{
    let t = seq!['0', '1', '2', '3', '4', '5', '6', '7', '8', '9'];
    assert(t[0] == '0' && t[1] == '1' && t[2] == '2' && t[3] == '3' && t[4] == '4');
    assert(t[5] == '5' && t[6] == '6' && t[7] == '7' && t[8] == '8' && t[9] == '9');
}

proof fn lemma_decimal_chars_shape(n: nat)
    ensures
        decimal_chars(n).len() > 0,
        all_decimal_digits(decimal_chars(n)),
        decimal_chars(n)[0] != '+',
        digits_value(decimal_chars(n)) == n,
    decreases n,
{
    lemma_decimal_digit_char((n % 10) as int);
    if n < 10 {
        let s = decimal_chars(n);
        assert(s.drop_last() =~= Seq::<char>::empty());
        assert(digits_value(Seq::<char>::empty()) == 0);
        assert(s.last() == decimal_digit_char(n as int));
        assert(digits_value(s) == decimal_digit_value(s.last()));
    } else {
        lemma_decimal_chars_shape(n / 10);
        let s = decimal_chars(n);
        assert(s.drop_last() =~= decimal_chars(n / 10));
        assert(s.last() == decimal_digit_char((n % 10) as int));
        assert(digits_value(s) == 10 * digits_value(decimal_chars(n / 10)) + (n % 10));
        assert(10 * (n / 10) + n % 10 == n);
        assert(s[0] == decimal_chars(n / 10)[0]);
        assert forall|i: int| 0 <= i < s.len() implies is_decimal_digit(#[trigger] s[i]) by {
            if i < s.len() - 1 {
                assert(s[i] == decimal_chars(n / 10)[i]);
            }
        }
    }
}

/// Rendering any `u64` in decimal and reading it back with the lenient reader
/// gives the same number, over the whole range from 0 to `u64::MAX`.
pub proof fn lemma_digit_string_round_trip(u: u64)
    ensures
        lenient_u64(decimal_chars(u as nat)) == u,
{
    lemma_decimal_chars_shape(u as nat);
    assert(unsigned_literal_digits(decimal_chars(u as nat)) == decimal_chars(u as nat));
}

} // verus!
