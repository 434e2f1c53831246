//! Text building blocks: decimal rendering of integers, string comparison,
//! and the UTF-16 encoding that Win32 text and registry values use.

use vstd::prelude::*;
use vstd::string::*;

verus! {

/// The ASCII digit for a value below ten.
pub open spec fn digit_char(d: nat) -> char {
    if d == 0 {
        '0'
    } else if d == 1 {
        '1'
    } else if d == 2 {
        '2'
    } else if d == 3 {
        '3'
    } else if d == 4 {
        '4'
    } else if d == 5 {
        '5'
    } else if d == 6 {
        '6'
    } else if d == 7 {
        '7'
    } else if d == 8 {
        '8'
    } else {
        '9'
    }
}

/// Decimal digits of a natural number, most significant first, without
/// leading zeros (zero itself is `"0"`).
pub open spec fn dec_nat(n: nat) -> Seq<char>
    decreases n,
{
    if n < 10 {
        seq![digit_char(n)]
    } else {
        dec_nat(n / 10).push(digit_char(n % 10))
    }
}

/// Decimal rendering of an integer: a leading `-` for negative values.
pub open spec fn dec_int(n: int) -> Seq<char> {
    if n < 0 {
        seq!['-'] + dec_nat((-n) as nat)
    } else {
        dec_nat(n as nat)
    }
}

/// Appends one character to a string (`String::push`).
#[verifier::external_body]
pub fn push_char(s: &mut String, c: char)
    ensures
        final(s)@ == old(s)@.push(c),
{
    s.push(c);
}

/// Whether two strings hold the same characters.
pub fn str_equal(a: &str, b: &str) -> (r: bool)
    ensures
        r == (a@ == b@),
{
    let n = a.unicode_len();
    if n != b.unicode_len() {
        return false;
    }
    let mut i: usize = 0;
    while i < n
        invariant
            n == a@.len(),
            n == b@.len(),
            i <= n,
            forall|j: int| 0 <= j < i ==> a@[j] == b@[j],
        decreases n - i,
    {
        if a.get_char(i) != b.get_char(i) {
            return false;
        }
        i += 1;
    }
    assert(a@ =~= b@);
    true
}

fn digit(d: u64) -> (c: char)
    requires
        d < 10,
    ensures
        c == digit_char(d as nat),
{
    match d {
        0 => '0',
        1 => '1',
        2 => '2',
        3 => '3',
        4 => '4',
        5 => '5',
        6 => '6',
        7 => '7',
        8 => '8',
        _ => '9',
    }
}

/// Appends the decimal digits of `n`.
pub fn push_decimal(s: &mut String, n: u64)
    ensures
        final(s)@ == old(s)@ + dec_nat(n as nat),
    decreases n,
{
    if n >= 10 {
        push_decimal(s, n / 10);
    }
    let ghost before = s@;
    push_char(s, digit(n % 10));
    proof {
        if n >= 10 {
            assert(dec_nat(n as nat) == dec_nat((n / 10) as nat).push(digit_char((n % 10) as nat)));
            assert(s@ =~= old(s)@ + dec_nat(n as nat));
        } else {
            assert(s@ =~= old(s)@ + dec_nat(n as nat));
        }
    }
}

/// Appends the decimal rendering of a signed integer.
pub fn push_signed(s: &mut String, n: i64)
    ensures
        final(s)@ == old(s)@ + dec_int(n as int),
{
    if n < 0 {
        push_char(s, '-');
        let m: u64 = (0i128 - (n as i128)) as u64;
        push_decimal(s, m);
        assert(s@ =~= old(s)@ + dec_int(n as int));
    } else {
        push_decimal(s, n as u64);
    }
}

/// The decimal rendering of a signed integer as a new string.
pub fn decimal_string(n: i64) -> (r: String)
    ensures
        r@ == dec_int(n as int),
{
    let mut s = String::new();
    push_signed(&mut s, n);
    assert(s@ =~= dec_int(n as int));
    s
}


/// UTF-16 code units of one character: one unit in the basic plane, else a
/// high/low surrogate pair.
pub open spec fn utf16_char(c: char) -> Seq<u16> {
    let v = (c as u32) as int;
    if v < 0x10000 {
        seq![v as u16]
    } else {
        seq![(0xD800 + (v - 0x10000) / 1024) as u16, (0xDC00 + (v - 0x10000) % 1024) as u16]
    }
}

/// UTF-16 encoding of a character sequence.
pub open spec fn utf16_of(s: Seq<char>) -> Seq<u16>
    decreases s.len(),
{
    if s.len() == 0 {
        Seq::empty()
    } else {
        utf16_char(s[0]) + utf16_of(s.drop_first())
    }
}

pub open spec fn is_high_surrogate(u: u16) -> bool {
    0xD800 <= u < 0xDC00
}

pub open spec fn is_low_surrogate(u: u16) -> bool {
    0xDC00 <= u < 0xE000
}

/// The replacement character that stands for an unpaired surrogate.
pub open spec fn replacement() -> char {
    '\u{FFFD}'
}

pub open spec fn pair_value(hi: u16, lo: u16) -> int {
    0x10000 + (hi - 0xD800) * 1024 + (lo - 0xDC00)
}

/// Lossy UTF-16 decoding: a surrogate pair gives one character, each
/// unpaired surrogate gives the replacement character.
pub open spec fn utf16_decode(u: Seq<u16>) -> Seq<char>
    decreases u.len(),
{
    if u.len() == 0 {
        Seq::empty()
    } else if u.len() >= 2 && is_high_surrogate(u[0]) && is_low_surrogate(u[1]) {
        seq![pair_value(u[0], u[1]) as char] + utf16_decode(u.skip(2))
    } else if is_high_surrogate(u[0]) || is_low_surrogate(u[0]) {
        seq![replacement()] + utf16_decode(u.skip(1))
    } else {
        seq![u[0] as char] + utf16_decode(u.skip(1))
    }
}

/// The character with a Unicode scalar value (`char::from_u32`): `None`
/// for surrogates and values past U+10FFFF.
#[verifier::external_body]
pub fn char_from_u32(v: u32) -> (r: Option<char>)
    ensures
        r is Some <==> (v < 0xD800 || (0xE000 <= v && v <= 0x10FFFF)),
        r matches Some(c) ==> c == v as char,
{
    char::from_u32(v)
}

proof fn lemma_utf16_append(a: Seq<char>, b: Seq<char>)
    ensures
        utf16_of(a + b) == utf16_of(a) + utf16_of(b),
    decreases a.len(),
{
    if a.len() == 0 {
        assert(a + b =~= b);
    } else {
        assert((a + b).drop_first() =~= a.drop_first() + b);
        lemma_utf16_append(a.drop_first(), b);
        assert(utf16_of(a + b) =~= utf16_of(a) + utf16_of(b));
    }
}

proof fn lemma_utf16_single(c: char)
    ensures
        utf16_of(seq![c]) == utf16_char(c),
{
    let e = seq![c].drop_first();
    assert(e =~= Seq::<char>::empty());
    assert(utf16_of(e) == Seq::<u16>::empty());
    assert(utf16_of(seq![c]) == utf16_char(c) + utf16_of(e));
    assert(utf16_char(c) + Seq::<u16>::empty() =~= utf16_char(c));
}

/// Appends the UTF-16 units of a string.
pub fn push_utf16(out: &mut Vec<u16>, s: &str)
    ensures
        final(out)@ == old(out)@ + utf16_of(s@),
{
    let n = s.unicode_len();
    let mut i: usize = 0;
    while i < n
        invariant
            n == s@.len(),
            i <= n,
            out@ == old(out)@ + utf16_of(s@.take(i as int)),
        decreases n - i,
    {
        let c = s.get_char(i);
        let v = c as u32;
        if v < 0x10000 {
            out.push(v as u16);
        } else {
            let w = v - 0x10000;
            out.push((0xD800 + w / 1024) as u16);
            out.push((0xDC00 + w % 1024) as u16);
        }
        proof {
            assert(s@.take(i + 1) =~= s@.take(i as int) + seq![c]);
            lemma_utf16_append(s@.take(i as int), seq![c]);
            lemma_utf16_single(c);
            assert(out@ =~= old(out)@ + utf16_of(s@.take(i + 1)));
        }
        i += 1;
    }
    assert(s@.take(n as int) =~= s@);
}

/// A string as NUL-terminated UTF-16, the form Win32 text parameters take.
pub fn wide_nul(s: &str) -> (r: Vec<u16>)
    ensures
        r@ == utf16_of(s@).push(0),
{
    let mut out: Vec<u16> = Vec::new();
    push_utf16(&mut out, s);
    out.push(0);
    assert(out@ =~= utf16_of(s@).push(0));
    out
}

/// Length of the fixed tooltip buffer of a tray icon, in UTF-16 units.
pub const TIP_UNITS: usize = 128;

/// `units` cut or zero-padded to exactly `n` units.
pub open spec fn fit_to(units: Seq<u16>, n: nat) -> Seq<u16> {
    Seq::new(n, |i: int| if i < units.len() { units[i] } else { 0u16 })
}

/// A tooltip as the tray's fixed 128-unit buffer: the NUL-terminated UTF-16
/// text, cut to 128 units (a longer text keeps no terminator) and
/// zero-padded.
pub fn tip_buffer(text: &str) -> (r: Vec<u16>)
    ensures
        r@ == fit_to(utf16_of(text@).push(0), TIP_UNITS as nat),
{
    let wide = wide_nul(text);
    let mut out: Vec<u16> = Vec::new();
    let mut i: usize = 0;
    while i < TIP_UNITS
        invariant
            i <= TIP_UNITS,
            wide@ == utf16_of(text@).push(0),
            out@ =~= fit_to(wide@, TIP_UNITS as nat).take(i as int),
        decreases TIP_UNITS - i,
    {
        if i < wide.len() {
            out.push(wide[i]);
        } else {
            out.push(0);
        }
        i += 1;
    }
    out
}

/// Decodes UTF-16 units, lossily (`String::from_utf16_lossy`).
pub fn utf16_to_string(units: &[u16]) -> (r: String)
    ensures
        r@ == utf16_decode(units@),
{
    let mut out = String::new();
    let n = units.len();
    let mut i: usize = 0;
    assert(units@.skip(0) =~= units@);
    assert(out@ + utf16_decode(units@) =~= utf16_decode(units@));
    while i < n
        invariant
            n == units@.len(),
            i <= n,
            out@ + utf16_decode(units@.skip(i as int)) == utf16_decode(units@),
        decreases n - i,
    {
        let ghost rest = units@.skip(i as int);
        let w = units[i];
        if i + 1 < n && 0xD800 <= w && w < 0xDC00 && 0xDC00 <= units[i + 1] && units[i + 1] < 0xE000 {
            let lo = units[i + 1];
            let v: u32 = 0x10000 + (w as u32 - 0xD800) * 1024 + (lo as u32 - 0xDC00);
            let c = match char_from_u32(v) {
                Some(c) => c,
                None => '\u{FFFD}',
            };
            push_char(&mut out, c);
            proof {
                assert(rest.skip(2) =~= units@.skip(i + 2));
                assert(out@ + utf16_decode(units@.skip(i + 2)) =~= utf16_decode(units@));
            }
            i += 2;
        } else if 0xD800 <= w && w < 0xE000 {
            push_char(&mut out, '\u{FFFD}');
            proof {
                assert(rest.skip(1) =~= units@.skip(i + 1));
                assert(out@ + utf16_decode(units@.skip(i + 1)) =~= utf16_decode(units@));
            }
            i += 1;
        } else {
            let c = match char_from_u32(w as u32) {
                Some(c) => c,
                None => '\u{FFFD}',
            };
            push_char(&mut out, c);
            proof {
                assert(rest.skip(1) =~= units@.skip(i + 1));
                assert(out@ + utf16_decode(units@.skip(i + 1)) =~= utf16_decode(units@));
            }
            i += 1;
        }
    }
    assert(units@.skip(n as int) =~= Seq::<u16>::empty());
    assert(out@ =~= utf16_decode(units@));
    out
}

proof fn lemma_char_range(c: char)
    ensures
        (c as u32) <= 0x10FFFF,
        !(0xD800 <= (c as u32) && (c as u32) < 0xE000),
        (((c as u32) as char) == c),
{
}

/// Decoding the UTF-16 encoding of any text gives the text back.
pub proof fn lemma_utf16_round_trip(s: Seq<char>)
    ensures
        utf16_decode(utf16_of(s)) == s,
    decreases s.len(),
{
    if s.len() > 0 {
        let c = s[0];
        let rest = s.drop_first();
        lemma_utf16_round_trip(rest);
        let u = utf16_of(s);
        let v = (c as u32) as int;
        lemma_char_range(c);
        assert(u == utf16_char(c) + utf16_of(rest));
        if v < 0x10000 {
            assert(u[0] == v as u16);
            assert((v as u16) as int == v);
            assert(!is_high_surrogate(u[0]) && !is_low_surrogate(u[0]));
            assert(((v as u16) as char) == c);
            assert(u.skip(1) =~= utf16_of(rest));
            assert(utf16_decode(u) == seq![u[0] as char] + utf16_decode(u.skip(1)));
            assert(utf16_decode(u) =~= seq![c] + rest);
        } else {
            assert(0 <= (v - 0x10000) / 1024 < 1024);
            assert(0 <= (v - 0x10000) % 1024 < 1024);
            let hi = (0xD800 + (v - 0x10000) / 1024) as u16;
            let lo = (0xDC00 + (v - 0x10000) % 1024) as u16;
            assert(hi as int == 0xD800 + (v - 0x10000) / 1024);
            assert(lo as int == 0xDC00 + (v - 0x10000) % 1024);
            assert(u[0] == hi && u[1] == lo);
            assert(is_high_surrogate(hi) && is_low_surrogate(lo));
            assert(u.skip(2) =~= utf16_of(rest));
            assert(pair_value(hi, lo) == v);
            assert(((v as u32) as char) == c);
            assert(utf16_decode(u) == seq![pair_value(u[0], u[1]) as char] + utf16_decode(u.skip(2)));
            assert(utf16_decode(u) =~= seq![c] + rest);
        }
        assert(seq![c] + rest =~= s);
    } else {
        assert(utf16_of(s) =~= Seq::<u16>::empty());
    }
}

/// Text without NUL characters encodes to units without zeros.
pub proof fn lemma_utf16_no_zero(s: Seq<char>)
    requires
        !s.contains('\0'),
    ensures
        !utf16_of(s).contains(0u16),
    decreases s.len(),
{
    if s.len() > 0 {
        assert(!s.drop_first().contains('\0')) by {
            if s.drop_first().contains('\0') {
                let k = choose|k: int| 0 <= k < s.drop_first().len() && s.drop_first()[k] == '\0';
                assert(s[k + 1] == '\0');
            }
        }
        lemma_utf16_no_zero(s.drop_first());
        assert(s[0] != '\0') by {
            assert(s.contains(s[0]));
        }
        let u = utf16_of(s);
        let head = utf16_char(s[0]);
        assert(u == head + utf16_of(s.drop_first()));
        assert((s[0] as u32) != 0) by {
            lemma_char_range(s[0]);
            lemma_char_range('\0');
        }
        assert(!u.contains(0u16)) by {
            if u.contains(0u16) {
                let k = choose|k: int| 0 <= k < u.len() && u[k] == 0u16;
                if k >= head.len() {
                    assert(utf16_of(s.drop_first())[k - head.len()] == 0u16);
                    assert(utf16_of(s.drop_first()).contains(0u16));
                } else {
                    let v = (s[0] as u32) as int;
                    lemma_char_range(s[0]);
                    if v < 0x10000 {
                        assert((v as u16) as int == v);
                    } else {
                        assert(0 <= (v - 0x10000) / 1024 < 1024);
                        assert(0 <= (v - 0x10000) % 1024 < 1024);
                        assert(((0xD800 + (v - 0x10000) / 1024) as u16) as int == 0xD800 + (v - 0x10000) / 1024);
                        assert(((0xDC00 + (v - 0x10000) % 1024) as u16) as int == 0xDC00 + (v - 0x10000) % 1024);
                    }
                }
            }
        }
    }
}


/// The value of an ASCII digit.
pub open spec fn digit_value(c: char) -> int {
    (c as u32) as int - 48
}

/// The number that a string of decimal digits denotes.
pub open spec fn dec_value(s: Seq<char>) -> int
    decreases s.len(),
{
    if s.len() == 0 {
        0
    } else {
        10 * dec_value(s.drop_last()) + digit_value(s.last())
    }
}

pub open spec fn is_digit(c: char) -> bool {
    48 <= (c as u32) <= 57
}

/// The decimal rendering of `n` consists of digits denoting `n`, without a
/// leading zero (unless `n` is zero).
pub proof fn lemma_dec_nat_denotes(n: nat)
    ensures
        dec_value(dec_nat(n)) == n,
        forall|i: int| 0 <= i < dec_nat(n).len() ==> is_digit(#[trigger] dec_nat(n)[i]),
        dec_nat(n).len() >= 1,
        n > 0 ==> dec_nat(n)[0] != '0',
        n == 0 ==> dec_nat(n) == seq!['0'],
    decreases n,
{
    let d = (n % 10) as nat;
    assert(('0' as u32) == 48 && ('1' as u32) == 49 && ('2' as u32) == 50 && ('3' as u32) == 51 && ('4' as u32)
        == 52 && ('5' as u32) == 53 && ('6' as u32) == 54 && ('7' as u32) == 55 && ('8' as u32) == 56
        && ('9' as u32) == 57);
    assert(digit_value(digit_char(d)) == d);
    if n < 10 {
        let e = dec_nat(n).drop_last();
        assert(e =~= Seq::<char>::empty());
        assert(dec_value(e) == 0);
        assert(dec_nat(n).last() == digit_char(d));
        assert(dec_value(dec_nat(n)) == 10 * dec_value(e) + digit_value(digit_char(d)));
    } else {
        lemma_dec_nat_denotes(n / 10);
        let s = dec_nat(n);
        assert(s.drop_last() =~= dec_nat(n / 10));
        assert(s.last() == digit_char(d));
        assert(dec_value(s) == 10 * dec_value(dec_nat(n / 10)) + digit_value(digit_char(d)));
        assert(s[0] == dec_nat(n / 10)[0]);
        assert forall|i: int| 0 <= i < s.len() implies is_digit(#[trigger] s[i]) by {
            if i < s.len() - 1 {
                assert(s[i] == dec_nat(n / 10)[i]);
            }
        }
    }
}

/// A negative number renders as a minus sign followed by the rendering of
/// its magnitude; others render as their digits alone.
pub proof fn lemma_dec_int_sign(n: int)
    ensures
        n < 0 ==> dec_int(n)[0] == '-' && dec_int(n).drop_first() == dec_nat((-n) as nat),
        n >= 0 ==> dec_int(n) == dec_nat(n as nat),
{
    if n < 0 {
        assert((seq!['-'] + dec_nat((-n) as nat)).drop_first() =~= dec_nat((-n) as nat));
    }
}

/// The tooltip buffer holds 128 units: a text shorter than that followed by
/// its terminator and zeros, a longer one cut to its first 128 units.
pub proof fn lemma_tip_buffer(w: Seq<u16>)
    ensures
        fit_to(w.push(0), TIP_UNITS as nat).len() == 128,
        w.len() < 128 ==> fit_to(w.push(0), TIP_UNITS as nat).take(w.len() as int) == w,
        w.len() < 128 ==> forall|i: int|
            w.len() <= i < 128 ==> #[trigger] fit_to(w.push(0), TIP_UNITS as nat)[i] == 0,
        w.len() >= 128 ==> fit_to(w.push(0), TIP_UNITS as nat) == w.take(128),
{
    if w.len() < 128 {
        assert(fit_to(w.push(0), TIP_UNITS as nat).take(w.len() as int) =~= w);
    } else {
        assert(fit_to(w.push(0), TIP_UNITS as nat) =~= w.take(128));
    }
}

} // verus!
