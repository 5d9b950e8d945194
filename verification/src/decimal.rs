//! Fixed-point decimal text: the cache keys and snapshot files speak of
//! coordinates and readings as decimal strings, while the core holds them as
//! scaled integers (degrees at scale 10^7, readings at scale 10).
//! This module gives the verified conversions between the two.

use vstd::prelude::*;

verus! {

/// The character for one decimal digit.
pub open spec fn spec_digit(d: int) -> char
    recommends
        0 <= d < 10,
{
    ((48 + d) as u8) as char
}

/// The decimal digits of a nonnegative number, most significant first,
/// without leading zeros (`0` is written as one digit).
pub open spec fn spec_digits(n: int) -> Seq<char>
    recommends
        n >= 0,
    decreases n,
{
    if n < 10 {
        seq![spec_digit(n)]
    } else {
        spec_digits(n / 10).push(spec_digit(n % 10))
    }
}

/// The lowest `w` decimal digits of a nonnegative number, most significant
/// first, zero-padded to exactly `w` characters.
pub open spec fn spec_padded(n: int, w: int) -> Seq<char>
    recommends
        n >= 0,
        w >= 1,
    decreases w,
{
    if w <= 1 {
        seq![spec_digit(n % 10)]
    } else {
        spec_padded(n / 10, w - 1).push(spec_digit(n % 10))
    }
}

/// Relies on `String::push`: appends exactly the given character.
#[verifier::external_body]
pub(crate) fn push_char(s: &mut String, c: char)
    ensures
        final(s)@ == old(s)@ + seq![c],
{
    s.push(c);
}

/// The character for one digit value below ten.
fn digit_char(d: u64) -> (c: char)
    requires
        d < 10,
    ensures
        c == spec_digit(d as int),
{
    (48u8 + (d as u8)) as char
}

/// Writes a number in decimal, without sign or padding.
pub fn format_u64(n: u64) -> (r: String)
    ensures
        r@ == spec_digits(n as int),
    decreases n,
{
    if n < 10 {
        let mut s = String::new();
        push_char(&mut s, digit_char(n));
        proof {
            assert(s@ =~= spec_digits(n as int));
        }
        s
    } else {
        let mut s = format_u64(n / 10);
        push_char(&mut s, digit_char(n % 10));
        proof {
            assert(s@ =~= spec_digits(n as int));
        }
        s
    }
}

/// Writes the lowest `w` digits of a number, zero-padded to width `w`.
pub fn format_padded(n: u64, w: u64) -> (r: String)
    requires
        w >= 1,
    ensures
        r@ == spec_padded(n as int, w as int),
    decreases w,
{
    if w == 1 {
        let mut s = String::new();
        push_char(&mut s, digit_char(n % 10));
        proof {
            assert(s@ =~= spec_padded(n as int, w as int));
        }
        s
    } else {
        let mut s = format_padded(n / 10, w - 1);
        push_char(&mut s, digit_char(n % 10));
        proof {
            assert(s@ =~= spec_padded(n as int, w as int));
        }
        s
    }
}

/// The magnitude of a signed number, as an unsigned one.
pub fn magnitude(v: i64) -> (r: u64)
    ensures
        r as int == (if v >= 0 {
            v as int
        } else {
            -(v as int)
        }),
{
    if v >= 0 {
        v as u64
    } else {
        let w: i128 = -(v as i128);
        w as u64
    }
}

/// Rounding of a degree value from scale 10^7 to scale 10^4, half away
/// from zero, as a magnitude of the result (the sign is kept separately).
pub open spec fn spec_round_mag_e7_to_e4(v: int) -> int {
    let a = if v >= 0 {
        v
    } else {
        -v
    };
    (a + 500) / 1000
}

/// A degree value at scale 10^7, written with exactly four decimal places,
/// rounded half away from zero; a negative value keeps its sign even when
/// the rounded magnitude is zero.
pub open spec fn spec_fixed4(v: int) -> Seq<char> {
    let q = spec_round_mag_e7_to_e4(v);
    (if v < 0 {
        seq!['-']
    } else {
        Seq::<char>::empty()
    }) + spec_digits(q / 10000) + seq!['.'] + spec_padded(q % 10000, 4)
}

/// Writes a degree value held at scale 10^7 with four decimal places.
pub fn format_e7_fixed4(v: i64) -> (r: String)
    ensures
        r@ == spec_fixed4(v as int),
{
    let m: i128 = v as i128;
    let a128: i128 = if v < 0 {
        -m
    } else {
        m
    };
    let q128: i128 = (a128 + 500) / 1000;
    assert(q128 <= u64::MAX as i128);
    let q: u64 = q128 as u64;
    let mut s = String::new();
    if v < 0 {
        push_char(&mut s, '-');
    }
    let ip = format_u64(q / 10000);
    s.append(ip.as_str());
    push_char(&mut s, '.');
    let fp = format_padded(q % 10000, 4);
    s.append(fp.as_str());
    proof {
        assert(s@ =~= spec_fixed4(v as int));
    }
    s
}

/// A reading held at scale 10 (tenths), written with one decimal place; a
/// negative value keeps its sign.
pub open spec fn spec_tenths(t: int) -> Seq<char> {
    let a = if t >= 0 {
        t
    } else {
        -t
    };
    (if t < 0 {
        seq!['-']
    } else {
        Seq::<char>::empty()
    }) + spec_digits(a / 10) + seq!['.'] + seq![spec_digit(a % 10)]
}

/// Writes a reading held in tenths with one decimal place.
pub fn format_tenths(t: i64) -> (r: String)
    ensures
        r@ == spec_tenths(t as int),
{
    let a = magnitude(t);
    let mut s = String::new();
    if t < 0 {
        push_char(&mut s, '-');
    }
    let ip = format_u64(a / 10);
    s.append(ip.as_str());
    push_char(&mut s, '.');
    push_char(&mut s, digit_char(a % 10));
    proof {
        assert(s@ =~= spec_tenths(t as int));
    }
    s
}

/// Digits with their trailing zeros removed, one digit at least.
pub open spec fn spec_trim_zeros(s: Seq<char>) -> Seq<char>
    decreases s.len(),
{
    if s.len() > 1 && s.last() == '0' {
        spec_trim_zeros(s.drop_last())
    } else {
        s
    }
}

/// Zero-padding to width `w` writes exactly `w` characters.
pub proof fn lemma_padded_len(n: int, w: int)
    requires
        w >= 1,
    ensures
        spec_padded(n, w).len() == w,
    decreases w,
{
    if w > 1 {
        lemma_padded_len(n / 10, w - 1);
    }
}

/// A degree value at scale 10^7 written the way the snapshot files carry
/// numbers: full precision, trailing zeros of the fraction removed, at
/// least one digit on each side of the point.
pub open spec fn spec_json_number(v: int) -> Seq<char> {
    let a = if v >= 0 {
        v
    } else {
        -v
    };
    (if v < 0 {
        seq!['-']
    } else {
        Seq::<char>::empty()
    }) + spec_digits(a / 10000000) + seq!['.'] + spec_trim_zeros(spec_padded(a % 10000000, 7))
}

/// Writes a degree value held at scale 10^7 as a snapshot number.
pub fn format_e7_json(v: i64) -> (r: String)
    ensures
        r@ == spec_json_number(v as int),
{
    let a = magnitude(v);
    let mut s = String::new();
    if v < 0 {
        push_char(&mut s, '-');
    }
    let ip = format_u64(a / 10000000);
    s.append(ip.as_str());
    push_char(&mut s, '.');
    let mut f: u64 = a % 10000000;
    let mut w: u64 = 7;
    while f % 10 == 0 && w > 1
        invariant
            1 <= w <= 7,
            spec_trim_zeros(spec_padded(f as int, w as int)) == spec_trim_zeros(
                spec_padded((a % 10000000) as int, 7),
            ),
        decreases w,
    {
        proof {
            let s0 = spec_padded(f as int, w as int);
            let s1 = spec_padded((f / 10) as int, w - 1);
            lemma_padded_len(f as int, w as int);
            assert(s0 == s1.push(spec_digit((f % 10) as int)));
            assert(s0.last() == '0');
            assert(s0.drop_last() =~= s1);
            assert(spec_trim_zeros(s0) == spec_trim_zeros(s1));
        }
        f = f / 10;
        w = w - 1;
    }
    proof {
        if w > 1 {
            assert(f % 10 != 0);
            assert(spec_padded(f as int, w as int).last() == spec_digit((f % 10) as int));
            assert(spec_digit((f % 10) as int) != '0');
            assert(spec_trim_zeros(spec_padded(f as int, w as int)) == spec_padded(
                f as int,
                w as int,
            ));
        } else {
            assert(spec_padded(f as int, 1).len() == 1);
            assert(spec_trim_zeros(spec_padded(f as int, 1)) == spec_padded(f as int, 1));
        }
    }
    let fp = format_padded(f, w);
    s.append(fp.as_str());
    proof {
        assert(s@ =~= spec_json_number(v as int));
    }
    s
}

/// Whether a character is a decimal digit.
pub open spec fn spec_is_digit(c: char) -> bool {
    48 <= c as int && c as int <= 57
}

/// Whether every character of a sequence is a decimal digit.
pub open spec fn spec_all_digits(s: Seq<char>) -> bool {
    forall|i: int| 0 <= i < s.len() ==> spec_is_digit(#[trigger] s[i])
}

/// The value of a digit sequence read in base ten (zero when empty).
pub open spec fn spec_digits_val(s: Seq<char>) -> int
    decreases s.len(),
{
    if s.len() == 0 {
        0
    } else {
        spec_digits_val(s.drop_last()) * 10 + (s.last() as int - 48)
    }
}

/// How many leading characters of a sequence are decimal digits.
pub open spec fn spec_digit_prefix_len(s: Seq<char>) -> int
    decreases s.len(),
{
    if s.len() == 0 || !spec_is_digit(s[0]) {
        0
    } else {
        1 + spec_digit_prefix_len(s.skip(1))
    }
}

/// Ten to a nonnegative power.
pub open spec fn spec_pow10(k: int) -> int
    decreases k,
{
    if k <= 0 {
        1
    } else {
        10 * spec_pow10(k - 1)
    }
}

/// The value, at scale 10^7, of the fraction digits that follow the point;
/// digits beyond the seventh are ignored.
pub open spec fn spec_frac_e7(f: Seq<char>) -> int {
    let g = if f.len() <= 7 {
        f
    } else {
        f.take(7)
    };
    spec_digits_val(g) * spec_pow10(7 - g.len())
}

/// The grammar the loaders accept for a coordinate, and its value at scale
/// 10^7: one or more digits (at most nine), optionally followed by a point
/// and one or more digits. Anything else has no value.
pub open spec fn spec_parse_unsigned_e7(s: Seq<char>) -> Option<int> {
    let k = spec_digit_prefix_len(s);
    if k == 0 || k > 9 {
        None
    } else if k == s.len() {
        Some(spec_digits_val(s) * 10000000)
    } else if s[k] == '.' && s.len() > k + 1 && spec_all_digits(s.skip(k + 1)) {
        Some(spec_digits_val(s.take(k)) * 10000000 + spec_frac_e7(s.skip(k + 1)))
    } else {
        None
    }
}

/// A decimal coordinate text, optionally signed, and its value at scale
/// 10^7.
pub open spec fn spec_parse_e7(s: Seq<char>) -> Option<int> {
    if s.len() > 0 && s[0] == '-' {
        match spec_parse_unsigned_e7(s.skip(1)) {
            Some(v) => Some(-v),
            None => None,
        }
    } else {
        spec_parse_unsigned_e7(s)
    }
}

/// Ten to a power never shrinks as the power grows.
pub proof fn lemma_pow10_mono(a: int, b: int)
    requires
        a <= b,
    ensures
        spec_pow10(a) <= spec_pow10(b),
        spec_pow10(a) >= 1,
    decreases b - a,
{
    if a < b {
        lemma_pow10_mono(a, b - 1);
    } else {
        lemma_pow10_nonneg(a);
    }
}

/// Ten to any power is at least one.
pub proof fn lemma_pow10_nonneg(a: int)
    ensures
        spec_pow10(a) >= 1,
    decreases a,
{
    if a > 0 {
        lemma_pow10_nonneg(a - 1);
    }
}

/// A sequence of digits reads as a value below ten to its length.
pub proof fn lemma_digits_val_bound(s: Seq<char>)
    requires
        spec_all_digits(s),
    ensures
        0 <= spec_digits_val(s) < spec_pow10(s.len() as int),
    decreases s.len(),
{
    if s.len() == 0 {
    } else {
        assert(spec_all_digits(s.drop_last())) by {
            assert(forall|i: int|
                0 <= i < s.len() - 1 ==> s.drop_last()[i] == #[trigger] s[i]);
        }
        lemma_digits_val_bound(s.drop_last());
        let v = spec_digits_val(s.drop_last());
        let p = spec_pow10(s.len() - 1);
        let d = s.last() as int - 48;
        assert(spec_is_digit(s.last()));
        assert(v * 10 + d < p * 10) by (nonlinear_arith)
            requires
                0 <= v < p,
                d < 10,
        {}
        assert(v * 10 + d >= 0) by (nonlinear_arith)
            requires
                v >= 0,
                d >= 0,
        {}
    }
}

/// The digit prefix length is exactly the position of the first character
/// that is not a digit.
pub proof fn lemma_digit_prefix_len_is(s: Seq<char>, i: int)
    requires
        0 <= i <= s.len(),
        forall|j: int| 0 <= j < i ==> spec_is_digit(#[trigger] s[j]),
        i == s.len() || !spec_is_digit(s[i]),
    ensures
        spec_digit_prefix_len(s) == i,
    decreases i,
{
    if i == 0 {
    } else {
        assert(spec_is_digit(s[0]));
        let t = s.skip(1);
        assert(forall|j: int| 0 <= j < i - 1 ==> t[j] == #[trigger] s[j + 1]);
        lemma_digit_prefix_len_is(t, i - 1);
    }
}

/// Whether a character is a decimal digit.
pub fn is_digit_char(c: char) -> (r: bool)
    ensures
        r == spec_is_digit(c),
{
    let u = c as u32;
    48 <= u && u <= 57
}

/// Ten to a power, multiplied together, is ten to the sum of the powers.
pub proof fn lemma_pow10_add(a: int, b: int)
    requires
        a >= 0,
        b >= 0,
    ensures
        spec_pow10(a) * spec_pow10(b) == spec_pow10(a + b),
    decreases a,
{
    if a == 0 {
    } else {
        lemma_pow10_add(a - 1, b);
        assert((10 * spec_pow10(a - 1)) * spec_pow10(b) == 10 * (spec_pow10(a - 1) * spec_pow10(
            b,
        ))) by (nonlinear_arith);
    }
}

/// Ten to a small power, as a machine number.
fn pow10_u64(k: u64) -> (r: u64)
    requires
        k <= 7,
    ensures
        r as int == spec_pow10(k as int),
{
    proof {
        reveal_with_fuel(spec_pow10, 9);
    }
    if k == 0 {
        1
    } else if k == 1 {
        10
    } else if k == 2 {
        100
    } else if k == 3 {
        1000
    } else if k == 4 {
        10000
    } else if k == 5 {
        100000
    } else if k == 6 {
        1000000
    } else {
        10000000
    }
}

/// Reads a decimal coordinate text into its value at scale 10^7, exactly
/// when the text fits the grammar of [`spec_parse_e7`].
#[verifier::rlimit(60)]
#[verifier::spinoff_prover]
pub fn parse_decimal_e7(s: &str) -> (r: Option<i64>)
    ensures
        match r {
            Some(v) => spec_parse_e7(s@) == Some(v as int),
            None => spec_parse_e7(s@) is None,
        },
{
    let n = s.unicode_len();
    let neg = n > 0 && s.get_char(0) == '-';
    let start: usize = if neg {
        1
    } else {
        0
    };
    let ghost body = s@.skip(start as int);
    proof {
        if !neg {
            assert(body =~= s@);
        }
    }
    // Scan the digit run that forms the integer part.
    let mut k = start;
    while k < n && is_digit_char(s.get_char(k))
        invariant
            start <= k <= n,
            n == s@.len(),
            forall|j: int| start <= j < k ==> spec_is_digit(#[trigger] s@[j]),
        decreases n - k,
    {
        k = k + 1;
    }
    proof {
        assert(forall|j: int| 0 <= j < body.len() ==> body[j] == #[trigger] s@[j + start]);
        lemma_digit_prefix_len_is(body, (k - start) as int);
    }
    let ghost kk = (k - start) as int;
    if k == start || k - start > 9 {
        return None;
    }
    // Accumulate the integer part.
    let mut acc: u64 = 0;
    let mut i = start;
    while i < k
        invariant
            start <= i <= k <= n,
            n == s@.len(),
            k - start <= 9,
            forall|j: int| start <= j < k ==> spec_is_digit(#[trigger] s@[j]),
            acc == spec_digits_val(s@.subrange(start as int, i as int)),
            acc < 1000000000,
        decreases k - i,
    {
        let c = s.get_char(i);
        let d = (c as u32 - 48) as u64;
        proof {
            let pre = s@.subrange(start as int, i as int);
            let post = s@.subrange(start as int, i + 1);
            assert(post.drop_last() =~= pre);
            assert(post.last() == s@[i as int]);
            assert(spec_all_digits(post)) by {
                assert(forall|j: int| 0 <= j < post.len() ==> post[j] == #[trigger] s@[j + start]);
            }
            lemma_digits_val_bound(post);
            lemma_pow10_mono(post.len() as int, 9);
            reveal_with_fuel(spec_pow10, 11);
        }
        acc = acc * 10 + d;
        i = i + 1;
    }
    proof {
        assert(s@.subrange(start as int, k as int) =~= body.take(kk));
    }
    if k == n {
        // No fraction: the whole body is the integer part.
        proof {
            assert(body.take(kk) =~= body);
            assert(acc * 10000000 < 1000000000 * 10000000) by (nonlinear_arith)
                requires
                    0 <= acc < 1000000000,
            {}
            assert(spec_parse_unsigned_e7(body) == Some(acc as int * 10000000));
        }
        let v: i64 = (acc as i64) * 10000000;
        if neg {
            return Some(-v);
        } else {
            return Some(v);
        }
    }
    proof {
        assert(body[kk] == s@[k as int]);
        assert(body.len() == n - start);
    }
    if s.get_char(k) != '.' {
        return None;
    }
    let dot1 = k + 1;
    if dot1 == n {
        return None;
    }
    let ghost fr = body.skip(kk + 1);
    proof {
        assert(fr =~= s@.subrange(dot1 as int, n as int));
    }
    // Every remaining character must be a digit.
    let mut j = dot1;
    while j < n && is_digit_char(s.get_char(j))
        invariant
            dot1 <= j <= n,
            n == s@.len(),
            forall|m: int| dot1 <= m < j ==> spec_is_digit(#[trigger] s@[m]),
        decreases n - j,
    {
        j = j + 1;
    }
    if j < n {
        proof {
            assert(fr[(j - dot1) as int] == s@[j as int]);
            assert(!spec_all_digits(fr));
        }
        return None;
    }
    proof {
        assert(spec_all_digits(fr)) by {
            assert(forall|m: int| 0 <= m < fr.len() ==> fr[m] == #[trigger] s@[m + dot1]);
        }
    }
    // Accumulate the first seven fraction digits.
    let fstop = if n - dot1 <= 7 {
        n
    } else {
        dot1 + 7
    };
    let mut facc: u64 = 0;
    let mut m = dot1;
    while m < fstop
        invariant
            dot1 <= m <= fstop <= n,
            n == s@.len(),
            fstop - dot1 <= 7,
            forall|q: int| dot1 <= q < n ==> spec_is_digit(#[trigger] s@[q]),
            facc == spec_digits_val(s@.subrange(dot1 as int, m as int)),
            facc < 10000000,
        decreases fstop - m,
    {
        let c = s.get_char(m);
        let d = (c as u32 - 48) as u64;
        proof {
            let pre = s@.subrange(dot1 as int, m as int);
            let post = s@.subrange(dot1 as int, m + 1);
            assert(post.drop_last() =~= pre);
            assert(post.last() == s@[m as int]);
            assert(spec_all_digits(post)) by {
                assert(forall|q: int| 0 <= q < post.len() ==> post[q] == #[trigger] s@[q + dot1]);
            }
            lemma_digits_val_bound(post);
            lemma_pow10_mono(post.len() as int, 7);
            reveal_with_fuel(spec_pow10, 9);
        }
        facc = facc * 10 + d;
        m = m + 1;
    }
    // Scale the fraction to 10^7 and assemble the value.
    let fwidth = fstop - dot1;
    let mult = pow10_u64(7 - (fwidth as u64));
    let ghost g = s@.subrange(dot1 as int, fstop as int);
    proof {
        if fr.len() <= 7 {
            assert(g =~= fr);
        } else {
            assert(g =~= fr.take(7));
        }
        assert(spec_all_digits(g)) by {
            assert(forall|q: int| 0 <= q < g.len() ==> g[q] == #[trigger] s@[q + dot1]);
        }
        lemma_digits_val_bound(g);
        lemma_pow10_add(g.len() as int, 7 - g.len() as int);
        lemma_pow10_nonneg(7 - g.len() as int);
        assert(facc * (mult as int) < spec_pow10(g.len() as int) * spec_pow10(7 - g.len() as int))
            by (nonlinear_arith)
            requires
                0 <= facc < spec_pow10(g.len() as int),
                mult as int == spec_pow10(7 - g.len() as int),
                spec_pow10(7 - g.len() as int) >= 1,
        {}
        lemma_pow10_mono(0, 7 - g.len() as int);
        reveal_with_fuel(spec_pow10, 9);
        assert(acc * 10000000 < 1000000000 * 10000000) by (nonlinear_arith)
            requires
                0 <= acc < 1000000000,
        {}
    }
    let fval: u64 = facc * mult;
    let v: i64 = (acc as i64) * 10000000 + (fval as i64);
    proof {
        assert(spec_frac_e7(fr) == facc as int * mult as int);
        assert(spec_parse_unsigned_e7(body) == Some(
            acc as int * 10000000 + facc as int * mult as int,
        ));
    }
    if neg {
        Some(-v)
    } else {
        Some(v)
    }
}

} // verus!
