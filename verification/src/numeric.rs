use vstd::prelude::*;
use crate::strutil::chars_of;

verus! {

/// Largest magnitude, in ten-thousandths, that a cell value may hold.
pub const SCALED_LIMIT: i64 = 1000000000000000;

// ---------------------------------------------------------------------------
// Digits
// ---------------------------------------------------------------------------

pub open spec fn is_digit(c: char) -> bool {
    c == '0' || c == '1' || c == '2' || c == '3' || c == '4' || c == '5' || c == '6' || c == '7'
        || c == '8' || c == '9'
}

pub open spec fn digit_val(c: char) -> int {
    if c == '0' {
        0
    } else if c == '1' {
        1
    } else if c == '2' {
        2
    } else if c == '3' {
        3
    } else if c == '4' {
        4
    } else if c == '5' {
        5
    } else if c == '6' {
        6
    } else if c == '7' {
        7
    } else if c == '8' {
        8
    } else if c == '9' {
        9
    } else {
        0
    }
}

pub open spec fn digit_char(d: int) -> char {
    if d == 0 {
        '0'
    } else if d == 1 {
        '1'
    } else if d == 2 {
        '2'
    } else if d == 3 {
        '3'
    } else if d == 4 {
        '4'
    } else if d == 5 {
        '5'
    } else if d == 6 {
        '6'
    } else if d == 7 {
        '7'
    } else if d == 8 {
        '8'
    } else {
        '9'
    }
}

pub open spec fn all_digits(s: Seq<char>) -> bool {
    forall|i: int| 0 <= i < s.len() ==> is_digit(s[i])
}

/// The integer that a run of decimal digits denotes.
pub open spec fn digits_val(s: Seq<char>) -> int
    decreases s.len(),
{
    if s.len() == 0 {
        0
    } else {
        digits_val(s.drop_last()) * 10 + digit_val(s.last())
    }
}

/// The decimal digits of a non-negative integer, most significant first.
pub open spec fn dec_rep(n: int) -> Seq<char>
    recommends
        n >= 0,
    decreases n,
{
    if n < 10 {
        seq![digit_char(n)]
    } else {
        dec_rep(n / 10).push(digit_char(n % 10))
    }
}

pub open spec fn pow10(k: nat) -> int
    decreases k,
{
    if k == 0 {
        1
    } else {
        10 * pow10((k - 1) as nat)
    }
}

pub proof fn lemma_pow10_pos(k: nat)
    ensures
        pow10(k) >= 1,
    decreases k,
{
    if k > 0 {
        lemma_pow10_pos((k - 1) as nat);
    }
}

pub proof fn lemma_pow10_mono(a: nat, b: nat)
    requires
        a <= b,
    ensures
        pow10(a) <= pow10(b),
    decreases b,
{
    if a < b {
        lemma_pow10_mono(a, (b - 1) as nat);
        lemma_pow10_pos((b - 1) as nat);
    }
}

pub proof fn lemma_pow10_small()
    ensures
        pow10(0) == 1,
        pow10(1) == 10,
        pow10(2) == 100,
        pow10(3) == 1000,
        pow10(4) == 10000,
{
    reveal_with_fuel(pow10, 5);
}

pub proof fn lemma_digits_val_bounds(s: Seq<char>)
    requires
        all_digits(s),
    ensures
        0 <= digits_val(s) < pow10(s.len() as nat),
    decreases s.len(),
{
    if s.len() > 0 {
        assert(all_digits(s.drop_last())) by {
            assert(forall|i: int|
                0 <= i < s.len() - 1 ==> s.drop_last()[i] == #[trigger] s[i]);
        }
        lemma_digits_val_bounds(s.drop_last());
        assert(digit_val(s.last()) <= 9);
        assert(digits_val(s.drop_last()) * 10 + 9 < pow10(s.len() as nat)) by {
            assert(pow10(s.len() as nat) == 10 * pow10((s.len() - 1) as nat));
            assert(digits_val(s.drop_last()) <= pow10((s.len() - 1) as nat) - 1);
            assert(digits_val(s.drop_last()) * 10 <= (pow10((s.len() - 1) as nat) - 1) * 10)
                by (nonlinear_arith)
                requires
                    digits_val(s.drop_last()) <= pow10((s.len() - 1) as nat) - 1,
            ;
        }
    }
}

pub proof fn lemma_dec_rep_digits(n: int)
    requires
        n >= 0,
    ensures
        all_digits(dec_rep(n)),
        digits_val(dec_rep(n)) == n,
        dec_rep(n).len() >= 1,
        n > 0 ==> dec_rep(n)[0] != '0',
        n < 10 ==> dec_rep(n).len() == 1,
    decreases n,
{
    if n < 10 {
        assert(digits_val(dec_rep(n)) == digits_val(Seq::<char>::empty()) * 10 + digit_val(
            digit_char(n),
        )) by {
            assert(dec_rep(n).drop_last() =~= Seq::<char>::empty());
        }
    } else {
        lemma_dec_rep_digits(n / 10);
        let pre = dec_rep(n / 10);
        let whole = pre.push(digit_char(n % 10));
        assert(whole.drop_last() =~= pre);
        assert(whole.last() == digit_char(n % 10));
        assert(digits_val(whole) == (n / 10) * 10 + n % 10);
        assert((n / 10) * 10 + n % 10 == n) by {
            vstd::arithmetic::div_mod::lemma_fundamental_div_mod(n, 10);
        }
        assert(n / 10 > 0);
        assert(whole[0] == pre[0]);
        assert(forall|i: int| 0 <= i < whole.len() ==> is_digit(whole[i])) by {
            assert(forall|i: int| 0 <= i < pre.len() ==> whole[i] == #[trigger] pre[i]);
        }
    }
}

/// Extending a digit run multiplies its value by ten and adds the new digit.
pub proof fn lemma_digits_val_push(s: Seq<char>, c: char)
    ensures
        digits_val(s.push(c)) == digits_val(s) * 10 + digit_val(c),
{
    assert(s.push(c).drop_last() =~= s);
    assert(s.push(c).last() == c);
}

/// A digit prefix never exceeds the value of the whole run.
pub proof fn lemma_digits_val_prefix_le(s: Seq<char>, k: int)
    requires
        all_digits(s),
        0 <= k <= s.len(),
    ensures
        digits_val(s.take(k)) <= digits_val(s),
    decreases s.len() - k,
{
    if k < s.len() {
        lemma_digits_val_prefix_le(s, k + 1);
        assert(s.take(k + 1).drop_last() =~= s.take(k));
        assert(all_digits(s.take(k))) by {
            assert(forall|i: int| 0 <= i < k ==> s.take(k)[i] == #[trigger] s[i]);
        }
        lemma_digits_val_bounds(s.take(k));
        assert(digits_val(s.take(k + 1)) == digits_val(s.take(k)) * 10 + digit_val(s.take(k + 1).last()));
        assert(digits_val(s.take(k)) * 10 >= digits_val(s.take(k))) by (nonlinear_arith)
            requires
                digits_val(s.take(k)) >= 0,
        ;
    } else {
        assert(s.take(k) =~= s);
    }
}

// ---------------------------------------------------------------------------
// Fixed-point parsing: the numeric grammar of a cell
// ---------------------------------------------------------------------------

/// Index of the first occurrence of `c` in `s`, or `s.len()` if absent.
pub open spec fn first_idx(s: Seq<char>, c: char) -> int
    decreases s.len(),
{
    if s.len() == 0 {
        0
    } else if s[0] == c {
        0
    } else {
        1 + first_idx(s.drop_first(), c)
    }
}

pub proof fn lemma_first_idx(s: Seq<char>, c: char)
    ensures
        0 <= first_idx(s, c) <= s.len(),
        first_idx(s, c) < s.len() ==> s[first_idx(s, c)] == c,
        forall|k: int| 0 <= k < first_idx(s, c) ==> s[k] != c,
    decreases s.len(),
{
    if s.len() > 0 && s[0] != c {
        lemma_first_idx(s.drop_first(), c);
        if first_idx(s, c) < s.len() {
            assert(s[first_idx(s, c)] == s.drop_first()[first_idx(s.drop_first(), c)]);
        }
        assert forall|k: int| 0 <= k < first_idx(s, c) implies s[k] != c by {
            if k > 0 {
                assert(s[k] == s.drop_first()[k - 1]);
            }
        }
    }
}

/// The fractional digits of a cell, in ten-thousandths, rounded half away
/// from zero on the fifth digit.
pub open spec fn frac_scaled(f: Seq<char>) -> int {
    let head = if f.len() <= 4 {
        f
    } else {
        f.take(4)
    };
    let base = digits_val(head) * pow10((4 - head.len()) as nat);
    if f.len() > 4 && digit_val(f[4]) >= 5 {
        base + 1
    } else {
        base
    }
}

/// The numeric reading of a trimmed cell, in ten-thousandths: an optional
/// sign, decimal digits with at most one point, at least one digit in all,
/// and a magnitude within `SCALED_LIMIT`. Anything else is not a number:
/// in particular exponent notation and words for infinities, which a
/// floating-point reader would accept, here stay text.
pub open spec fn scaled_of(s: Seq<char>) -> Option<int> {
    let neg = s.len() > 0 && s[0] == '-';
    let body = if s.len() > 0 && (s[0] == '-' || s[0] == '+') {
        s.drop_first()
    } else {
        s
    };
    let d = first_idx(body, '.');
    let ip = body.take(d);
    let fp = if d < body.len() {
        body.skip(d + 1)
    } else {
        Seq::<char>::empty()
    };
    if all_digits(ip) && all_digits(fp) && ip.len() + fp.len() > 0 {
        let mag = digits_val(ip) * 10000 + frac_scaled(fp);
        if mag <= SCALED_LIMIT {
            Some(
                if neg {
                    -mag
                } else {
                    mag
                },
            )
        } else {
            None
        }
    } else {
        None
    }
}

pub fn digit_test(c: char) -> (r: bool)
    ensures
        r == is_digit(c),
{
    c == '0' || c == '1' || c == '2' || c == '3' || c == '4' || c == '5' || c == '6' || c == '7'
        || c == '8' || c == '9'
}

pub fn digit_value(c: char) -> (r: i64)
    requires
        is_digit(c),
    ensures
        r == digit_val(c),
{
    match c {
        '0' => 0,
        '1' => 1,
        '2' => 2,
        '3' => 3,
        '4' => 4,
        '5' => 5,
        '6' => 6,
        '7' => 7,
        '8' => 8,
        _ => 9,
    }
}

pub fn char_of_digit(d: i64) -> (r: char)
    requires
        0 <= d <= 9,
    ensures
        r == digit_char(d as int),
{
    match d {
        0 => '0',
        1 => '1',
        2 => '2',
        3 => '3',
        4 => '4',
        5 => '5',
        6 => '6',
        7 => '7',
        8 => '8',
        _ => '9',
    }
}

/// The numeric reading of a cell, as executable code.
#[verifier::rlimit(60)]
pub fn parse_scaled(s: &str) -> (r: Option<i64>)
    ensures
        match r {
            Some(n) => scaled_of(s@) == Some(n as int) && -SCALED_LIMIT <= n <= SCALED_LIMIT,
            None => scaled_of(s@) is None,
        },
{
    let v = chars_of(s);
    let n = v.len();
    let mut start: usize = 0;
    let mut neg = false;
    if n > 0 && (v[0] == '-' || v[0] == '+') {
        start = 1;
        neg = v[0] == '-';
    }
    let ghost body = if s@.len() > 0 && (s@[0] == '-' || s@[0] == '+') {
        s@.drop_first()
    } else {
        s@
    };
    assert(body =~= v@.skip(start as int));

    // find the decimal point
    let mut dot: usize = start;
    while dot < n && v[dot] != '.'
        invariant
            start <= dot <= n,
            n == v@.len(),
            forall|k: int| start <= k < dot ==> v@[k] != '.',
        decreases n - dot,
    {
        dot = dot + 1;
    }
    proof {
        lemma_first_idx(body, '.');
        let fi = first_idx(body, '.');
        assert(forall|k: int| 0 <= k < dot - start ==> body[k] != '.');
        if fi < dot - start {
            assert(body[fi] == '.');
            assert(false);
        }
        if fi > dot - start && dot < n {
            assert(body[dot - start] == '.');
            assert(false);
        }
        assert(fi == dot - start);
    }
    let ghost ip = body.take(dot - start);
    let ghost fp = if dot - start < body.len() {
        body.skip(dot - start + 1)
    } else {
        Seq::<char>::empty()
    };

    // integer part
    let mut mag: i64 = 0;
    let mut i: usize = start;
    while i < dot
        invariant
            start <= i <= dot <= n,
            n == v@.len(),
            v@ == s@,
            start == if s@.len() > 0 && (s@[0] == '-' || s@[0] == '+') {
                1int
            } else {
                0int
            },
            body == if s@.len() > 0 && (s@[0] == '-' || s@[0] == '+') {
                s@.drop_first()
            } else {
                s@
            },
            body == v@.skip(start as int),
            first_idx(body, '.') == dot - start,
            ip == body.take(dot - start),
            fp == if dot - start < body.len() {
                body.skip(dot - start + 1)
            } else {
                Seq::<char>::empty()
            },
            forall|k: int| 0 <= k < ip.len() ==> ip[k] == v@[start + k],
            all_digits(ip.take(i - start)),
            mag == digits_val(ip.take(i - start)),
            0 <= mag <= 1000000000009,
        decreases dot - i,
    {
        let c = v[i];
        assert(ip[i - start] == c);
        if !digit_test(c) {
            assert(!all_digits(ip));
            return None;
        }
        assert(ip.take(i - start + 1) =~= ip.take(i - start).push(c));
        proof {
            lemma_digits_val_push(ip.take(i - start), c);
        }
        if mag > 100000000000 {
            // the integer part alone already exceeds the representable range
            proof {
                assert(digits_val(ip.take(i - start + 1)) >= mag * 10) by (nonlinear_arith)
                    requires
                        digits_val(ip.take(i - start + 1)) == mag * 10 + digit_val(c),
                        digit_val(c) >= 0,
                ;
                if all_digits(ip) && all_digits(fp) {
                    lemma_digits_val_prefix_le(ip, i - start + 1);
                    assert(digits_val(ip) >= mag * 10);
                    assert(digits_val(ip) * 10000 >= mag * 10 * 10000) by (nonlinear_arith)
                        requires
                            digits_val(ip) >= mag * 10,
                    ;
                    lemma_frac_scaled_bounds(fp);
                    assert(digits_val(ip) * 10000 + frac_scaled(fp) > SCALED_LIMIT);
                }
                assert(scaled_of(s@) is None);
            }
            return None;
        }
        let d = digit_value(c);
        mag = mag * 10 + d;
        i = i + 1;
    }
    assert(ip.take(dot - start) =~= ip);
    assert(all_digits(ip));
    assert(mag == digits_val(ip));

    // fraction part
    let fstart = if dot < n {
        dot + 1
    } else {
        dot
    };
    assert(fp =~= v@.skip(fstart as int));
    let mut fr4: i64 = 0;
    let mut count: usize = 0;
    let mut roundup = false;
    let mut j: usize = fstart;
    while j < n
        invariant
            fstart <= j <= n,
            n == v@.len(),
            v@ == s@,
            start == if s@.len() > 0 && (s@[0] == '-' || s@[0] == '+') {
                1int
            } else {
                0int
            },
            body == if s@.len() > 0 && (s@[0] == '-' || s@[0] == '+') {
                s@.drop_first()
            } else {
                s@
            },
            body == v@.skip(start as int),
            first_idx(body, '.') == dot - start,
            ip == body.take(dot - start),
            all_digits(ip),
            start <= dot <= n,
            fstart == if dot < n {
                dot + 1int
            } else {
                dot as int
            },
            fp == if dot - start < body.len() {
                body.skip(dot - start + 1)
            } else {
                Seq::<char>::empty()
            },
            fp == v@.skip(fstart as int),
            fp.len() == n - fstart,
            forall|k: int| 0 <= k < fp.len() ==> fp[k] == v@[fstart + k],
            all_digits(fp.take(j - fstart)),
            count == if j - fstart <= 4 {
                j - fstart
            } else {
                4int
            },
            fr4 == digits_val(fp.take(count as int)),
            0 <= fr4 <= 9999,
            fr4 < pow10(count as nat),
            roundup == (j - fstart > 4 && digit_val(fp[4]) >= 5),
        decreases n - j,
    {
        let c = v[j];
        assert(fp[j - fstart] == c);
        if !digit_test(c) {
            assert(!all_digits(fp));
            return None;
        }
        if count < 4 {
            assert(fp.take(j - fstart + 1) =~= fp.take(j - fstart).push(c));
            assert(fp.take(count as int + 1) =~= fp.take(count as int).push(c));
            proof {
                lemma_digits_val_push(fp.take(count as int), c);
                assert(all_digits(fp.take(count as int + 1)));
                lemma_digits_val_bounds(fp.take(count as int + 1));
                assert(pow10((count + 1) as nat) <= pow10(4)) by {
                    lemma_pow10_mono((count + 1) as nat, 4);
                }
                lemma_pow10_small();
            }
            let d = digit_value(c);
            fr4 = fr4 * 10 + d;
            count = count + 1;
        } else {
            assert(fp.take(j - fstart + 1) =~= fp.take(j - fstart).push(c));
            if j == fstart + 4 {
                let d = digit_value(c);
                if d >= 5 {
                    roundup = true;
                }
            }
        }
        j = j + 1;
    }
    assert(fp.take(fp.len() as int) =~= fp);
    assert(all_digits(fp));

    // nothing but a sign and a point is not a number
    if dot == start && fstart == n {
        assert(ip.len() + fp.len() == 0);
        return None;
    }
    assert(ip.len() + fp.len() > 0);

    // scale the fraction to ten-thousandths
    let mult: i64 = if count == 0 {
        10000
    } else if count == 1 {
        1000
    } else if count == 2 {
        100
    } else if count == 3 {
        10
    } else {
        1
    };
    proof {
        lemma_pow10_small();
        let head = if fp.len() <= 4 {
            fp
        } else {
            fp.take(4)
        };
        if fp.len() <= 4 {
            assert(head =~= fp.take(count as int));
        } else {
            assert(head =~= fp.take(count as int));
        }
        assert(digits_val(head) == fr4);
        assert(mult == pow10((4 - head.len()) as nat));
        lemma_frac_scaled_bounds(fp);
    }
    let frac: i64 = fr4 * mult + (if roundup {
        1
    } else {
        0
    });
    assert(frac == frac_scaled(fp));
    assert(0 <= frac <= 10000);

    let total: i64 = mag * 10000 + frac;
    assert(total == digits_val(ip) * 10000 + frac_scaled(fp));
    if total > SCALED_LIMIT {
        return None;
    }
    if neg {
        Some(-total)
    } else {
        Some(total)
    }
}

pub proof fn lemma_frac_scaled_bounds(f: Seq<char>)
    requires
        all_digits(f),
    ensures
        0 <= frac_scaled(f) <= 10000,
{
    lemma_pow10_small();
    let head = if f.len() <= 4 {
        f
    } else {
        f.take(4)
    };
    assert(all_digits(head)) by {
        assert(forall|i: int| 0 <= i < head.len() ==> head[i] == #[trigger] f[i]);
    }
    lemma_digits_val_bounds(head);
    lemma_pow10_pos((4 - head.len()) as nat);
    lemma_pow10_pos(head.len() as nat);
    assert(digits_val(head) * pow10((4 - head.len()) as nat) <= (pow10(head.len() as nat) - 1)
        * pow10((4 - head.len()) as nat)) by (nonlinear_arith)
        requires
            digits_val(head) <= pow10(head.len() as nat) - 1,
            pow10((4 - head.len()) as nat) >= 0,
    ;
    assert(digits_val(head) * pow10((4 - head.len()) as nat) >= 0) by (nonlinear_arith)
        requires
            digits_val(head) >= 0,
            pow10((4 - head.len()) as nat) >= 0,
    ;
    if head.len() == 0 {
        assert(pow10(0) * pow10(4) <= pow10(4));
    } else if head.len() == 1 {
        assert((pow10(1) - 1) * pow10(3) <= pow10(4) - pow10(3));
    } else if head.len() == 2 {
        assert((pow10(2) - 1) * pow10(2) <= pow10(4) - pow10(2));
    } else if head.len() == 3 {
        assert((pow10(3) - 1) * pow10(1) <= pow10(4) - pow10(1));
    } else {
        assert((pow10(4) - 1) * pow10(0) <= pow10(4) - 1);
    }
}

/// A cell's numeric reading is always within the representable range.
pub proof fn lemma_scaled_of_bounds(s: Seq<char>)
    ensures
        scaled_of(s) matches Some(n) ==> -SCALED_LIMIT <= n <= SCALED_LIMIT,
{
    let body = if s.len() > 0 && (s[0] == '-' || s[0] == '+') {
        s.drop_first()
    } else {
        s
    };
    let d = first_idx(body, '.');
    lemma_first_idx(body, '.');
    let ip = body.take(d);
    let fp = if d < body.len() {
        body.skip(d + 1)
    } else {
        Seq::<char>::empty()
    };
    if all_digits(ip) && all_digits(fp) && ip.len() + fp.len() > 0 {
        lemma_digits_val_bounds(ip);
        lemma_frac_scaled_bounds(fp);
        assert(digits_val(ip) * 10000 >= 0) by (nonlinear_arith)
            requires
                digits_val(ip) >= 0,
        ;
    }
}

// ---------------------------------------------------------------------------
// Fixed-point rendering
// ---------------------------------------------------------------------------

/// The last `k` decimal digits of `m`, zero-padded to length `k`.
pub open spec fn dec_pad(m: int, k: nat) -> Seq<char>
    decreases k,
{
    if k == 0 {
        Seq::<char>::empty()
    } else {
        dec_pad(m / 10, (k - 1) as nat).push(digit_char(m % 10))
    }
}

pub proof fn lemma_dec_pad_val(m: int, k: nat)
    requires
        0 <= m < pow10(k),
    ensures
        dec_pad(m, k).len() == k,
        all_digits(dec_pad(m, k)),
        digits_val(dec_pad(m, k)) == m,
    decreases k,
{
    if k > 0 {
        assert(m / 10 < pow10((k - 1) as nat)) by (nonlinear_arith)
            requires
                0 <= m < 10 * pow10((k - 1) as nat),
        ;
        lemma_dec_pad_val(m / 10, (k - 1) as nat);
        let pre = dec_pad(m / 10, (k - 1) as nat);
        let whole = pre.push(digit_char(m % 10));
        assert(whole.drop_last() =~= pre);
        assert(digits_val(whole) == (m / 10) * 10 + m % 10);
        assert((m / 10) * 10 + m % 10 == m) by {
            vstd::arithmetic::div_mod::lemma_fundamental_div_mod(m, 10);
        }
        assert(forall|i: int| 0 <= i < whole.len() ==> is_digit(whole[i])) by {
            assert(forall|i: int| 0 <= i < pre.len() ==> whole[i] == #[trigger] pre[i]);
        }
    }
}

/// Digits with the trailing zeros removed.
pub open spec fn strip_zeros(s: Seq<char>) -> Seq<char>
    decreases s.len(),
{
    if s.len() > 0 && s.last() == '0' {
        strip_zeros(s.drop_last())
    } else {
        s
    }
}

pub proof fn lemma_strip_zeros(s: Seq<char>)
    requires
        all_digits(s),
    ensures
        strip_zeros(s).len() <= s.len(),
        all_digits(strip_zeros(s)),
        digits_val(s) == digits_val(strip_zeros(s)) * pow10((s.len() - strip_zeros(s).len()) as nat),
        strip_zeros(s).len() > 0 ==> strip_zeros(s).last() != '0',
        forall|i: int| 0 <= i < strip_zeros(s).len() ==> strip_zeros(s)[i] == s[i],
    decreases s.len(),
{
    if s.len() > 0 && s.last() == '0' {
        assert(all_digits(s.drop_last())) by {
            assert(forall|i: int| 0 <= i < s.len() - 1 ==> s.drop_last()[i] == #[trigger] s[i]);
        }
        lemma_strip_zeros(s.drop_last());
        let t = strip_zeros(s);
        let d = (s.len() - 1 - t.len()) as nat;
        assert(digits_val(s) == digits_val(s.drop_last()) * 10);
        assert(digits_val(s.drop_last()) == digits_val(t) * pow10(d));
        assert(pow10((d + 1) as nat) == 10 * pow10(d));
        assert(digits_val(t) * pow10(d) * 10 == digits_val(t) * (10 * pow10(d))) by (nonlinear_arith);
        assert forall|i: int| 0 <= i < t.len() implies t[i] == s[i] by {
            assert(t[i] == s.drop_last()[i]);
        }
    }
}

/// The canonical text of a fixed-point value: sign, integer digits, then a
/// point and one to four fractional digits only where the fraction is
/// non-zero, never with a trailing zero.
pub open spec fn render_scaled(n: int) -> Seq<char> {
    let a = if n < 0 {
        -n
    } else {
        n
    };
    let sign: Seq<char> = if n < 0 {
        seq!['-']
    } else {
        Seq::<char>::empty()
    };
    let frac: Seq<char> = if a % 10000 == 0 {
        Seq::<char>::empty()
    } else {
        seq!['.'] + strip_zeros(dec_pad(a % 10000, 4))
    };
    sign + dec_rep(a / 10000) + frac
}

/// Appends the decimal digits of `m`.
pub fn push_dec(m: u64, out: &mut Vec<char>)
    ensures
        final(out)@ == old(out)@ + dec_rep(m as int),
    decreases m,
{
    if m < 10 {
        out.push(char_of_digit(m as i64));
        assert(final(out)@ =~= old(out)@ + dec_rep(m as int));
    } else {
        push_dec(m / 10, out);
        out.push(char_of_digit((m % 10) as i64));
        assert(final(out)@ =~= old(out)@ + dec_rep(m as int));
    }
}

/// Appends the last `k` decimal digits of `m`, zero-padded.
pub fn push_pad(m: i64, k: usize, out: &mut Vec<char>)
    requires
        m >= 0,
        k <= 4,
    ensures
        final(out)@ == old(out)@ + dec_pad(m as int, k as nat),
    decreases k,
{
    if k > 0 {
        push_pad(m / 10, k - 1, out);
        out.push(char_of_digit(m % 10));
        assert(final(out)@ =~= old(out)@ + dec_pad(m as int, k as nat));
    } else {
        assert(final(out)@ =~= old(out)@ + dec_pad(m as int, 0));
    }
}

/// The canonical text of a fixed-point value, as characters.
pub fn render_scaled_chars(n: i64) -> (r: Vec<char>)
    requires
        -SCALED_LIMIT <= n <= SCALED_LIMIT,
    ensures
        r@ == render_scaled(n as int),
{
    let neg = n < 0;
    let a: i64 = if neg {
        -n
    } else {
        n
    };
    let mut out: Vec<char> = Vec::new();
    if neg {
        out.push('-');
    }
    let ghost sign_part = out@;
    push_dec((a / 10000) as u64, &mut out);
    let fr = a % 10000;
    if fr > 0 {
        out.push('.');
        let mut digs: Vec<char> = Vec::new();
        push_pad(fr, 4, &mut digs);
        proof {
            lemma_pow10_small();
            lemma_dec_pad_val(fr as int, 4);
        }
        while digs.len() > 0 && digs[digs.len() - 1] == '0'
            invariant
                strip_zeros(digs@) == strip_zeros(dec_pad(fr as int, 4)),
            decreases digs.len(),
        {
            let ghost before = digs@;
            digs.pop();
            assert(digs@ =~= before.drop_last());
        }
        let mut i: usize = 0;
        let ghost mid = out@;
        while i < digs.len()
            invariant
                i <= digs@.len(),
                out@ == mid + digs@.take(i as int),
            decreases digs@.len() - i,
        {
            out.push(digs[i]);
            assert(out@ =~= mid + digs@.take(i as int + 1)) by {
                assert(digs@.take(i as int + 1) =~= digs@.take(i as int).push(digs@[i as int]));
            }
            i = i + 1;
        }
        assert(digs@.take(digs@.len() as int) =~= digs@);
        assert(digs@ == strip_zeros(digs@));
        assert(out@ =~= render_scaled(n as int));
    } else {
        assert(out@ =~= render_scaled(n as int));
    }
    out
}

/// The canonical text of a fixed-point value.
pub fn render_scaled_string(n: i64) -> (r: String)
    requires
        -SCALED_LIMIT <= n <= SCALED_LIMIT,
    ensures
        r@ == render_scaled(n as int),
{
    let v = render_scaled_chars(n);
    crate::strutil::string_from_chars(&v)
}

/// Rendering a representable value and reading it back returns the value:
/// the fixed-point text form is lossless.
pub proof fn lemma_scaled_round_trip(n: int)
    requires
        -SCALED_LIMIT <= n <= SCALED_LIMIT,
    ensures
        scaled_of(render_scaled(n)) == Some(n),
{
    let a = if n < 0 {
        -n
    } else {
        n
    };
    let ip = a / 10000;
    let fr = a % 10000;
    vstd::arithmetic::div_mod::lemma_fundamental_div_mod(a, 10000);
    assert(0 <= fr < 10000);
    lemma_dec_rep_digits(ip);
    let ipd = dec_rep(ip);
    let s = render_scaled(n);

    let tail: Seq<char> = if fr == 0 {
        Seq::<char>::empty()
    } else {
        strip_zeros(dec_pad(fr, 4))
    };
    if fr != 0 {
        lemma_pow10_small();
        lemma_dec_pad_val(fr, 4);
        lemma_strip_zeros(dec_pad(fr, 4));
    }
    let body: Seq<char> = if fr == 0 {
        ipd
    } else {
        ipd + seq!['.'] + tail
    };
    assert(s =~= (if n < 0 { seq!['-'] } else { Seq::<char>::empty() }) + body);

    // the sign is recognized and stripped
    assert(is_digit(ipd[0]));
    assert(body[0] == ipd[0]);
    assert(body[0] != '-' && body[0] != '+');
    if n < 0 {
        assert(s[0] == '-');
        assert(s.drop_first() =~= body);
    } else {
        assert(s[0] == body[0]);
    }
    let sbody = if s.len() > 0 && (s[0] == '-' || s[0] == '+') {
        s.drop_first()
    } else {
        s
    };
    assert(sbody == body);

    // the decimal point is found right after the integer digits
    lemma_first_idx(body, '.');
    let fi = first_idx(body, '.');
    assert(forall|k: int| 0 <= k < ipd.len() ==> is_digit(#[trigger] body[k]) && body[k] != '.') by {
        assert(forall|k: int| 0 <= k < ipd.len() ==> body[k] == #[trigger] ipd[k]);
    }
    if fr == 0 {
        assert(fi == body.len()) by {
            if fi < body.len() {
                assert(body[fi] == '.');
            }
        }
        assert(body.take(fi) =~= ipd);
        assert(first_idx(body, '.') >= body.len());
        let mag = digits_val(ipd) * 10000 + frac_scaled(Seq::<char>::empty());
        assert(frac_scaled(Seq::<char>::empty()) == digits_val(Seq::<char>::empty()) * pow10(4));
        assert(mag == ip * 10000);
        assert(mag == a);
        assert(mag <= SCALED_LIMIT);
        assert(scaled_of(s) == Some(if n < 0 { -mag } else { mag }));
    } else {
        assert(body[ipd.len() as int] == '.');
        assert(fi == ipd.len()) by {
            if fi < ipd.len() {
                assert(body[fi] == '.');
                assert(is_digit(body[fi]));
            }
            if fi > ipd.len() {
                assert(body[ipd.len() as int] != '.');
            }
        }
        assert(body.take(fi) =~= ipd);
        assert(fi < body.len());
        assert(body.skip(fi + 1) =~= tail);
        assert(all_digits(tail));
        assert(tail.len() <= 4);
        let head = if tail.len() <= 4 {
            tail
        } else {
            tail.take(4)
        };
        assert(head == tail);
        assert(frac_scaled(tail) == digits_val(tail) * pow10((4 - tail.len()) as nat));
        assert(digits_val(dec_pad(fr, 4)) == digits_val(tail) * pow10((4 - tail.len()) as nat));
        assert(frac_scaled(tail) == fr);
        let mag = digits_val(ipd) * 10000 + frac_scaled(tail);
        assert(mag == a);
        assert(mag <= SCALED_LIMIT);
        assert(scaled_of(s) == Some(if n < 0 { -mag } else { mag }));
    }
}

// ---------------------------------------------------------------------------
// Rounded division, sums, square roots
// ---------------------------------------------------------------------------

/// Division rounded half away from zero.
pub open spec fn div_round(s: int, c: int) -> int
    recommends
        c > 0,
{
    if s >= 0 {
        (2 * s + c) / (2 * c)
    } else {
        -((2 * (-s) + c) / (2 * c))
    }
}

/// The sum of a sequence of integers.
pub open spec fn seq_sum(s: Seq<int>) -> int
    decreases s.len(),
{
    if s.len() == 0 {
        0
    } else {
        seq_sum(s.drop_last()) + s.last()
    }
}

pub fn div_round_i128(s: i128, c: i128) -> (r: i128)
    requires
        0 < c <= 100000000000000000000,
        -100000000000000000000000000000000000 <= s <= 100000000000000000000000000000000000,
    ensures
        r == div_round(s as int, c as int),
{
    if s >= 0 {
        (2 * s + c) / (2 * c)
    } else {
        -((2 * (-s) + c) / (2 * c))
    }
}

/// A rounded quotient of a non-negative value is non-negative.
pub proof fn lemma_div_round_nonneg(s: int, c: int)
    requires
        s >= 0,
        c > 0,
    ensures
        div_round(s, c) >= 0,
{
    vstd::arithmetic::div_mod::lemma_div_pos_is_pos(2 * s + c, 2 * c);
}

/// A rounded quotient keeps any bound that the mean obeys.
pub proof fn lemma_div_round_bound(s: int, c: int, m: int)
    requires
        c > 0,
        m >= 0,
        s <= c * m,
        -s <= c * m,
    ensures
        -m <= div_round(s, c) <= m,
{
    if s >= 0 {
        assert(2 * s + c <= 2 * c * m + c) by (nonlinear_arith)
            requires
                s <= c * m,
        ;
        assert((2 * s + c) / (2 * c) <= m) by (nonlinear_arith)
            requires
                c > 0,
                m >= 0,
                2 * s + c <= 2 * c * m + c,
        ;
        assert((2 * s + c) / (2 * c) >= 0) by (nonlinear_arith)
            requires
                c > 0,
                s >= 0,
        ;
    } else {
        assert(2 * (-s) + c <= 2 * c * m + c) by (nonlinear_arith)
            requires
                -s <= c * m,
        ;
        assert((2 * (-s) + c) / (2 * c) <= m) by (nonlinear_arith)
            requires
                c > 0,
                m >= 0,
                2 * (-s) + c <= 2 * c * m + c,
        ;
        assert((2 * (-s) + c) / (2 * c) >= 0) by (nonlinear_arith)
            requires
                c > 0,
                -s >= 0,
        ;
    }
}

/// The integer square root: the greatest `r` with `r * r <= v`.
pub fn isqrt_i128(v: i128) -> (r: i128)
    requires
        0 <= v <= 10000000000000000000000000000000,
    ensures
        r >= 0,
        r * r <= v,
        (r + 1) * (r + 1) > v,
{
    let mut lo: i128 = 0;
    let mut hi: i128 = 3200000000000000;
    assert((hi + 1) * (hi + 1) > v) by (nonlinear_arith)
        requires
            v <= 10000000000000000000000000000000,
            hi == 3200000000000000,
    ;
    while lo < hi
        invariant
            0 <= lo <= hi <= 3200000000000000,
            lo * lo <= v,
            (hi + 1) * (hi + 1) > v,
        decreases hi - lo,
    {
        let mid = lo + (hi - lo + 1) / 2;
        assert(lo < mid <= hi);
        assert(mid * mid <= 10240000000000000006400000000000000) by (nonlinear_arith)
            requires
                0 <= mid <= 3200000000000001,
        ;
        if mid * mid <= v {
            lo = mid;
        } else {
            hi = mid - 1;
        }
    }
    lo
}


} // verus!
