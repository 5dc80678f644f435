use vstd::prelude::*;

verus! {

// ---------------------------------------------------------------------------
// Decimal text: what a run of digits means, and how integers are written.
// ---------------------------------------------------------------------------

pub open spec fn is_digit(c: char) -> bool {
    '0' <= c && c <= '9'
}

pub open spec fn digit_val(c: char) -> int {
    c as int - '0' as int
}

pub open spec fn all_digits(s: Seq<char>) -> bool {
    forall|i: int| 0 <= i < s.len() ==> is_digit(#[trigger] s[i])
}

/// The number that a run of decimal digits denotes (most significant first).
pub open spec fn digits_value(s: Seq<char>) -> int
    decreases s.len(),
{
    if s.len() == 0 {
        0
    } else {
        digits_value(s.drop_last()) * 10 + digit_val(s.last())
    }
}

pub open spec fn min_int(a: int, b: int) -> int {
    if a <= b {
        a
    } else {
        b
    }
}

/// An integer literal: an optional `+` or `-`, then at least one digit.
pub open spec fn int_literal_value(s: Seq<char>) -> Option<int> {
    if s.len() >= 2 && s[0] == '-' && all_digits(s.skip(1)) {
        Some(-digits_value(s.skip(1)))
    } else if s.len() >= 2 && s[0] == '+' && all_digits(s.skip(1)) {
        Some(digits_value(s.skip(1)))
    } else if s.len() >= 1 && all_digits(s) {
        Some(digits_value(s))
    } else {
        None
    }
}

/// An integer literal whose value fits an `i32`.
pub open spec fn i32_literal(s: Seq<char>) -> Option<i32> {
    match int_literal_value(s) {
        Some(v) => if i32::MIN <= v <= i32::MAX {
            Some(v as i32)
        } else {
            None
        },
        None => None,
    }
}

pub open spec fn digit_char(d: int) -> char {
    ('0' as int + d) as char
}

/// The decimal digits of a natural number, without leading zeros.
pub open spec fn nat_digits(n: nat) -> Seq<char>
    decreases n,
{
    if n < 10 {
        seq![digit_char(n as int)]
    } else {
        nat_digits(n / 10) + seq![digit_char((n % 10) as int)]
    }
}

/// The decimal text of an integer, with a leading `-` when it is negative.
pub open spec fn int_text(n: int) -> Seq<char> {
    if n < 0 {
        seq!['-'] + nat_digits((-n) as nat)
    } else {
        nat_digits(n as nat)
    }
}

proof fn lemma_digits_value_step(s: Seq<char>, i: int)
    requires
        0 <= i < s.len(),
    ensures
        digits_value(s.subrange(0, i + 1)) == digits_value(s.subrange(0, i)) * 10 + digit_val(
            s[i],
        ),
{
    assert(s.subrange(0, i + 1).drop_last() =~= s.subrange(0, i));
}

proof fn lemma_saturate_step(v: int, d: int, cap: int)
    requires
        v >= 0,
        0 <= d <= 9,
        cap > 0,
    ensures
        min_int(min_int(v, cap) * 10 + d, cap) == min_int(v * 10 + d, cap),
{
    if v >= cap {
        assert(v * 10 >= cap * 10) by (nonlinear_arith)
            requires
                v >= cap,
                cap > 0,
        ;
    }
}

proof fn lemma_digits_value_nonneg(s: Seq<char>)
    requires
        all_digits(s),
    ensures
        digits_value(s) >= 0,
    decreases s.len(),
{
    if s.len() > 0 {
        lemma_digits_value_nonneg(s.drop_last());
    }
}

/// The value of the digits `s[from..to]`, saturated at `cap`; `None` when a
/// character there is not a digit.
fn saturating_digits(s: &str, from: usize, to: usize, cap: i64) -> (r: Option<i64>)
    requires
        from <= to <= s@.len(),
        0 < cap < 0x0800_0000_0000_0000,
    ensures
        r is Some <==> all_digits(s@.subrange(from as int, to as int)),
        r is Some ==> r->0 == min_int(digits_value(s@.subrange(from as int, to as int)), cap as int),
{
    let ghost t = s@.subrange(from as int, to as int);
    let mut acc: i64 = 0;
    let mut i: usize = from;
    while i < to
        invariant
            from <= i <= to <= s@.len(),
            t == s@.subrange(from as int, to as int),
            0 < cap < 0x0800_0000_0000_0000,
            all_digits(t.subrange(0, i - from)),
            0 <= acc <= cap,
            acc == min_int(digits_value(t.subrange(0, i - from)), cap as int),
        decreases to - i,
    {
        let c = s.get_char(i);
        if c < '0' || c > '9' {
            assert(t[i - from] == c);
            return None;
        }
        let d = (c as u32 - '0' as u32) as i64;
        assert(0 <= d <= 9);
        proof {
            lemma_digits_value_step(t, i - from);
            assert(all_digits(t.subrange(0, i - from + 1)));
            lemma_digits_value_nonneg(t.subrange(0, i - from));
            lemma_saturate_step(digits_value(t.subrange(0, i - from)), d as int, cap as int);
        }
        assert(acc * 10 + d < 0x7000_0000_0000_0000) by (nonlinear_arith)
            requires
                0 <= acc <= cap,
                cap < 0x0800_0000_0000_0000,
                0 <= d <= 9,
        ;
        let next = acc * 10 + d;
        acc = if next <= cap {
            next
        } else {
            cap
        };
        i = i + 1;
    }
    assert(t.subrange(0, to - from) =~= t);
    Some(acc)
}

/// Reads an integer literal that fits an `i32`: an optional sign, then digits.
pub fn parse_i32(s: &str) -> (r: Option<i32>)
    ensures
        r == i32_literal(s@),
{
    let n = s.unicode_len();
    if n == 0 {
        return None;
    }
    let c0 = s.get_char(0);
    let start: usize = if c0 == '-' || c0 == '+' {
        1
    } else {
        0
    };
    if start == n {
        return None;
    }
    let neg = c0 == '-';
    let m = saturating_digits(s, start, n, 0x1_0000_0000);
    proof {
        if start == 1 {
            assert(s@.subrange(1, n as int) =~= s@.skip(1));
        } else {
            assert(s@.subrange(0, n as int) =~= s@);
        }
    }
    match m {
        None => None,
        Some(v) => {
            proof {
                lemma_digits_value_nonneg(s@.subrange(start as int, n as int));
            }
            if neg {
                if v <= 0x8000_0000 {
                    Some((-v) as i32)
                } else {
                    None
                }
            } else {
                if v <= 0x7fff_ffff {
                    Some(v as i32)
                } else {
                    None
                }
            }
        },
    }
}

fn digit_str(d: u64) -> (r: &'static str)
    requires
        d < 10,
    ensures
        r@ == seq![digit_char(d as int)],
{
    proof {
        reveal_strlit("0");
        reveal_strlit("1");
        reveal_strlit("2");
        reveal_strlit("3");
        reveal_strlit("4");
        reveal_strlit("5");
        reveal_strlit("6");
        reveal_strlit("7");
        reveal_strlit("8");
        reveal_strlit("9");
    }
    match d {
        0 => "0",
        1 => "1",
        2 => "2",
        3 => "3",
        4 => "4",
        5 => "5",
        6 => "6",
        7 => "7",
        8 => "8",
        _ => "9",
    }
}

fn append_digits(out: &mut String, n: u64)
    ensures
        final(out)@ == old(out)@ + nat_digits(n as nat),
    decreases n,
{
    if n >= 10 {
        append_digits(out, n / 10);
    }
    out.append(digit_str(n % 10));
    proof {
        if n >= 10 {
            assert(final(out)@ =~= old(out)@ + nat_digits(n as nat));
        } else {
            assert(final(out)@ =~= old(out)@ + nat_digits(n as nat));
        }
    }
}

/// Appends the decimal text of `n` to `out`.
pub fn append_int(out: &mut String, n: i64)
    ensures
        final(out)@ == old(out)@ + int_text(n as int),
{
    if n < 0 {
        out.append("-");
        let m: u64 = if n == i64::MIN {
            0x8000_0000_0000_0000
        } else {
            (-n) as u64
        };
        append_digits(out, m);
        proof {
            reveal_strlit("-");
            assert(final(out)@ =~= old(out)@ + int_text(n as int));
        }
    } else {
        append_digits(out, n as u64);
    }
}

/// The text of an amount of cents as units with two decimals: `2.50`,
/// `-0.05`.
pub open spec fn cents_text(c: int) -> Seq<char> {
    let a = if c < 0 {
        -c
    } else {
        c
    };
    (if c < 0 {
        seq!['-']
    } else {
        Seq::<char>::empty()
    }) + nat_digits((a / 100) as nat) + seq!['.', digit_char((a % 100) / 10), digit_char(a % 10)]
}

/// Appends an amount of cents as units with two decimals.
pub fn append_cents(out: &mut String, c: i64)
    ensures
        final(out)@ == old(out)@ + cents_text(c as int),
{
    let a: u64 = if c == i64::MIN {
        0x8000_0000_0000_0000
    } else if c < 0 {
        (-c) as u64
    } else {
        c as u64
    };
    let ghost start = out@;
    if c < 0 {
        out.append("-");
        proof {
            reveal_strlit("-");
        }
    }
    let ghost signed = out@;
    append_digits(out, a / 100);
    out.append(".");
    out.append(digit_str((a % 100) / 10));
    out.append(digit_str(a % 10));
    proof {
        reveal_strlit(".");
        assert(final(out)@ =~= old(out)@ + cents_text(c as int));
    }
}

// ---------------------------------------------------------------------------
// Prices: decimal text rounded half up to hundredths.
// ---------------------------------------------------------------------------

/// The `i`-th fraction digit, zero past the end.
pub open spec fn frac_digit(f: Seq<char>, i: int) -> int {
    if i < f.len() {
        digit_val(f[i])
    } else {
        0
    }
}

/// Fraction digits rounded half up to hundredths (the result may be 100).
pub open spec fn frac_hundredths(f: Seq<char>) -> int {
    frac_digit(f, 0) * 10 + frac_digit(f, 1) + if frac_digit(f, 2) >= 5 {
        1int
    } else {
        0int
    }
}

/// `b` is `digits.digits` with its point at `k`, both runs non-empty.
pub open spec fn is_point_at(b: Seq<char>, k: int) -> bool {
    1 <= k && k + 1 < b.len() && b[k] == '.' && all_digits(b.take(k)) && all_digits(b.skip(k + 1))
}

/// An unsigned decimal (`12` or `12.345`) in hundredths, rounded half up.
pub open spec fn unsigned_hundredths(b: Seq<char>) -> Option<int> {
    if b.len() >= 1 && all_digits(b) {
        Some(digits_value(b) * 100)
    } else if exists|k: int| is_point_at(b, k) {
        let k = choose|k: int| is_point_at(b, k);
        Some(digits_value(b.take(k)) * 100 + frac_hundredths(b.skip(k + 1)))
    } else {
        None
    }
}

/// A decimal with an optional leading `-`, in hundredths, rounded half away
/// from zero.
pub open spec fn decimal_hundredths(s: Seq<char>) -> Option<int> {
    if s.len() >= 1 && s[0] == '-' {
        match unsigned_hundredths(s.skip(1)) {
            Some(v) => Some(-v),
            None => None,
        }
    } else {
        unsigned_hundredths(s)
    }
}

/// A price written as decimal text, in cents, when it fits an `i64`.
pub open spec fn price_cents(s: Seq<char>) -> Option<i64> {
    match decimal_hundredths(s) {
        Some(v) => if i64::MIN <= v <= i64::MAX {
            Some(v as i64)
        } else {
            None
        },
        None => None,
    }
}

proof fn lemma_point_unique(b: Seq<char>, k: int, k2: int)
    requires
        0 <= k < b.len(),
        b[k] == '.',
        forall|j: int| 0 <= j < k ==> b[j] != '.',
        is_point_at(b, k2),
    ensures
        k2 == k,
{
    if k2 < k {
        assert(b[k2] == '.');
    } else if k2 > k {
        assert(b.take(k2)[k] == '.');
    }
}

const INT_PART_CAP: i64 = 100_000_000_000_000_000;

/// Reads a price such as `9.995` or `-3` and rounds it half up (away from
/// zero) to whole cents. No exponent form is read.
pub fn parse_price_cents(s: &str) -> (r: Option<i64>)
    ensures
        r == price_cents(s@),
{
    let n = s.unicode_len();
    if n == 0 {
        return None;
    }
    let neg = s.get_char(0) == '-';
    let start: usize = if neg {
        1
    } else {
        0
    };
    let ghost b = s@.skip(start as int);
    let mut k: usize = start;
    while k < n && s.get_char(k) != '.'
        invariant
            start <= k <= n,
            n == s@.len(),
            forall|j: int| start <= j < k ==> s@[j] != '.',
        decreases n - k,
    {
        k = k + 1;
    }
    proof {
        if start == 0 {
            assert(b =~= s@);
        }
        assert(b.len() == n - start);
        assert forall|j: int| 0 <= j < k - start implies b[j] != '.' by {
            assert(b[j] == s@[j + start]);
        }
    }
    if k == n {
        // No point: a whole number of units.
        if start == n {
            return None;
        }
        let m = saturating_digits(s, start, n, INT_PART_CAP);
        proof {
            assert(s@.subrange(start as int, n as int) =~= b);
            assert forall|k2: int| !is_point_at(b, k2) by {
                if is_point_at(b, k2) {
                    assert(b[k2] != '.');
                }
            }
        }
        match m {
            None => {
                return None;
            },
            Some(v) => {
                proof {
                    lemma_digits_value_nonneg(b);
                }
                if v >= INT_PART_CAP {
                    assert(digits_value(b) * 100 >= 100 * INT_PART_CAP) by (nonlinear_arith)
                        requires
                            digits_value(b) >= INT_PART_CAP,
                    ;
                    return None;
                }
                let c: i128 = v as i128 * 100;
                let signed: i128 = if neg {
                    -c
                } else {
                    c
                };
                if signed < i64::MIN as i128 || signed > i64::MAX as i128 {
                    return None;
                }
                return Some(signed as i64);
            },
        }
    }
    proof {
        assert(b[k - start] == '.');
        assert forall|k2: int| is_point_at(b, k2) implies k2 == k - start by {
            lemma_point_unique(b, k - start, k2);
        }
    }
    if k == start || k + 1 == n {
        return None;
    }
    let ip = saturating_digits(s, start, k, INT_PART_CAP);
    let fp = saturating_digits(s, k + 1, n, 1);
    proof {
        assert(s@.subrange(start as int, k as int) =~= b.take(k - start));
        assert(s@.subrange(k + 1, n as int) =~= b.skip(k - start + 1));
        if b.len() >= 1 && all_digits(b) {
            assert(b[k - start] != '.');
        }
    }
    match (ip, fp) {
        (Some(v), Some(_)) => {
            proof {
                assert(is_point_at(b, k - start));
                lemma_digits_value_nonneg(b.take(k - start));
            }
            if v >= INT_PART_CAP {
                assert(digits_value(b.take(k - start)) * 100 >= 100 * INT_PART_CAP)
                    by (nonlinear_arith)
                    requires
                        digits_value(b.take(k - start)) >= INT_PART_CAP,
                ;
                assert(frac_hundredths(b.skip(k - start + 1)) >= 0);
                return None;
            }
            let ghost f = b.skip(k - start + 1);
            let c0 = s.get_char(k + 1);
            let c1 = if k + 2 < n {
                s.get_char(k + 2)
            } else {
                '0'
            };
            let c2 = if k + 2 < n && k + 3 < n {
                s.get_char(k + 3)
            } else {
                '0'
            };
            proof {
                assert(f[0] == c0);
                if k + 2 < n {
                    assert(f[1] == c1);
                }
                if k + 2 < n && k + 3 < n {
                    assert(f[2] == c2);
                }
            }
            let d0 = (c0 as u32 - '0' as u32) as i64;
            let d1 = (c1 as u32 - '0' as u32) as i64;
            let d2 = (c2 as u32 - '0' as u32) as i64;
            assert(d0 == frac_digit(f, 0) && d1 == frac_digit(f, 1) && d2 == frac_digit(f, 2));
            let up: i64 = if d2 >= 5 {
                1
            } else {
                0
            };
            let c: i128 = v as i128 * 100 + d0 as i128 * 10 + d1 as i128 + up as i128;
            let signed: i128 = if neg {
                -c
            } else {
                c
            };
            if signed < i64::MIN as i128 || signed > i64::MAX as i128 {
                return None;
            }
            Some(signed as i64)
        },
        _ => None,
    }
}

} // verus!
