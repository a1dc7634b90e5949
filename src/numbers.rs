//! Decimal integers as text: what Rust's integer parsing reads, and the
//! decimal form in which this library writes integers.
use vstd::prelude::*;

verus! {

pub open spec fn is_digits(s: Seq<char>) -> bool {
    s.len() > 0 && forall|i: int| 0 <= i < s.len() ==> '0' <= #[trigger] s[i] <= '9'
}

pub open spec fn digits_value(s: Seq<char>) -> int
    decreases s.len(),
{
    if s.len() == 0 {
        0
    } else {
        10 * digits_value(s.drop_last()) + (s.last() as int - '0' as int)
    }
}

/// A decimal integer with an optional sign, as Rust's integer parsing reads it.
pub open spec fn decimal_value(s: Seq<char>) -> Option<int> {
    if s.len() > 0 && s[0] == '-' && is_digits(s.skip(1)) {
        Some(-digits_value(s.skip(1)))
    } else if s.len() > 0 && s[0] == '+' && is_digits(s.skip(1)) {
        Some(digits_value(s.skip(1)))
    } else if is_digits(s) {
        Some(digits_value(s))
    } else {
        None
    }
}

pub open spec fn parsed_i32(s: Seq<char>) -> Option<i32> {
    match decimal_value(s) {
        Some(v) => if i32::MIN <= v <= i32::MAX {
            Some(v as i32)
        } else {
            None
        },
        None => None,
    }
}

proof fn lemma_digits_value_grows(t: Seq<char>, k: int)
    requires
        is_digits(t),
        0 <= k <= t.len(),
    ensures
        digits_value(t) >= digits_value(t.subrange(0, k)) >= 0,
    decreases t.len(),
{
    if t.len() == 0 {
    } else {
        let init = t.drop_last();
        if init.len() > 0 {
            assert forall|i: int| 0 <= i < init.len() implies '0' <= #[trigger] init[i] <= '9' by {
                assert(init[i] == t[i]);
            }
        }
        if k == t.len() {
            assert(t.subrange(0, k) =~= t);
            if init.len() > 0 {
                lemma_digits_value_grows(init, init.len() as int);
            }
            assert(t.last() == t[t.len() - 1]);
        } else {
            assert(t.subrange(0, k) =~= init.subrange(0, k));
            if init.len() > 0 {
                lemma_digits_value_grows(init, k);
            } else {
                assert(init.subrange(0, k) =~= Seq::<char>::empty());
            }
            assert(t.last() == t[t.len() - 1]);
            assert(digits_value(t) == 10 * digits_value(init) + (t.last() as int - '0' as int));
        }
    }
}

/// Reads an `i32` as Rust's integer parsing does: an optional sign and at
/// least one decimal digit, nothing else, and a value that fits.
pub(crate) fn parse_i32(s: &str) -> (r: Option<i32>)
    ensures
        r == parsed_i32(s@),
{
    let n = s.unicode_len();
    if n == 0 {
        return None;
    }
    let first = s.get_char(0);
    let negative = first == '-';
    let start: usize = if first == '-' || first == '+' {
        1
    } else {
        0
    };
    if start == n {
        assert(!is_digits(s@.skip(1)));
        return None;
    }
    let ghost body = s@.subrange(start as int, n as int);
    let mut acc: i64 = 0;
    let mut i: usize = start;
    while i < n
        invariant
            start <= i <= n,
            n == s@.len(),
            start < n,
            start == 0 || start == 1,
            start == 1 <==> (s@[0] == '-' || s@[0] == '+'),
            negative == (s@[0] == '-'),
            body == s@.subrange(start as int, n as int),
            forall|j: int| start <= j < i ==> '0' <= #[trigger] s@[j] <= '9',
            acc == digits_value(s@.subrange(start as int, i as int)),
            0 <= acc <= 0x8000_0000,
        decreases n - i,
    {
        let c = s.get_char(i);
        assert(s@.subrange(start as int, i + 1).drop_last() =~= s@.subrange(start as int, i as int));
        if c < '0' || c > '9' {
            assert(body[i - start] == c);
            assert(!is_digits(body));
            assert(!is_digits(s@)) by {
                assert(s@[i as int] == c);
            }
            assert(start == 1 ==> s@.skip(1) =~= body);
            return None;
        }
        let d = (c as u32 - '0' as u32) as i64;
        acc = acc * 10 + d;
        i = i + 1;
        if acc > 0x8000_0000 {
            assert forall|j: int| 0 <= j < i - start implies '0' <= #[trigger] body.subrange(0, i - start)[j] <= '9' by {
                assert(body.subrange(0, i - start)[j] == s@[start + j]);
            }
            assert(body.subrange(0, i - start) =~= s@.subrange(start as int, i as int));
            proof {
                if is_digits(body) {
                    lemma_digits_value_grows(body, (i - start) as int);
                }
            }
            assert(start == 1 ==> s@.skip(1) =~= body);
            assert(start == 0 ==> s@ =~= body);
            return None;
        }
    }
    assert(s@.subrange(start as int, n as int) =~= body);
    assert(is_digits(body));
    assert(start == 1 ==> s@.skip(1) =~= body);
    assert(start == 0 ==> s@ =~= body);
    if negative {
        Some((0 - acc) as i32)
    } else if acc <= 0x7fff_ffff {
        Some(acc as i32)
    } else {
        None
    }
}

pub open spec fn digit_char(d: nat) -> char {
    seq!['0', '1', '2', '3', '4', '5', '6', '7', '8', '9'][d as int]
}

proof fn lemma_digit_char(d: nat)
    requires
        d < 10,
    ensures
        '0' <= digit_char(d) <= '9',
        digit_char(d) as int - '0' as int == d,
{
    let s = seq!['0', '1', '2', '3', '4', '5', '6', '7', '8', '9'];
    assert(s[0] == '0' && s[1] == '1' && s[2] == '2' && s[3] == '3' && s[4] == '4');
    assert(s[5] == '5' && s[6] == '6' && s[7] == '7' && s[8] == '8' && s[9] == '9');
}

pub open spec fn digits_text(n: nat) -> Seq<char>
    decreases n,
{
    if n < 10 {
        seq![digit_char(n)]
    } else {
        digits_text(n / 10).push(digit_char(n % 10))
    }
}

/// The decimal text of an integer, with a minus sign where it is negative.
pub open spec fn decimal_text(n: int) -> Seq<char> {
    if n < 0 {
        seq!['-'] + digits_text((-n) as nat)
    } else {
        digits_text(n as nat)
    }
}

/// The decimal text of an `i32`.
pub(crate) fn i32_text(n: i32) -> (r: String)
    ensures
        r@ == decimal_text(n as int),
{
    i64_text(n as i64)
}

proof fn lemma_digits_text(n: nat)
    ensures
        is_digits(digits_text(n)),
        digits_value(digits_text(n)) == n,
        digits_text(n)[0] != '-' && digits_text(n)[0] != '+',
    decreases n,
{
    if n < 10 {
        lemma_digit_char(n);
        let t = digits_text(n);
        assert(t.drop_last() =~= Seq::<char>::empty());
        assert(t.last() == digit_char(n));
        assert(digits_value(t) == 10 * digits_value(t.drop_last()) + (digit_char(n) as int - '0' as int));
    } else {
        lemma_digit_char(n % 10);
        lemma_digits_text(n / 10);
        let t = digits_text(n);
        let prev = digits_text(n / 10);
        assert(t.drop_last() =~= prev);
        assert(t.last() == digit_char(n % 10));
        assert(digits_value(t) == 10 * digits_value(prev) + (digit_char(n % 10) as int - '0' as int));
        assert(10 * (n / 10) + n % 10 == n) by (nonlinear_arith);
        assert(t[0] == prev[0]);
        assert forall|i: int| 0 <= i < t.len() implies '0' <= #[trigger] t[i] <= '9' by {
            if i < prev.len() {
                assert(t[i] == prev[i]);
            }
        }
    }
}

/// Reading back the decimal text of an `i32` gives the same number.
pub proof fn lemma_decimal_round_trip(n: i32)
    ensures
        parsed_i32(decimal_text(n as int)) == Some(n),
{
    if n < 0 {
        let m = (-n) as nat;
        lemma_digits_text(m);
        let t = decimal_text(n as int);
        assert(t.skip(1) =~= digits_text(m));
    } else {
        lemma_digits_text(n as nat);
    }
}

fn digit_str(d: u64) -> (r: &'static str)
    requires
        d < 10,
    ensures
        r@ == seq![digit_char(d as nat)],
{
    proof {
        reveal_strlit("0");
        reveal_strlit("1");
        reveal_strlit("2");
        reveal_strlit("3");
        reveal_strlit("4");
        reveal_strlit("5");
        reveal_strlit("6");
        reveal_strlit("7");
        reveal_strlit("8");
        reveal_strlit("9");
    }
    let r = match d {
        0 => "0",
        1 => "1",
        2 => "2",
        3 => "3",
        4 => "4",
        5 => "5",
        6 => "6",
        7 => "7",
        8 => "8",
        _ => "9",
    };
    assert(r@ =~= seq![digit_char(d as nat)]);
    r
}

/// Appends the decimal digits of `n`.
fn write_digits(n: u64, out: &mut String)
    ensures
        final(out)@ == old(out)@ + digits_text(n as nat),
    decreases n,
{
    if n < 10 {
        out.append(digit_str(n));
        assert(digits_text(n as nat) == seq![digit_char(n as nat)]);
    } else {
        let ghost before = out@;
        write_digits(n / 10, out);
        out.append(digit_str(n % 10));
        assert(digits_text(n as nat) == digits_text((n / 10) as nat).push(digit_char((n % 10) as nat)));
        assert(out@ =~= before + digits_text(n as nat));
    }
}

/// The decimal text of an `i64`, with a minus sign where it is negative.
pub(crate) fn i64_text(n: i64) -> (r: String)
    ensures
        r@ == decimal_text(n as int),
{
    let mut out = String::new();
    if n < 0 {
        let minus = "-";
        proof {
            reveal_strlit("-");
        }
        out.append(minus);
        let magnitude: u64 = (0i128 - n as i128) as u64;
        write_digits(magnitude, &mut out);
        assert(out@ =~= seq!['-'] + digits_text((-n) as nat));
    } else {
        write_digits(n as u64, &mut out);
        assert(out@ =~= digits_text(n as nat));
    }
    out
}

} // verus!
