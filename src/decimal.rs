use vstd::prelude::*;
use vstd::string::*;

verus! {

/// The character of a decimal digit.
pub open spec fn digit_char(d: nat) -> char {
    if d == 0 { '0' }
    else if d == 1 { '1' }
    else if d == 2 { '2' }
    else if d == 3 { '3' }
    else if d == 4 { '4' }
    else if d == 5 { '5' }
    else if d == 6 { '6' }
    else if d == 7 { '7' }
    else if d == 8 { '8' }
    else { '9' }
}

/// The decimal digits of `n`, most significant first, without leading zeros.
pub open spec fn dec(n: nat) -> Seq<char>
    decreases n,
{
    if n < 10 {
        seq![digit_char(n)]
    } else {
        dec(n / 10) + seq![digit_char(n % 10)]
    }
}

/// `k` zero characters.
pub open spec fn zeros(k: nat) -> Seq<char>
    decreases k,
{
    if k == 0 {
        Seq::empty()
    } else {
        zeros((k - 1) as nat) + seq!['0']
    }
}

/// `s` padded on the left with zeros to at least `width` characters.
pub open spec fn zero_pad(s: Seq<char>, width: nat) -> Seq<char> {
    if s.len() >= width {
        s
    } else {
        zeros((width - s.len()) as nat) + s
    }
}

/// An integer written in decimal with at least `width` characters, zero-padded
/// after the sign, as Rust's `{:0width$}` writes it.
pub open spec fn padded(n: int, width: nat) -> Seq<char> {
    if n < 0 {
        seq!['-'] + zero_pad(dec((-n) as nat), if width == 0 { 0 } else { (width - 1) as nat })
    } else {
        zero_pad(dec(n as nat), width)
    }
}

fn digit_str(d: u64) -> (r: &'static str)
    requires
        d < 10,
    ensures
        r@ == seq![digit_char(d as nat)],
{
    proof {
        reveal_strlit("0");
        reveal_strlit("1");
        reveal_strlit("2");
        reveal_strlit("3");
        reveal_strlit("4");
        reveal_strlit("5");
        reveal_strlit("6");
        reveal_strlit("7");
        reveal_strlit("8");
        reveal_strlit("9");
    }
    if d == 0 { "0" }
    else if d == 1 { "1" }
    else if d == 2 { "2" }
    else if d == 3 { "3" }
    else if d == 4 { "4" }
    else if d == 5 { "5" }
    else if d == 6 { "6" }
    else if d == 7 { "7" }
    else if d == 8 { "8" }
    else {
        assert(d == 9);
        "9"
    }
}

/// Ten to the power `k`.
pub open spec fn pow10(k: nat) -> nat
    decreases k,
{
    if k == 0 { 1 } else { 10 * pow10((k - 1) as nat) }
}

/// A number below ten to the power `k` has at most `k` digits.
proof fn lemma_dec_len_le(n: nat, k: nat)
    requires
        k >= 1,
        n < pow10(k),
    ensures
        dec(n).len() <= k,
    decreases k,
{
    if n >= 10 {
        if k == 1 {
            assert(pow10(1) == 10) by {
                reveal_with_fuel(pow10, 2);
            }
        } else {
            let p = pow10((k - 1) as nat);
            assert(n / 10 < p) by (nonlinear_arith)
                requires
                    n < 10 * p,
            ;
            lemma_dec_len_le(n / 10, (k - 1) as nat);
        }
    }
}

/// Number of decimal digits of `n`.
pub fn decimal_len(n: u64) -> (r: usize)
    ensures
        r == dec(n as nat).len(),
        1 <= r <= 20,
    decreases n,
{
    proof {
        assert(pow10(20) == 100_000_000_000_000_000_000nat) by {
            reveal_with_fuel(pow10, 21);
        }
        lemma_dec_len_le(n as nat, 20);
    }
    if n < 10 {
        1
    } else {
        let k = decimal_len(n / 10);
        assert(dec(n as nat) == dec((n / 10) as nat) + seq![digit_char((n % 10) as nat)]);
        k + 1
    }
}

/// Appends the decimal digits of `n` to `out`.
pub fn append_decimal(out: &mut String, n: u64)
    ensures
        final(out)@ == old(out)@ + dec(n as nat),
    decreases n,
{
    if n >= 10 {
        append_decimal(out, n / 10);
    }
    out.append(digit_str(n % 10));
    assert(old(out)@ + dec(n as nat) =~= final(out)@) by {
        if n >= 10 {
            assert(dec(n as nat) == dec((n / 10) as nat) + seq![digit_char((n % 10) as nat)]);
        }
    }
}

/// Appends `n` in decimal, zero-padded on the left to `width` characters.
pub fn append_zero_padded(out: &mut String, n: u64, width: usize)
    ensures
        final(out)@ == old(out)@ + zero_pad(dec(n as nat), width as nat),
{
    let len = decimal_len(n);
    if len < width {
        let mut i: usize = 0;
        while i < width - len
            invariant
                len < width,
                i <= width - len,
                out@ == old(out)@ + zeros(i as nat),
            decreases width - len - i,
        {
            proof {
                reveal_strlit("0");
            }
            out.append("0");
            assert(zeros((i + 1) as nat) == zeros(i as nat) + seq!['0']);
            assert(out@ =~= old(out)@ + zeros((i + 1) as nat));
            i = i + 1;
        }
    }
    append_decimal(out, n);
    assert(final(out)@ =~= old(out)@ + zero_pad(dec(n as nat), width as nat));
}

/// Appends `n` in decimal with at least `width` characters, zero-padded after
/// the sign.
pub fn append_padded(out: &mut String, n: i64, width: usize)
    requires
        n > i64::MIN,
    ensures
        final(out)@ == old(out)@ + padded(n as int, width as nat),
{
    if n < 0 {
        proof {
            reveal_strlit("-");
        }
        out.append("-");
        let w: usize = if width == 0 { 0 } else { width - 1 };
        append_zero_padded(out, (-n) as u64, w);
        assert(final(out)@ =~= old(out)@ + padded(n as int, width as nat));
    } else {
        append_zero_padded(out, n as u64, width);
    }
}

} // verus!
