//! Building the text of user-facing messages.
use vstd::prelude::*;

verus! {

/// The decimal digit character for `d` (0..=9).
pub open spec fn digit_char(d: int) -> char {
    if d == 0 { '0' } else if d == 1 { '1' } else if d == 2 { '2' } else if d == 3 { '3' }
    else if d == 4 { '4' } else if d == 5 { '5' } else if d == 6 { '6' } else if d == 7 { '7' }
    else if d == 8 { '8' } else { '9' }
}

/// The decimal digits of a non-negative `n`, most significant first, with
/// no leading zeros ("0" for zero).
pub open spec fn digits(n: nat) -> Seq<char>
    decreases n,
{
    if n < 10 {
        seq![digit_char(n as int)]
    } else {
        digits(n / 10) + seq![digit_char((n % 10) as int)]
    }
}

/// The decimal text of `n`, with a leading '-' when it is negative — what
/// `{}` writes for an integer.
pub open spec fn decimal(n: int) -> Seq<char> {
    if n < 0 {
        seq!['-'] + digits((-n) as nat)
    } else {
        digits(n as nat)
    }
}

fn digit_str(d: u64) -> (r: &'static str)
    requires
        d < 10,
    ensures
        r@ == seq![digit_char(d as int)],
{
    proof {
        reveal_strlit("0");
        reveal_strlit("1");
        reveal_strlit("2");
        reveal_strlit("3");
        reveal_strlit("4");
        reveal_strlit("5");
        reveal_strlit("6");
        reveal_strlit("7");
        reveal_strlit("8");
        reveal_strlit("9");
    }
    if d == 0 { "0" } else if d == 1 { "1" } else if d == 2 { "2" } else if d == 3 { "3" }
    else if d == 4 { "4" } else if d == 5 { "5" } else if d == 6 { "6" } else if d == 7 { "7" }
    else if d == 8 { "8" } else { "9" }
}

/// Appends the digits of `n`.
pub fn push_digits(s: &mut String, n: u64)
    ensures
        final(s)@ == old(s)@ + digits(n as nat),
    decreases n,
{
    if n >= 10 {
        push_digits(s, n / 10);
    }
    s.append(digit_str(n % 10));
}

/// Appends the decimal text of `n`.
pub fn push_decimal(s: &mut String, n: i64)
    ensures
        final(s)@ == old(s)@ + decimal(n as int),
{
    if n < 0 {
        proof {
            reveal_strlit("-");
        }
        s.append("-");
        let magnitude: u64 = if n == i64::MIN {
            9223372036854775808u64
        } else {
            (-n) as u64
        };
        push_digits(s, magnitude);
        proof {
            assert(seq!['-'] + digits((-n) as nat) =~= seq!['-'] + digits(magnitude as nat));
        }
    } else {
        push_digits(s, n as u64);
    }
}

/// `d` left-filled with zeros to `width` characters.
pub open spec fn zero_fill(d: Seq<char>, width: int) -> Seq<char> {
    if d.len() >= width {
        d
    } else {
        Seq::new((width - d.len()) as nat, |_i: int| '0') + d
    }
}

/// What `{:0width$}` writes for an integer: its digits zero-filled to
/// `width` characters, a minus sign counting towards the width.
pub open spec fn padded(n: int, width: int) -> Seq<char> {
    if n < 0 {
        seq!['-'] + zero_fill(digits((-n) as nat), width - 1)
    } else {
        zero_fill(digits(n as nat), width)
    }
}

/// Appends `n` zero-filled to `width` characters.
pub fn push_padded(s: &mut String, n: i64, width: usize)
    ensures
        final(s)@ == old(s)@ + padded(n as int, width as int),
{
    proof {
        reveal_strlit("-");
        reveal_strlit("0");
    }
    let ghost before = s@;
    let magnitude: u64 = if n >= 0 {
        n as u64
    } else if n == i64::MIN {
        9223372036854775808u64
    } else {
        (-n) as u64
    };
    let fill: usize = if n >= 0 {
        width
    } else if width > 0 {
        width - 1
    } else {
        0
    };
    if n < 0 {
        s.append("-");
    }
    let ghost head = s@;
    let mut d = String::new();
    push_digits(&mut d, magnitude);
    let len = d.as_str().unicode_len();
    let mut k = len;
    proof {
        assert(s@ =~= head + Seq::new((k - len) as nat, |_i: int| '0'));
    }
    while k < fill
        invariant
            len <= k,
            k <= fill || k == len,
            s@ == head + Seq::new((k - len) as nat, |_i: int| '0'),
        decreases fill - k,
    {
        s.append("0");
        proof {
            reveal_strlit("0");
            assert(head + Seq::new((k + 1 - len) as nat, |_i: int| '0') =~= head + Seq::new(
                (k - len) as nat,
                |_i: int| '0',
            ) + seq!['0']);
        }
        k = k + 1;
    }
    s.append(d.as_str());
    proof {
        let digits_seq = digits(magnitude as nat);
        assert(d@ =~= digits_seq);
        if n >= 0 {
            assert(head == before);
            assert(zero_fill(digits_seq, width as int) =~= Seq::new((k - len) as nat, |_i: int| '0')
                + digits_seq);
        } else {
            assert(head =~= before + seq!['-']);
            assert(digits((-n) as nat) == digits_seq);
            assert(zero_fill(digits_seq, width - 1) =~= Seq::new((k - len) as nat, |_i: int| '0')
                + digits_seq);
        }
        assert(s@ =~= before + padded(n as int, width as int));
    }
}

/// Appends `t`.
pub fn push_str(s: &mut String, t: &str)
    ensures
        final(s)@ == old(s)@ + t@,
{
    s.append(t);
}

/// The text of `t` as a new string.
pub fn text(t: &str) -> (r: String)
    ensures
        r@ == t@,
{
    String::from_str(t)
}

} // verus!
