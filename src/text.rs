use vstd::prelude::*;
use crate::world::SpawnedBody;

verus! {

/// The character of the decimal digit `d`.
pub open spec fn digit_char(d: int) -> char {
    if d == 0 {
        '0'
    } else if d == 1 {
        '1'
    } else if d == 2 {
        '2'
    } else if d == 3 {
        '3'
    } else if d == 4 {
        '4'
    } else if d == 5 {
        '5'
    } else if d == 6 {
        '6'
    } else if d == 7 {
        '7'
    } else if d == 8 {
        '8'
    } else {
        '9'
    }
}

/// The decimal digits of `n`, most significant first, without leading zeros.
pub open spec fn decimal_digits(n: nat) -> Seq<char>
    decreases n,
{
    if n < 10 {
        seq![digit_char(n as int)]
    } else {
        decimal_digits(n / 10).push(digit_char((n % 10) as int))
    }
}

/// The decimal text of `v`: a minus sign for a negative value, then the
/// digits of its magnitude.
pub open spec fn decimal(v: int) -> Seq<char> {
    if v < 0 {
        seq!['-'] + decimal_digits((-v) as nat)
    } else {
        decimal_digits(v as nat)
    }
}

/// The diagnostic line for a spawned body: `x -> <x> and y -> <y>`.
pub open spec fn spawn_line_text(x: int, y: int) -> Seq<char> {
    "x -> "@ + decimal(x) + " and y -> "@ + decimal(y)
}

fn digit_str(d: u32) -> (r: &'static str)
    requires
        d < 10,
    ensures
        r@ == seq![digit_char(d as int)],
{
    proof {
        reveal_strlit("0");
        reveal_strlit("1");
        reveal_strlit("2");
        reveal_strlit("3");
        reveal_strlit("4");
        reveal_strlit("5");
        reveal_strlit("6");
        reveal_strlit("7");
        reveal_strlit("8");
        reveal_strlit("9");
    }
    if d == 0 {
        "0"
    } else if d == 1 {
        "1"
    } else if d == 2 {
        "2"
    } else if d == 3 {
        "3"
    } else if d == 4 {
        "4"
    } else if d == 5 {
        "5"
    } else if d == 6 {
        "6"
    } else if d == 7 {
        "7"
    } else if d == 8 {
        "8"
    } else {
        "9"
    }
}

fn push_digits(s: &mut String, n: u32)
    ensures
        final(s)@ == old(s)@ + decimal_digits(n as nat),
    decreases n,
{
    if n >= 10 {
        push_digits(s, n / 10);
    }
    s.append(digit_str(n % 10));
    proof {
        if n >= 10 {
            assert(decimal_digits(n as nat) == decimal_digits((n / 10) as nat).push(
                digit_char((n % 10) as int),
            ));
        }
    }
    assert(s@ =~= old(s)@ + decimal_digits(n as nat));
}

/// The decimal text of `v`, as Rust prints an integer with `{}`.
pub fn decimal_text(v: i32) -> (s: String)
    ensures
        s@ == decimal(v as int),
{
    let mut s = String::new();
    if v < 0 {
        proof {
            reveal_strlit("-");
        }
        s.append("-");
        let magnitude: i64 = -(v as i64);
        push_digits(&mut s, magnitude as u32);
    } else {
        push_digits(&mut s, v as u32);
    }
    assert(s@ =~= decimal(v as int));
    s
}

/// The line printed for `b` when it is spawned: `x -> <x> and y -> <y>`.
/// The coordinates are whole numbers, so the text is the same whether they
/// are printed as integers or as the floating-point values the host uses.
pub fn spawn_line(b: &SpawnedBody) -> (s: String)
    ensures
        s@ == spawn_line_text(b.x as int, b.y as int),
{
    let mut s = String::from_str("x -> ");
    let x = decimal_text(b.x);
    s.append(x.as_str());
    s.append(" and y -> ");
    let y = decimal_text(b.y);
    s.append(y.as_str());
    assert(s@ =~= spawn_line_text(b.x as int, b.y as int));
    s
}

} // verus!
