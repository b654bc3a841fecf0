use vstd::prelude::*;
use vstd::string::StringExecFns;

verus! {

pub open spec fn hex_digit(d: nat) -> char {
    if d < 10 {
        ((d + 48) as u8) as char
    } else {
        ((d + 87) as u8) as char
    }
}

/// The lowest `width` hexadecimal digits of `n`, most significant first, in lower case.
pub open spec fn hex_text(n: nat, width: nat) -> Seq<char>
    decreases width,
{
    if width == 0 {
        Seq::empty()
    } else {
        hex_text(n / 16, (width - 1) as nat) + seq![hex_digit(n % 16)]
    }
}

pub open spec fn decimal_digit(d: nat) -> char {
    ((d + 48) as u8) as char
}

/// The decimal text of `n`, without leading zeros.
pub open spec fn decimal_text(n: nat) -> Seq<char>
    decreases n,
{
    if n < 10 {
        seq![decimal_digit(n)]
    } else {
        decimal_text(n / 10) + seq![decimal_digit(n % 10)]
    }
}

fn digit_str(d: u8) -> (r: &'static str)
    requires
        d < 16,
    ensures
        r@ == seq![hex_digit(d as nat)],
{
    proof {
        reveal_strlit("0"); reveal_strlit("1"); reveal_strlit("2"); reveal_strlit("3");
        reveal_strlit("4"); reveal_strlit("5"); reveal_strlit("6"); reveal_strlit("7");
        reveal_strlit("8"); reveal_strlit("9"); reveal_strlit("a"); reveal_strlit("b");
        reveal_strlit("c"); reveal_strlit("d"); reveal_strlit("e"); reveal_strlit("f");
    }
    let r = match d {
        0 => "0",
        1 => "1",
        2 => "2",
        3 => "3",
        4 => "4",
        5 => "5",
        6 => "6",
        7 => "7",
        8 => "8",
        9 => "9",
        10 => "a",
        11 => "b",
        12 => "c",
        13 => "d",
        14 => "e",
        _ => "f",
    };
    assert(r@ =~= seq![hex_digit(d as nat)]);
    r
}

/// The lowest `width` hexadecimal digits of `n`.
pub fn hex_of(n: u128, width: u32) -> (r: String)
    ensures
        r@ == hex_text(n as nat, width as nat),
    decreases width,
{
    if width == 0 {
        String::new()
    } else {
        let high = hex_of(n / 16, width - 1);
        high.concat(digit_str((n % 16) as u8))
    }
}

/// The decimal text of `n`.
pub fn decimal_of(n: u32) -> (r: String)
    ensures
        r@ == decimal_text(n as nat),
    decreases n,
{
    if n < 10 {
        digit_str(n as u8).to_owned()
    } else {
        let high = decimal_of(n / 10);
        let r = high.concat(digit_str((n % 10) as u8));
        assert(hex_digit((n % 10) as nat) == decimal_digit((n % 10) as nat));
        r
    }
}

} // verus!
