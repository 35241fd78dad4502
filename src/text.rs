use vstd::prelude::*;

verus! {

/// The decimal digit `d` (`d < 10`).
pub open spec fn digit(d: nat) -> char {
    seq!['0', '1', '2', '3', '4', '5', '6', '7', '8', '9'][d as int]
}

/// The decimal notation of `n`, without leading zeros.
pub open spec fn decimal(n: nat) -> Seq<char>
    decreases n,
{
    if n < 10 {
        seq![digit(n)]
    } else {
        decimal(n / 10).push(digit(n % 10))
    }
}

/// The lower-case hexadecimal digit `d` (`d < 16`).
pub open spec fn hex_digit(d: nat) -> char {
    seq!['0', '1', '2', '3', '4', '5', '6', '7', '8', '9', 'a', 'b', 'c', 'd', 'e', 'f'][d as int]
}

/// The lower-case hexadecimal notation of `n`, without prefix or leading
/// zeros.
pub open spec fn hex(n: nat) -> Seq<char>
    decreases n,
{
    if n < 16 {
        seq![hex_digit(n)]
    } else {
        hex(n / 16).push(hex_digit(n % 16))
    }
}

/// The one-character text of the hexadecimal digit `d`.
fn hex_digit_str(d: u64) -> (r: &'static str)
    requires
        d < 16,
    ensures
        r@ == seq![hex_digit(d as nat)],
        d < 10 ==> r@ == seq![digit(d as nat)],
{
    proof {
        reveal_strlit("0");
        reveal_strlit("1");
        reveal_strlit("2");
        reveal_strlit("3");
        reveal_strlit("4");
        reveal_strlit("5");
        reveal_strlit("6");
        reveal_strlit("7");
        reveal_strlit("8");
        reveal_strlit("9");
        reveal_strlit("a");
        reveal_strlit("b");
        reveal_strlit("c");
        reveal_strlit("d");
        reveal_strlit("e");
        reveal_strlit("f");
    }
    let r = match d {
        0 => "0",
        1 => "1",
        2 => "2",
        3 => "3",
        4 => "4",
        5 => "5",
        6 => "6",
        7 => "7",
        8 => "8",
        9 => "9",
        10 => "a",
        11 => "b",
        12 => "c",
        13 => "d",
        14 => "e",
        _ => "f",
    };
    assert(r@ =~= seq![hex_digit(d as nat)]);
    r
}

/// The decimal notation of `n`.
pub fn decimal_string(n: u64) -> (r: String)
    ensures
        r@ == decimal(n as nat),
{
    let mut m: u64 = n;
    let mut s = String::new();
    loop
        invariant_except_break
            decimal(n as nat) == decimal(m as nat) + s@,
        ensures
            decimal(n as nat) == s@,
        decreases m,
    {
        let ghost old_s = s@;
        let mut d = hex_digit_str(m % 10).to_owned();
        d.append(s.as_str());
        s = d;
        if m < 10 {
            assert(decimal(n as nat) =~= s@);
            break;
        }
        assert(decimal(m as nat) + old_s =~= decimal((m / 10) as nat) + s@);
        m = m / 10;
    }
    s
}

/// The hexadecimal notation of `n` with the prefix `0x`, as `{:#x}` writes
/// it.
pub fn hex_string(n: u64) -> (r: String)
    ensures
        r@ == "0x"@ + hex(n as nat),
{
    let mut m: u64 = n;
    let mut s = String::new();
    loop
        invariant_except_break
            hex(n as nat) == hex(m as nat) + s@,
        ensures
            hex(n as nat) == s@,
        decreases m,
    {
        let ghost old_s = s@;
        let mut d = hex_digit_str(m % 16).to_owned();
        d.append(s.as_str());
        s = d;
        if m < 16 {
            assert(hex(n as nat) =~= s@);
            break;
        }
        assert(hex(m as nat) + old_s =~= hex((m / 16) as nat) + s@);
        m = m / 16;
    }
    let mut r = "0x".to_owned();
    r.append(s.as_str());
    r
}

} // verus!
