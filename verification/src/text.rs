use vstd::prelude::*;

verus! {

/// Character-wise equality of two string slices.
pub fn str_equal(a: &str, b: &str) -> (r: bool)
    ensures
        r == (a@ == b@),
{
    let n = a.unicode_len();
    let m = b.unicode_len();
    if n != m {
        return false;
    }
    let mut i: usize = 0;
    while i < n
        invariant
            n == a@.len(),
            m == b@.len(),
            n == m,
            i <= n,
            forall|j: int| 0 <= j < i ==> a@[j] == b@[j],
        decreases n - i,
    {
        if a.get_char(i) != b.get_char(i) {
            return false;
        }
        i = i + 1;
    }
    assert(a@ =~= b@);
    true
}


/// Decimal digit character of `d < 10`.
pub open spec fn spec_digit_char(d: nat) -> char {
    ((('0' as nat) + d) as u8) as char
}

/// The decimal text of a byte, without leading zeros.
pub open spec fn spec_decimal(v: u8) -> Seq<char> {
    if v < 10 {
        seq![spec_digit_char(v as nat)]
    } else if v < 100 {
        seq![spec_digit_char((v / 10) as nat), spec_digit_char((v % 10) as nat)]
    } else {
        seq![
            spec_digit_char((v / 100) as nat),
            spec_digit_char(((v / 10) % 10) as nat),
            spec_digit_char((v % 10) as nat),
        ]
    }
}

fn digit_str(d: u8) -> (r: &'static str)
    requires
        d < 10,
    ensures
        r@ =~= seq![spec_digit_char(d as nat)],
{
    match d {
        0 => { let s = "0"; proof { reveal_strlit("0"); } s },
        1 => { let s = "1"; proof { reveal_strlit("1"); } s },
        2 => { let s = "2"; proof { reveal_strlit("2"); } s },
        3 => { let s = "3"; proof { reveal_strlit("3"); } s },
        4 => { let s = "4"; proof { reveal_strlit("4"); } s },
        5 => { let s = "5"; proof { reveal_strlit("5"); } s },
        6 => { let s = "6"; proof { reveal_strlit("6"); } s },
        7 => { let s = "7"; proof { reveal_strlit("7"); } s },
        8 => { let s = "8"; proof { reveal_strlit("8"); } s },
        _ => { let s = "9"; proof { reveal_strlit("9"); } s },
    }
}

/// Appends the decimal text of `v`.
pub fn push_decimal(text: &mut String, v: u8)
    ensures
        final(text)@ == old(text)@ + spec_decimal(v),
{
    if v >= 100 {
        text.append(digit_str(v / 100));
    }
    if v >= 10 {
        text.append(digit_str((v / 10) % 10));
    }
    text.append(digit_str(v % 10));
    assert(final(text)@ =~= old(text)@ + spec_decimal(v));
}

} // verus!
