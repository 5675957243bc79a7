use vstd::prelude::*;

verus! {

/// The decimal digit `d` (0 to 9) as a character.
pub open spec fn digit_char(d: int) -> char {
    if d == 0 {
        '0'
    } else if d == 1 {
        '1'
    } else if d == 2 {
        '2'
    } else if d == 3 {
        '3'
    } else if d == 4 {
        '4'
    } else if d == 5 {
        '5'
    } else if d == 6 {
        '6'
    } else if d == 7 {
        '7'
    } else if d == 8 {
        '8'
    } else {
        '9'
    }
}

/// The decimal notation of `n`, without leading zeros.
pub open spec fn decimal(n: nat) -> Seq<char>
    decreases n,
{
    if n < 10 {
        seq![digit_char(n as int)]
    } else {
        decimal(n / 10) + seq![digit_char((n % 10) as int)]
    }
}

/// The decimal notation of a signed number: a minus sign before the notation of its magnitude.
pub open spec fn signed_decimal(n: int) -> Seq<char> {
    if n < 0 {
        seq!['-'] + decimal((-n) as nat)
    } else {
        decimal(n as nat)
    }
}

fn digit_text(d: u64) -> (s: String)
    requires
        d < 10,
    ensures
        s@ == seq![digit_char(d as int)],
{
    if d == 0 {
        let s = String::from_str("0");
        proof { reveal_strlit("0"); }
        s
    } else if d == 1 {
        let s = String::from_str("1");
        proof { reveal_strlit("1"); }
        s
    } else if d == 2 {
        let s = String::from_str("2");
        proof { reveal_strlit("2"); }
        s
    } else if d == 3 {
        let s = String::from_str("3");
        proof { reveal_strlit("3"); }
        s
    } else if d == 4 {
        let s = String::from_str("4");
        proof { reveal_strlit("4"); }
        s
    } else if d == 5 {
        let s = String::from_str("5");
        proof { reveal_strlit("5"); }
        s
    } else if d == 6 {
        let s = String::from_str("6");
        proof { reveal_strlit("6"); }
        s
    } else if d == 7 {
        let s = String::from_str("7");
        proof { reveal_strlit("7"); }
        s
    } else if d == 8 {
        let s = String::from_str("8");
        proof { reveal_strlit("8"); }
        s
    } else {
        let s = String::from_str("9");
        proof { reveal_strlit("9"); }
        s
    }
}

/// The decimal notation of `n`.
pub fn number_text(n: u64) -> (s: String)
    ensures
        s@ == decimal(n as nat),
    decreases n,
{
    if n < 10 {
        digit_text(n)
    } else {
        let mut s = number_text(n / 10);
        let last = digit_text(n % 10);
        s.append(last.as_str());
        s
    }
}

/// The decimal notation of a signed number.
pub fn signed_number_text(n: i64) -> (s: String)
    requires
        n > i64::MIN,
    ensures
        s@ == signed_decimal(n as int),
{
    if n < 0 {
        let mut s = String::from_str("-");
        proof { reveal_strlit("-"); }
        let magnitude = number_text((-n) as u64);
        s.append(magnitude.as_str());
        s
    } else {
        number_text(n as u64)
    }
}

} // verus!
