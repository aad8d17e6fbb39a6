use vstd::prelude::*;
use vstd::string::*;

verus! {

/// The unit scale of a byte count: how many factor-1024 steps it takes,
/// capped at five (petabytes).
pub open spec fn scale_of(bytes: u128) -> nat {
    if bytes >= 1125899906842624 {
        5
    } else if bytes >= 1099511627776 {
        4
    } else if bytes >= 1073741824 {
        3
    } else if bytes >= 1048576 {
        2
    } else if bytes >= 1024 {
        1
    } else {
        0
    }
}

/// 1024 raised to the scale.
pub open spec fn scale_factor(u: nat) -> int {
    if u == 0 {
        1
    } else if u == 1 {
        1024
    } else if u == 2 {
        1048576
    } else if u == 3 {
        1073741824
    } else if u == 4 {
        1099511627776
    } else {
        1125899906842624
    }
}

/// The byte count scaled to its unit, in hundredths, rounded half up.
pub open spec fn scaled_hundredths(bytes: u128) -> int {
    let p = scale_factor(scale_of(bytes));
    let q = bytes as int / p;
    let r = bytes as int % p;
    q * 100 + (r * 100 + p / 2) / p
}

/// The character for one decimal digit.
pub open spec fn digit_char(d: nat) -> char {
    if d == 0 {
        '0'
    } else if d == 1 {
        '1'
    } else if d == 2 {
        '2'
    } else if d == 3 {
        '3'
    } else if d == 4 {
        '4'
    } else if d == 5 {
        '5'
    } else if d == 6 {
        '6'
    } else if d == 7 {
        '7'
    } else if d == 8 {
        '8'
    } else {
        '9'
    }
}

/// The decimal rendering of a number, most significant digit first.
pub open spec fn dec_digits(n: nat) -> Seq<char>
    decreases n,
{
    if n < 10 {
        seq![digit_char(n)]
    } else {
        dec_digits(n / 10).push(digit_char(n % 10))
    }
}

/// The unit suffix for a scale.
pub open spec fn unit_chars(u: nat) -> Seq<char> {
    if u == 0 {
        seq!['B']
    } else if u == 1 {
        seq!['K', 'B']
    } else if u == 2 {
        seq!['M', 'B']
    } else if u == 3 {
        seq!['G', 'B']
    } else if u == 4 {
        seq!['T', 'B']
    } else {
        seq!['P', 'B']
    }
}

/// The full human-readable rendering of a byte count: the scaled value
/// with two decimals, a space, and the unit.
pub open spec fn human_chars(bytes: u128) -> Seq<char> {
    let h = scaled_hundredths(bytes);
    dec_digits((h / 100) as nat) + seq!['.'] + seq![
        digit_char(((h / 10) % 10) as nat),
        digit_char((h % 10) as nat),
    ] + seq![' '] + unit_chars(scale_of(bytes))
}

/// The string for one decimal digit.
fn digit_str(d: u128) -> (s: &'static str)
    requires
        d < 10,
    ensures
        s@ == seq![digit_char(d as nat)],
{
    let s: &'static str = if d == 0 {
        "0"
    } else if d == 1 {
        "1"
    } else if d == 2 {
        "2"
    } else if d == 3 {
        "3"
    } else if d == 4 {
        "4"
    } else if d == 5 {
        "5"
    } else if d == 6 {
        "6"
    } else if d == 7 {
        "7"
    } else if d == 8 {
        "8"
    } else {
        "9"
    };
    proof {
        reveal_strlit("0");
        reveal_strlit("1");
        reveal_strlit("2");
        reveal_strlit("3");
        reveal_strlit("4");
        reveal_strlit("5");
        reveal_strlit("6");
        reveal_strlit("7");
        reveal_strlit("8");
        reveal_strlit("9");
        assert(s@ =~= seq![digit_char(d as nat)]);
    }
    s
}

/// The decimal rendering of a number as a string.
pub fn dec_string(n: u128) -> (s: String)
    ensures
        s@ == dec_digits(n as nat),
    decreases n,
{
    if n < 10 {
        String::from_str(digit_str(n))
    } else {
        let mut s = dec_string(n / 10);
        s.append(digit_str(n % 10));
        proof {
            assert(s@ =~= dec_digits(n as nat));
        }
        s
    }
}

/// The unit suffix for a scale.
fn unit_str(u: usize) -> (s: &'static str)
    requires
        u <= 5,
    ensures
        s@ == unit_chars(u as nat),
{
    let s: &'static str = if u == 0 {
        "B"
    } else if u == 1 {
        "KB"
    } else if u == 2 {
        "MB"
    } else if u == 3 {
        "GB"
    } else if u == 4 {
        "TB"
    } else {
        "PB"
    };
    proof {
        reveal_strlit("B");
        reveal_strlit("KB");
        reveal_strlit("MB");
        reveal_strlit("GB");
        reveal_strlit("TB");
        reveal_strlit("PB");
        assert(s@ =~= unit_chars(u as nat));
    }
    s
}

/// Render a byte count in human-readable form: the count scaled to the
/// largest unit it reaches, rounded half up to two decimals.
pub fn human_bytes(bytes: u128) -> (s: String)
    ensures
        s@ == human_chars(bytes),
{
    let u: usize = if bytes >= 1125899906842624 {
        5
    } else if bytes >= 1099511627776 {
        4
    } else if bytes >= 1073741824 {
        3
    } else if bytes >= 1048576 {
        2
    } else if bytes >= 1024 {
        1
    } else {
        0
    };
    let p: u128 = if u == 5 {
        1125899906842624
    } else if u == 4 {
        1099511627776
    } else if u == 3 {
        1073741824
    } else if u == 2 {
        1048576
    } else if u == 1 {
        1024
    } else {
        1
    };
    proof {
        assert(u as nat == scale_of(bytes));
        assert(p as int == scale_factor(scale_of(bytes)));
    }
    let q: u128 = bytes / p;
    let r: u128 = bytes % p;
    let cent: u128 = (r * 100 + p / 2) / p;
    let h: u128 = q * 100 + cent;
    proof {
        assert(h as int == scaled_hundredths(bytes));
    }
    let mut s = dec_string(h / 100);
    s.append(".");
    s.append(digit_str((h / 10) % 10));
    s.append(digit_str(h % 10));
    s.append(" ");
    s.append(unit_str(u));
    proof {
        reveal_strlit(".");
        reveal_strlit(" ");
        assert(s@ =~= human_chars(bytes));
    }
    s
}

} // verus!
