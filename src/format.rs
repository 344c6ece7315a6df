//! Numbers and dates as display text.

use vstd::prelude::*;
use crate::text::cat;

verus! {

pub open spec fn digit(d: nat) -> char {
    if d == 0 {
        '0'
    } else if d == 1 {
        '1'
    } else if d == 2 {
        '2'
    } else if d == 3 {
        '3'
    } else if d == 4 {
        '4'
    } else if d == 5 {
        '5'
    } else if d == 6 {
        '6'
    } else if d == 7 {
        '7'
    } else if d == 8 {
        '8'
    } else {
        '9'
    }
}

/// The decimal digits of `n`, without leading zeros.
pub open spec fn decimal(n: nat) -> Seq<char>
    decreases n,
{
    if n < 10 {
        seq![digit(n)]
    } else {
        decimal(n / 10) + seq![digit(n % 10)]
    }
}

pub open spec fn kib() -> nat {
    1024
}

/// A byte count as text: whole bytes, KB, MB, GB or TB, rounded down.
pub open spec fn size_text(f: nat) -> Seq<char> {
    if f < kib() {
        decimal(f) + " B"@
    } else if f < kib() * kib() {
        decimal(f / kib()) + " KB"@
    } else if f < kib() * kib() * kib() {
        decimal(f / kib() / kib()) + " MB"@
    } else if f < kib() * kib() * kib() * kib() {
        decimal(f / kib() / kib() / kib()) + " GB"@
    } else {
        decimal(f / kib() / kib() / kib() / kib()) + " TB"@
    }
}

fn digit_text(d: u64) -> (r: &'static str)
    requires
        d < 10,
    ensures
        r@ == seq![digit(d as nat)],
{
    proof {
        reveal_strlit("0");
        reveal_strlit("1");
        reveal_strlit("2");
        reveal_strlit("3");
        reveal_strlit("4");
        reveal_strlit("5");
        reveal_strlit("6");
        reveal_strlit("7");
        reveal_strlit("8");
        reveal_strlit("9");
    }
    let r = if d == 0 {
        "0"
    } else if d == 1 {
        "1"
    } else if d == 2 {
        "2"
    } else if d == 3 {
        "3"
    } else if d == 4 {
        "4"
    } else if d == 5 {
        "5"
    } else if d == 6 {
        "6"
    } else if d == 7 {
        "7"
    } else if d == 8 {
        "8"
    } else {
        "9"
    };
    assert(r@ =~= seq![digit(d as nat)]);
    r
}

/// `v` in decimal.
pub fn decimal_text(v: u64) -> (r: String)
    ensures
        r@ == decimal(v as nat),
{
    let mut n: u64 = v / 10;
    let mut out = digit_text(v % 10).to_string();
    while n > 0
        invariant
            (if n == 0 {
                out@
            } else {
                decimal(n as nat) + out@
            }) == decimal(v as nat),
        decreases n,
    {
        let d = digit_text(n % 10);
        let ghost prev = out@;
        out = cat(d, out.as_str());
        proof {
            if n >= 10 {
                assert(decimal((n / 10) as nat) + out@ =~= decimal((n / 10) as nat) + seq![
                    digit((n % 10) as nat),
                ] + prev);
            }
        }
        n = n / 10;
    }
    out
}

/// A byte count as human-readable text.
pub fn format_size(f: u64) -> (r: String)
    ensures
        r@ == size_text(f as nat),
{
    let k: u64 = 1024;
    if f < k {
        return cat(decimal_text(f).as_str(), " B");
    }
    if f < k * k {
        return cat(decimal_text(f / k).as_str(), " KB");
    }
    if f < k * k * k {
        return cat(decimal_text(f / k / k).as_str(), " MB");
    }
    if f < k * k * k * k {
        return cat(decimal_text(f / k / k / k).as_str(), " GB");
    }
    cat(decimal_text(f / k / k / k / k).as_str(), " TB")
}

} // verus!
