//! Pieces of SQL text: quoted identifiers and `$n` placeholders.
use vstd::prelude::*;

verus! {

/// The character of a decimal digit.
pub open spec fn digit_char(d: nat) -> char {
    if d == 0 {
        '0'
    } else if d == 1 {
        '1'
    } else if d == 2 {
        '2'
    } else if d == 3 {
        '3'
    } else if d == 4 {
        '4'
    } else if d == 5 {
        '5'
    } else if d == 6 {
        '6'
    } else if d == 7 {
        '7'
    } else if d == 8 {
        '8'
    } else {
        '9'
    }
}

/// The decimal notation of `n`, without leading zeros.
pub open spec fn decimal(n: nat) -> Seq<char>
    decreases n,
{
    if n < 10 {
        seq![digit_char(n)]
    } else {
        decimal(n / 10) + seq![digit_char(n % 10)]
    }
}

/// The placeholder `$n` that refers to the n-th bound parameter.
pub open spec fn placeholder(n: nat) -> Seq<char> {
    "$"@ + decimal(n)
}

/// An identifier in double quotes.
pub open spec fn quoted(name: Seq<char>) -> Seq<char> {
    "\""@ + name + "\""@
}

/// Placeholders `$(k+1)`, ..., `$(k+m)` joined by ", ".
pub open spec fn placeholder_list(k: nat, m: nat) -> Seq<char>
    decreases m,
{
    if m == 0 {
        Seq::empty()
    } else if m == 1 {
        placeholder(k + 1)
    } else {
        placeholder_list(k, (m - 1) as nat) + ", "@ + placeholder(k + m)
    }
}

/// Identifiers quoted and joined by ", ", in the given order.
pub open spec fn quoted_list(names: Seq<Seq<char>>) -> Seq<char>
    decreases names.len(),
{
    if names.len() == 0 {
        Seq::empty()
    } else if names.len() == 1 {
        quoted(names[0])
    } else {
        quoted_list(names.drop_last()) + ", "@ + quoted(names.last())
    }
}

fn digit_str(d: u64) -> (r: &'static str)
    requires
        d < 10,
    ensures
        r@ == seq![digit_char(d as nat)],
{
    if d == 0 {
        proof { reveal_strlit("0"); }
        "0"
    } else if d == 1 {
        proof { reveal_strlit("1"); }
        "1"
    } else if d == 2 {
        proof { reveal_strlit("2"); }
        "2"
    } else if d == 3 {
        proof { reveal_strlit("3"); }
        "3"
    } else if d == 4 {
        proof { reveal_strlit("4"); }
        "4"
    } else if d == 5 {
        proof { reveal_strlit("5"); }
        "5"
    } else if d == 6 {
        proof { reveal_strlit("6"); }
        "6"
    } else if d == 7 {
        proof { reveal_strlit("7"); }
        "7"
    } else if d == 8 {
        proof { reveal_strlit("8"); }
        "8"
    } else {
        proof { reveal_strlit("9"); }
        "9"
    }
}

/// Appends the decimal notation of `n`.
pub fn push_decimal(s: &mut String, n: u64)
    ensures
        final(s)@ == old(s)@ + decimal(n as nat),
    decreases n,
{
    if n >= 10 {
        push_decimal(s, n / 10);
    }
    s.append(digit_str(n % 10));
    proof {
        assert(final(s)@ =~= old(s)@ + decimal(n as nat));
    }
}

/// Appends the placeholder `$n`.
pub fn push_placeholder(s: &mut String, n: u64)
    ensures
        final(s)@ == old(s)@ + placeholder(n as nat),
{
    s.append("$");
    push_decimal(s, n);
    proof {
        assert(final(s)@ =~= old(s)@ + placeholder(n as nat));
    }
}

/// Appends `name` in double quotes.
pub fn push_quoted(s: &mut String, name: &str)
    ensures
        final(s)@ == old(s)@ + quoted(name@),
{
    s.append("\"");
    s.append(name);
    s.append("\"");
    proof {
        assert(final(s)@ =~= old(s)@ + quoted(name@));
    }
}

/// Appends the placeholders `$(k+1)`, ..., `$(k+m)` joined by ", ".
pub fn push_placeholder_list(s: &mut String, k: u64, m: u64)
    requires
        k + m <= u64::MAX,
    ensures
        final(s)@ == old(s)@ + placeholder_list(k as nat, m as nat),
{
    let ghost start = s@;
    let mut i: u64 = 0;
    while i < m
        invariant
            i <= m,
            k + m <= u64::MAX,
            s@ == start + placeholder_list(k as nat, i as nat),
        decreases m - i,
    {
        if i > 0 {
            s.append(", ");
        }
        push_placeholder(s, k + i + 1);
        i = i + 1;
        proof {
            assert(s@ =~= start + placeholder_list(k as nat, i as nat));
        }
    }
}

} // verus!
