//! Key and value construction for the workload strategies.
//!
//! Write and delete keys embed the worker identity and its iteration
//! counter (`key_put_<id>_<counter>`), which keeps workers' keyspaces
//! disjoint without any coordination; hot-read pools use a small indexed
//! namespace (`popular_<i>`, `hot_<i>`).

use vstd::prelude::*;
use vstd::string::StringExecFns;

verus! {

/// The character for one decimal digit.
pub open spec fn digit_char(d: int) -> char {
    if d == 0 {
        '0'
    } else if d == 1 {
        '1'
    } else if d == 2 {
        '2'
    } else if d == 3 {
        '3'
    } else if d == 4 {
        '4'
    } else if d == 5 {
        '5'
    } else if d == 6 {
        '6'
    } else if d == 7 {
        '7'
    } else if d == 8 {
        '8'
    } else {
        '9'
    }
}

/// The usual decimal rendering of `n`: no sign, no leading zero except
/// for `0` itself.
pub open spec fn dec_str(n: nat) -> Seq<char>
    decreases n,
{
    if n < 10 {
        seq![digit_char(n as int)]
    } else {
        dec_str(n / 10).push(digit_char((n % 10) as int))
    }
}

fn digit_str(d: u64) -> (s: &'static str)
    requires
        d < 10,
    ensures
        s@ == seq![digit_char(d as int)],
{
    let s: &'static str = if d == 0 {
        "0"
    } else if d == 1 {
        "1"
    } else if d == 2 {
        "2"
    } else if d == 3 {
        "3"
    } else if d == 4 {
        "4"
    } else if d == 5 {
        "5"
    } else if d == 6 {
        "6"
    } else if d == 7 {
        "7"
    } else if d == 8 {
        "8"
    } else {
        "9"
    };
    proof {
        reveal_strlit("0");
        reveal_strlit("1");
        reveal_strlit("2");
        reveal_strlit("3");
        reveal_strlit("4");
        reveal_strlit("5");
        reveal_strlit("6");
        reveal_strlit("7");
        reveal_strlit("8");
        reveal_strlit("9");
        assert(s@ =~= seq![digit_char(d as int)]);
    }
    s
}

/// Render `n` in decimal.
pub fn u64_to_string(n: u64) -> (s: String)
    ensures
        s@ == dec_str(n as nat),
    decreases n,
{
    if n < 10 {
        String::from_str(digit_str(n))
    } else {
        let mut s = u64_to_string(n / 10);
        s.append(digit_str(n % 10));
        proof {
            assert(s@ =~= dec_str(n as nat));
        }
        s
    }
}

/// A key of the shape `<prefix><id>_<counter>`, scoping `counter` to the
/// worker `id`.
pub open spec fn scoped_key(prefix: Seq<char>, id: nat, counter: nat) -> Seq<char> {
    prefix + dec_str(id) + "_"@ + dec_str(counter)
}

/// A key of the shape `<prefix><i>`, indexing into a shared pool.
pub open spec fn indexed_key(prefix: Seq<char>, i: nat) -> Seq<char> {
    prefix + dec_str(i)
}

/// The synthetic value written by every PUT: `v<counter>`.
pub open spec fn value_str(counter: nat) -> Seq<char> {
    "v"@ + dec_str(counter)
}

/// Build `<prefix><id>_<counter>`.
pub fn make_scoped_key(prefix: &str, id: u64, counter: u64) -> (s: String)
    ensures
        s@ == scoped_key(prefix@, id as nat, counter as nat),
{
    let mut s = String::from_str(prefix);
    let id_part = u64_to_string(id);
    s.append(id_part.as_str());
    s.append("_");
    let counter_part = u64_to_string(counter);
    s.append(counter_part.as_str());
    proof {
        assert(s@ =~= scoped_key(prefix@, id as nat, counter as nat));
    }
    s
}

/// Build `<prefix><i>`.
pub fn make_indexed_key(prefix: &str, i: u64) -> (s: String)
    ensures
        s@ == indexed_key(prefix@, i as nat),
{
    let mut s = String::from_str(prefix);
    let idx_part = u64_to_string(i);
    s.append(idx_part.as_str());
    s
}

/// Build `v<counter>`.
pub fn make_value(counter: u64) -> (s: String)
    ensures
        s@ == value_str(counter as nat),
{
    let mut s = String::from_str("v");
    let counter_part = u64_to_string(counter);
    s.append(counter_part.as_str());
    s
}

} // verus!
