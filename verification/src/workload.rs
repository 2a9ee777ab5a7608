//! The closed set of traffic shapes and the case-insensitive parsing of a
//! workload token such as `get-put`, `GetPut`, `get_put` or `mixed`.

use vstd::prelude::*;
use vstd::string::StrSliceExecFns;

verus! {

/// One traffic shape per variant; the set is closed and chosen once at
/// process start.
#[derive(Clone, Copy, Debug, PartialEq, Eq, Structural)]
pub enum WorkloadType {
    PutAll,
    GetAll,
    GetPopular,
    GetPut,
    Stress,
}

/// ASCII lower-casing of one character; anything but `A`..`Z` is kept.
pub open spec fn lower_char(c: char) -> char {
    if 65 <= c as u32 && c as u32 <= 90 {
        (((c as u32) + 32) as u8) as char
    } else {
        c
    }
}

/// ASCII lower-casing of a whole character sequence.
pub open spec fn lower(s: Seq<char>) -> Seq<char> {
    s.map_values(|c: char| lower_char(c))
}

/// What a workload token means: the lower-cased token, with `-`, `_` or
/// no separator, names its variant; `mixed` is an alias for `GetPut`;
/// anything else parses to nothing.
pub open spec fn parse_token(s: Seq<char>) -> Option<WorkloadType> {
    let l = lower(s);
    if l == "putall"@ || l == "put-all"@ || l == "put_all"@ {
        Some(WorkloadType::PutAll)
    } else if l == "getall"@ || l == "get-all"@ || l == "get_all"@ {
        Some(WorkloadType::GetAll)
    } else if l == "getpopular"@ || l == "get-popular"@ || l == "get_popular"@ {
        Some(WorkloadType::GetPopular)
    } else if l == "getput"@ || l == "get-put"@ || l == "get_put"@ || l == "mixed"@ {
        Some(WorkloadType::GetPut)
    } else if l == "stress"@ {
        Some(WorkloadType::Stress)
    } else {
        None
    }
}

fn lower_char_exec(c: char) -> (d: char)
    ensures
        d == lower_char(c),
{
    let x: u32 = c as u32;
    if 65 <= x && x <= 90 {
        ((x + 32) as u8) as char
    } else {
        c
    }
}

/// Whether the ASCII-lower-cased view of `s` is exactly the view of the
/// (already lower-case) token `tok`.
fn eq_lower(s: &str, tok: &str) -> (b: bool)
    ensures
        b == (lower(s@) == tok@),
{
    let n = s.unicode_len();
    if n != tok.unicode_len() {
        proof {
            assert(lower(s@).len() == s@.len());
        }
        return false;
    }
    let mut i: usize = 0;
    while i < n
        invariant
            0 <= i <= n,
            n == s@.len(),
            n == tok@.len(),
            forall|j: int| 0 <= j < i ==> lower(s@)[j] == tok@[j],
        decreases n - i,
    {
        let c = lower_char_exec(s.get_char(i));
        let d = tok.get_char(i);
        if c != d {
            proof {
                assert(lower(s@)[i as int] != tok@[i as int]);
            }
            return false;
        }
        i = i + 1;
    }
    proof {
        assert(lower(s@) =~= tok@);
    }
    true
}

impl WorkloadType {
    /// Parse a workload token, case-insensitively and with `-`, `_` or no
    /// separator; `mixed` is accepted for `GetPut`; an unrecognized token
    /// yields `None` (the orchestrator then substitutes its default).
    pub fn from_str(s: &str) -> (r: Option<WorkloadType>)
        ensures
            r == parse_token(s@),
    {
        if eq_lower(s, "putall") || eq_lower(s, "put-all") || eq_lower(s, "put_all") {
            Some(WorkloadType::PutAll)
        } else if eq_lower(s, "getall") || eq_lower(s, "get-all") || eq_lower(s, "get_all") {
            Some(WorkloadType::GetAll)
        } else if eq_lower(s, "getpopular") || eq_lower(s, "get-popular") || eq_lower(
            s,
            "get_popular",
        ) {
            Some(WorkloadType::GetPopular)
        } else if eq_lower(s, "getput") || eq_lower(s, "get-put") || eq_lower(s, "get_put")
            || eq_lower(s, "mixed") {
            Some(WorkloadType::GetPut)
        } else if eq_lower(s, "stress") {
            Some(WorkloadType::Stress)
        } else {
            None
        }
    }
}

} // verus!
