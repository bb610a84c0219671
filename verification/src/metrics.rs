//! Metrics sources and the parsing of Kubernetes memory quantities.

use vstd::prelude::*;
use vstd::string::StrSliceExecFns;

use crate::text::{dec_val, parse_u64, parse_u64_spec};

verus! {

/// One source of cluster metrics and whether it answers.
#[derive(Debug, Clone, PartialEq, Eq)]
pub struct MetricsSource {
    pub name: String,
    pub available: bool,
    pub endpoint: Option<String>,
}

/// Which metrics sources the cluster offers.
#[derive(Debug, Clone, PartialEq, Eq)]
pub struct MetricsCapabilities {
    pub metrics_server: bool,
    pub prometheus: bool,
    pub sources: Vec<MetricsSource>,
}

/// Whether a character is blank space as it occurs around kubectl quantities.
pub open spec fn is_blank(c: char) -> bool {
    c == ' ' || c == '\t' || c == '\n' || c == '\r'
}

/// How many blank characters `s` starts with.
pub open spec fn leading_blanks(s: Seq<char>) -> int
    decreases s.len(),
{
    if s.len() == 0 || !is_blank(s[0]) {
        0
    } else {
        1 + leading_blanks(s.skip(1))
    }
}

/// How many blank characters `s` ends with.
pub open spec fn trailing_blanks(s: Seq<char>) -> int
    decreases s.len(),
{
    if s.len() == 0 || !is_blank(s[s.len() - 1]) {
        0
    } else {
        1 + trailing_blanks(s.drop_last())
    }
}

/// `s` without its leading and trailing blanks.
pub open spec fn blank_trimmed(s: Seq<char>) -> Seq<char> {
    if leading_blanks(s) == s.len() {
        Seq::empty()
    } else {
        s.subrange(leading_blanks(s), s.len() - trailing_blanks(s))
    }
}

proof fn lemma_leading_first_non_blank(s: Seq<char>)
    ensures
        0 <= leading_blanks(s) <= s.len(),
        leading_blanks(s) < s.len() ==> !is_blank(s[leading_blanks(s)]),
        forall|i: int| 0 <= i < leading_blanks(s) ==> is_blank(s[i]),
    decreases s.len(),
{
    if s.len() > 0 && is_blank(s[0]) {
        lemma_leading_first_non_blank(s.skip(1));
        assert(leading_blanks(s) == 1 + leading_blanks(s.skip(1)));
        assert forall|i: int| 0 <= i < leading_blanks(s) implies is_blank(s[i]) by {
            if i > 0 {
                assert(s.skip(1)[i - 1] == s[i]);
            }
        }
        if leading_blanks(s) < s.len() {
            assert(s.skip(1)[leading_blanks(s) - 1] == s[leading_blanks(s)]);
        }
    }
}

proof fn lemma_trailing_all_blank(s: Seq<char>)
    ensures
        0 <= trailing_blanks(s) <= s.len(),
        forall|i: int| s.len() - trailing_blanks(s) <= i < s.len() ==> is_blank(s[i]),
    decreases s.len(),
{
    if s.len() > 0 && is_blank(s[s.len() - 1]) {
        lemma_trailing_all_blank(s.drop_last());
        assert(trailing_blanks(s) == 1 + trailing_blanks(s.drop_last()));
        assert forall|i: int| s.len() - trailing_blanks(s) <= i < s.len() implies is_blank(
            s[i],
        ) by {
            if i < s.len() - 1 {
                assert(s.drop_last()[i] == s[i]);
            }
        }
    }
}

proof fn lemma_blank_bounds(s: Seq<char>)
    ensures
        0 <= leading_blanks(s) <= s.len(),
        0 <= trailing_blanks(s) <= s.len(),
        leading_blanks(s) < s.len() ==> leading_blanks(s) + trailing_blanks(s) <= s.len(),
{
    lemma_leading_first_non_blank(s);
    lemma_trailing_all_blank(s);
    let l = leading_blanks(s);
    let t = trailing_blanks(s);
    if l < s.len() && l + t > s.len() {
        // position l is non-blank yet lies inside the trailing blank run
        assert(!is_blank(s[l]));
        assert(s.len() - t <= l < s.len());
        assert(is_blank(s[l]));
    }
}

fn leading_blanks_exec(s: &str, from: usize) -> (r: usize)
    requires
        from <= s@.len(),
    ensures
        r <= s@.len() - from,
        r == leading_blanks(s@.skip(from as int)),
    decreases s@.len() - from,
{
    let n = s.unicode_len();
    if from >= n {
        return 0;
    }
    proof {
        assert(s@.skip(from as int)[0] == s@[from as int]);
    }
    let c = s.get_char(from);
    if c == ' ' || c == '\t' || c == '\n' || c == '\r' {
        let r = leading_blanks_exec(s, from + 1);
        proof {
            assert(s@.skip(from as int).skip(1) =~= s@.skip(from + 1));
        }
        r + 1
    } else {
        0
    }
}

fn trailing_blanks_exec(s: &str, upto: usize) -> (r: usize)
    requires
        upto <= s@.len(),
    ensures
        r <= upto,
        r == trailing_blanks(s@.take(upto as int)),
    decreases upto,
{
    if upto == 0 {
        return 0;
    }
    proof {
        assert(s@.take(upto as int)[upto - 1] == s@[upto - 1]);
    }
    let c = s.get_char(upto - 1);
    if c == ' ' || c == '\t' || c == '\n' || c == '\r' {
        let r = trailing_blanks_exec(s, upto - 1);
        proof {
            assert(s@.take(upto as int).drop_last() =~= s@.take(upto - 1));
        }
        r + 1
    } else {
        0
    }
}

/// The value of a memory quantity in bytes: the trimmed text, read as a
/// decimal number scaled by its binary suffix (`Ki`, `Mi`, `Gi`, `Ti`), or
/// taken as bytes without one. An unreadable number counts as zero; a product
/// beyond 64 bits saturates.
pub open spec fn mem_bytes(s: Seq<char>) -> u64 {
    let t = blank_trimmed(s);
    if suffixed(t, 'K') {
        scaled(t.take(t.len() - 2), 0x400)
    } else if suffixed(t, 'M') {
        scaled(t.take(t.len() - 2), 0x100000)
    } else if suffixed(t, 'G') {
        scaled(t.take(t.len() - 2), 0x40000000)
    } else if suffixed(t, 'T') {
        scaled(t.take(t.len() - 2), 0x10000000000)
    } else {
        scaled(t, 1)
    }
}

/// Whether `t` ends in the two-character binary suffix `<c>i`.
pub open spec fn suffixed(t: Seq<char>, c: char) -> bool {
    t.len() >= 2 && t[t.len() - 2] == c && t[t.len() - 1] == 'i'
}

/// The number read from `d`, scaled by `factor`: zero when `d` is not a
/// plain decimal number, the 64-bit maximum when the product does not fit.
pub open spec fn scaled(d: Seq<char>, factor: u64) -> u64 {
    match parse_u64_spec(d) {
        Some(v) => if v * factor > u64::MAX {
            u64::MAX
        } else {
            (v * factor) as u64
        },
        None => 0,
    }
}

fn scale_parsed(d: &str, factor: u64) -> (r: u64)
    requires
        factor >= 1,
    ensures
        r == scaled(d@, factor),
{
    match parse_u64(d) {
        None => 0,
        Some(v) => match v.checked_mul(factor) {
            Some(p) => p,
            None => {
                proof {
                    assert(v * factor > u64::MAX) by (nonlinear_arith)
                        requires
                            v * factor > u64::MAX || v * factor < u64::MIN as int,
                            factor >= 1,
                            v >= 0,
                    ;
                }
                u64::MAX
            },
        },
    }
}

/// Reads a Kubernetes memory quantity (`512`, `1024Ki`, `2Gi`, ...) as bytes.
pub fn parse_memory_to_bytes(memory: &str) -> (r: u64)
    ensures
        r == mem_bytes(memory@),
{
    let n = memory.unicode_len();
    let lead = leading_blanks_exec(memory, 0);
    proof {
        assert(memory@.skip(0) =~= memory@);
        lemma_blank_bounds(memory@);
    }
    if lead >= n {
        proof {
            assert(blank_trimmed(memory@).len() == 0);
            assert(parse_u64_spec(blank_trimmed(memory@)) is None);
        }
        return 0;
    }
    let trail = trailing_blanks_exec(memory, n);
    proof {
        assert(memory@.take(n as int) =~= memory@);
        assert(lead + trail <= n);
    }
    let t = memory.substring_char(lead, n - trail);
    proof {
        assert(t@ =~= blank_trimmed(memory@));
    }
    let tn = t.unicode_len();
    if tn >= 2 {
        let c = t.get_char(tn - 2);
        let last = t.get_char(tn - 1);
        if last == 'i' && (c == 'K' || c == 'M' || c == 'G' || c == 'T') {
            let digits = t.substring_char(0, tn - 2);
            proof {
                assert(digits@ =~= t@.take(t@.len() - 2));
            }
            if c == 'K' {
                return scale_parsed(digits, 1024);
            }
            if c == 'M' {
                return scale_parsed(digits, 1048576);
            }
            if c == 'G' {
                return scale_parsed(digits, 1073741824);
            }
            return scale_parsed(digits, 1099511627776);
        }
    }
    scale_parsed(t, 1)
}

} // verus!
