//! Pre-flight checks of the installer: reading Node.js's version string and
//! deciding whether it is recent enough (v20 or later).
//!
//! Locating `node` / `npm` and running them is left to the application.

use vstd::prelude::*;

use crate::text::chars_of;

verus! {

/// What the pre-flight step found.
#[derive(Debug, Clone)]
pub struct PreflightReport {
    pub node_path: Option<String>,
    pub node_version: Option<String>,
    pub node_ok: bool,
    pub npm_path: Option<String>,
    pub npm_version: Option<String>,
}

/// The oldest supported Node.js major version.
pub const MIN_NODE_MAJOR: u32 = 20;

/// `s` without its leading `v` characters (`trim_start_matches('v')`).
pub open spec fn strip_leading_v(s: Seq<char>) -> Seq<char>
    decreases s.len(),
{
    if s.len() > 0 && s[0] == 'v' {
        strip_leading_v(s.drop_first())
    } else {
        s
    }
}

/// The part of `s` before its first `.` (`split('.').next()`).
pub open spec fn first_segment(s: Seq<char>) -> Seq<char>
    decreases s.len(),
{
    if s.len() == 0 || s[0] == '.' {
        Seq::empty()
    } else {
        seq![s[0]] + first_segment(s.drop_first())
    }
}

pub open spec fn is_decimal_digit(c: char) -> bool {
    '0' <= c && c <= '9'
}

/// The value of a string of decimal digits.
pub open spec fn digits_value(d: Seq<char>) -> nat
    decreases d.len(),
{
    if d.len() == 0 {
        0
    } else {
        digits_value(d.drop_last()) * 10 + ((d.last() as int) - 48) as nat
    }
}

/// What `str::parse::<u32>` gives: an optional `+`, then one or more decimal
/// digits whose value fits in a `u32`.
pub open spec fn parse_u32_text(s: Seq<char>) -> Option<u32> {
    let d = unsigned_digits(s);
    if d.len() == 0 || exists|i: int| 0 <= i < d.len() && !is_decimal_digit(#[trigger] d[i]) {
        None
    } else if digits_value(d) > u32::MAX {
        None
    } else {
        Some(digits_value(d) as u32)
    }
}

/// `s` without a leading `+`, when something follows it.
pub open spec fn unsigned_digits(s: Seq<char>) -> Seq<char> {
    if s.len() > 1 && s[0] == '+' {
        s.drop_first()
    } else {
        s
    }
}

/// The major version in a Node.js version string such as `v20.10.0`.
pub open spec fn major_of(v: Seq<char>) -> Option<u32> {
    parse_u32_text(first_segment(strip_leading_v(v)))
}

proof fn lemma_digits_value_monotone(d: Seq<char>, i: int)
    requires
        0 <= i <= d.len(),
        forall|j: int| 0 <= j < d.len() ==> is_decimal_digit(#[trigger] d[j]),
    ensures
        digits_value(d.subrange(0, i)) <= digits_value(d),
    decreases d.len() - i,
{
    if i < d.len() {
        lemma_digits_value_monotone(d, i + 1);
        assert(d.subrange(0, i + 1).drop_last() =~= d.subrange(0, i));
    } else {
        assert(d.subrange(0, i) =~= d);
    }
}

/// The major version of a Node.js version string, if it has one.
pub fn parse_major(v: &str) -> (r: Option<u32>)
    ensures
        r == major_of(v@),
{
    let cs = chars_of(v);
    let n = cs.len();
    let mut start: usize = 0;
    assert(cs@.skip(0) =~= cs@);
    while start < n && cs[start] == 'v'
        invariant
            cs@ == v@,
            n == cs@.len(),
            start <= n,
            strip_leading_v(v@) == strip_leading_v(cs@.skip(start as int)),
        decreases n - start,
    {
        assert(cs@.skip(start as int).drop_first() =~= cs@.skip(start + 1));
        start = start + 1;
    }
    let ghost stripped = cs@.skip(start as int);
    assert(strip_leading_v(stripped) == stripped);
    let mut end: usize = start;
    assert(cs@.subrange(start as int, start as int) =~= Seq::<char>::empty());
    assert(stripped.skip(0) =~= stripped);
    while end < n && cs[end] != '.'
        invariant
            cs@ == v@,
            n == cs@.len(),
            start <= end <= n,
            stripped == cs@.skip(start as int),
            first_segment(stripped) == cs@.subrange(start as int, end as int) + first_segment(
                cs@.skip(end as int),
            ),
            forall|j: int| start <= j < end ==> cs@[j] != '.',
        decreases n - end,
    {
        assert(cs@.skip(end as int).drop_first() =~= cs@.skip(end + 1));
        assert(cs@.subrange(start as int, end + 1) =~= cs@.subrange(start as int, end as int)
            + seq![cs@[end as int]]);
        end = end + 1;
    }
    assert(first_segment(cs@.skip(end as int)) =~= Seq::<char>::empty());
    let ghost seg = cs@.subrange(start as int, end as int);
    assert(first_segment(stripped) =~= seg);
    let mut i: usize = start;
    if end - start > 1 && cs[start] == '+' {
        i = start + 1;
    }
    let ghost d = cs@.subrange(i as int, end as int);
    assert(d =~= unsigned_digits(seg));
    assert(major_of(v@) == parse_u32_text(seg));
    if i == end {
        return None;
    }
    if exists_non_digit(&cs, i, end) {
        proof {
            let j = choose|j: int| i <= j < end && !is_decimal_digit(#[trigger] cs@[j]);
            assert(d[j - i] == cs@[j]);
            assert(!is_decimal_digit(d[j - i]));
            assert(parse_u32_text(seg) is None);
        }
        return None;
    }
    assert forall|j: int| 0 <= j < d.len() implies is_decimal_digit(#[trigger] d[j]) by {
        assert(d[j] == cs@[i + j]);
    }
    let mut value: u64 = 0;
    let first = i;
    assert(cs@.subrange(first as int, first as int) =~= Seq::<char>::empty());
    while i < end
        invariant
            cs@ == v@,
            n == cs@.len(),
            first <= i <= end <= n,
            d == cs@.subrange(first as int, end as int),
            d == unsigned_digits(seg),
            major_of(v@) == parse_u32_text(seg),
            forall|j: int| 0 <= j < d.len() ==> is_decimal_digit(#[trigger] d[j]),
            value as nat == digits_value(cs@.subrange(first as int, i as int)),
            value <= u32::MAX,
        decreases end - i,
    {
        let c = cs[i];
        assert(d[i - first] == c);
        let digit = (c as u32 - 48) as u64;
        assert(cs@.subrange(first as int, i + 1).drop_last() =~= cs@.subrange(
            first as int,
            i as int,
        ));
        value = value * 10 + digit;
        if value > 4294967295u64 {
            proof {
                lemma_digits_value_monotone(d, i + 1 - first);
                assert(d.subrange(0, i + 1 - first) =~= cs@.subrange(first as int, i + 1));
                assert(digits_value(d) > u32::MAX);
                assert(!(exists|k: int| 0 <= k < d.len() && !is_decimal_digit(#[trigger] d[k])));
                assert(parse_u32_text(seg) is None);
            }
            return None;
        }
        i = i + 1;
    }
    assert(cs@.subrange(first as int, i as int) =~= d);
    Some(value as u32)
}

/// Whether some character of `cs[from..to]` is not a decimal digit.
fn exists_non_digit(cs: &Vec<char>, from: usize, to: usize) -> (r: bool)
    requires
        from <= to <= cs.len(),
    ensures
        r == exists|j: int| from <= j < to && !is_decimal_digit(#[trigger] cs@[j]),
{
    let mut k = from;
    while k < to
        invariant
            from <= k <= to <= cs.len(),
            forall|j: int| from <= j < k ==> is_decimal_digit(#[trigger] cs@[j]),
        decreases to - k,
    {
        if !('0' <= cs[k] && cs[k] <= '9') {
            return true;
        }
        k = k + 1;
    }
    false
}

/// Node.js is usable: its version string names major version 20 or later.
pub open spec fn node_version_ok_spec(version: Option<String>) -> bool {
    match version {
        Some(v) => match major_of(v@) {
            Some(m) => m >= MIN_NODE_MAJOR,
            None => false,
        },
        None => false,
    }
}

/// Node.js is accepted exactly when its version string names a major version
/// of 20 or more; without a version string it is not.
pub proof fn lemma_node_accepted_from_20(version: Option<String>)
    ensures
        node_version_ok_spec(version) == (version matches Some(v) && major_of(v@) matches Some(
            m,
        ) && m >= 20),
{
}

/// Acceptance only grows with the major version: if one version string is
/// accepted, so is every version string with a major at least as large.
pub proof fn lemma_node_acceptance_monotone(older: String, newer: String)
    requires
        major_of(older@) is Some,
        major_of(newer@) is Some,
        major_of(older@)->0 <= major_of(newer@)->0,
    ensures
        node_version_ok_spec(Some(older)) ==> node_version_ok_spec(Some(newer)),
{
}

/// Whether the found Node.js version is recent enough.
pub fn node_version_ok(version: &Option<String>) -> (r: bool)
    ensures
        r == node_version_ok_spec(*version),
{
    match version {
        Some(v) => {
            let major = match parse_major(v.as_str()) {
                Some(m) => m,
                None => 0,
            };
            major >= MIN_NODE_MAJOR
        },
        None => false,
    }
}

} // verus!
