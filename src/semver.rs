//! Semantic version strings: `MAJOR.MINOR.PATCH`, then an optional
//! `-` pre-release part and an optional `+` build part.
use vstd::prelude::*;
use crate::config::is_digit;

verus! {

/// The rule that each dot-separated identifier of a version part obeys.
#[derive(Clone, Copy, Debug, PartialEq, Eq, Structural)]
pub enum SegmentRule {
    /// Digits only, with no leading zero (a lone `0` is fine).
    Numeric,
    /// Letters, digits and `-`; an all-digit identifier has no leading zero.
    PreRelease,
    /// Letters, digits and `-`.
    Build,
}

pub open spec fn is_ident_char(c: char) -> bool {
    ('a' <= c <= 'z') || ('A' <= c <= 'Z') || is_digit(c) || c == '-'
}

pub open spec fn allowed(rule: SegmentRule, c: char) -> bool {
    if rule == SegmentRule::Numeric {
        is_digit(c)
    } else {
        is_ident_char(c)
    }
}

pub open spec fn all_digits(seg: Seq<char>) -> bool {
    forall|j: int| 0 <= j < seg.len() ==> is_digit(#[trigger] seg[j])
}

/// Whether the rule forbids a leading zero in `seg`.
pub open spec fn zero_rule_applies(rule: SegmentRule, seg: Seq<char>) -> bool {
    rule == SegmentRule::Numeric || (rule == SegmentRule::PreRelease && all_digits(seg))
}

pub open spec fn segment_ok(rule: SegmentRule, seg: Seq<char>) -> bool {
    &&& seg.len() > 0
    &&& forall|j: int| 0 <= j < seg.len() ==> allowed(rule, #[trigger] seg[j])
    &&& zero_rule_applies(rule, seg) ==> (seg.len() == 1 || seg[0] != '0')
}

/// `s` cut at every dot; `s` without a dot is one segment, possibly empty.
pub open spec fn split_dots(s: Seq<char>) -> Seq<Seq<char>>
    decreases s.len(),
{
    if s.len() == 0 {
        seq![Seq::empty()]
    } else {
        let p = split_dots(s.drop_last());
        if s.last() == '.' {
            p.push(Seq::empty())
        } else {
            p.update(p.len() - 1, p.last().push(s.last()))
        }
    }
}

/// Every dot-separated identifier of `s` is non-empty and obeys `rule`.
pub open spec fn segments_ok(rule: SegmentRule, s: Seq<char>) -> bool {
    forall|k: int| 0 <= k < split_dots(s).len() ==> segment_ok(rule, #[trigger] split_dots(s)[k])
}

/// The position of the first `c` in `s`, or its length when there is none.
pub open spec fn first_index(s: Seq<char>, c: char) -> nat
    decreases s.len(),
{
    if s.len() == 0 {
        0
    } else if s[0] == c {
        0
    } else {
        1 + first_index(s.drop_first(), c)
    }
}

/// A semantic version: three numeric identifiers joined by dots, then
/// optionally `-` and pre-release identifiers, then optionally `+` and
/// build identifiers, each group dot-separated.
pub open spec fn valid_version(s: Seq<char>) -> bool {
    let plus = first_index(s, '+') as int;
    let dash = first_index(s.subrange(0, plus), '-') as int;
    &&& split_dots(s.subrange(0, dash)).len() == 3
    &&& segments_ok(SegmentRule::Numeric, s.subrange(0, dash))
    &&& dash < plus ==> segments_ok(SegmentRule::PreRelease, s.subrange(dash + 1, plus))
    &&& plus < s.len() ==> segments_ok(SegmentRule::Build, s.subrange(plus + 1, s.len() as int))
}

/// The position of the first `c` in `s[lo..hi]`, counted from `lo`.
fn find_char(s: &str, c: char, lo: usize, hi: usize) -> (r: usize)
    requires
        lo <= hi <= s@.len(),
    ensures
        lo <= r <= hi,
        r == lo + first_index(s@.subrange(lo as int, hi as int), c),
{
    let mut i = lo;
    while i < hi
        invariant
            lo <= i <= hi,
            hi <= s@.len(),
            first_index(s@.subrange(lo as int, hi as int), c) == (i - lo) + first_index(
                s@.subrange(i as int, hi as int),
                c,
            ),
        decreases hi - i,
    {
        assert(s@.subrange(i as int, hi as int)[0] == s@[i as int]);
        if s.get_char(i) == c {
            return i;
        }
        assert(s@.subrange(i as int, hi as int).drop_first() =~= s@.subrange(i + 1, hi as int));
        i += 1;
    }
    i
}

/// Checks the dot-separated identifiers of `s[lo..hi]` against `rule`, and
/// counts them.
fn check_segments(s: &str, lo: usize, hi: usize, rule: SegmentRule) -> (r: (bool, usize))
    requires
        lo <= hi <= s@.len(),
    ensures
        r.0 == segments_ok(rule, s@.subrange(lo as int, hi as int)),
        r.1 + 1 == split_dots(s@.subrange(lo as int, hi as int)).len(),
{
    let mut ok = true;
    let mut dots: usize = 0;
    let mut cur_len: usize = 0;
    let mut cur_digits = true;
    let mut cur_zero = false;
    let mut i = lo;
    assert(s@.subrange(lo as int, lo as int) =~= Seq::<char>::empty());
    while i < hi
        invariant
            lo <= i <= hi,
            hi <= s@.len(),
            split_dots(s@.subrange(lo as int, i as int)).len() >= 1,
            dots + 1 == split_dots(s@.subrange(lo as int, i as int)).len(),
            dots <= i - lo,
            cur_len <= i - lo,
            ({
                let p = split_dots(s@.subrange(lo as int, i as int));
                let last = p.last();
                &&& ok == ((forall|k: int| 0 <= k < p.len() - 1 ==> segment_ok(rule, #[trigger] p[k]))
                    && forall|j: int| 0 <= j < last.len() ==> allowed(rule, #[trigger] last[j]))
                &&& cur_len == last.len()
                &&& cur_digits == all_digits(last)
                &&& cur_zero == (last.len() > 0 && last[0] == '0')
            }),
        decreases hi - i,
    {
        let ghost t = s@.subrange(lo as int, i as int);
        let ghost t2 = s@.subrange(lo as int, i + 1);
        let ghost p = split_dots(t);
        let ghost last = p.last();
        let c = s.get_char(i);
        assert(t2.drop_last() =~= t);
        assert(t2.last() == c);
        if c == '.' {
            let last_ok = cur_len > 0 && (!(rule == SegmentRule::Numeric || (rule
                == SegmentRule::PreRelease && cur_digits)) || cur_len == 1 || !cur_zero);
            proof {
                let p2 = split_dots(t2);
                assert(p2 == p.push(Seq::<char>::empty()));
                if ok {
                    assert(segment_ok(rule, last) == last_ok);
                }
                assert forall|k: int| 0 <= k < p2.len() - 1 implies #[trigger] p2[k] == p[k] by {}
                if ok && last_ok {
                    assert forall|k: int| 0 <= k < p2.len() - 1 implies segment_ok(
                        rule,
                        #[trigger] p2[k],
                    ) by {
                        assert(p2[k] == p[k]);
                    }
                }
                if !(ok && last_ok) {
                    if ok {
                        assert(!segment_ok(rule, p2[p.len() - 1]));
                    } else if exists|j: int| 0 <= j < last.len() && !allowed(rule, #[trigger] last[j]) {
                        assert(!segment_ok(rule, p2[p.len() - 1]));
                    } else {
                        let k = choose|k: int| 0 <= k < p.len() - 1 && !segment_ok(rule, #[trigger] p[k]);
                        assert(p2[k] == p[k]);
                    }
                }
                assert(p2.last() =~= Seq::<char>::empty());
            }
            ok = ok && last_ok;
            dots += 1;
            cur_len = 0;
            cur_digits = true;
            cur_zero = false;
        } else {
            let is_digit_c = '0' <= c && c <= '9';
            let allowed_c = if rule == SegmentRule::Numeric {
                is_digit_c
            } else {
                ('a' <= c && c <= 'z') || ('A' <= c && c <= 'Z') || is_digit_c || c == '-'
            };
            proof {
                let p2 = split_dots(t2);
                let last2 = last.push(c);
                assert(p2 == p.update(p.len() - 1, last2));
                assert(p2.last() == last2);
                assert forall|k: int| 0 <= k < p2.len() - 1 implies #[trigger] p2[k] == p[k] by {}
                assert(allowed(rule, c) == allowed_c);
                assert(all_digits(last2) == (cur_digits && is_digit_c)) by {
                    if cur_digits && is_digit_c {
                        assert forall|j: int| 0 <= j < last2.len() implies is_digit(#[trigger] last2[j]) by {
                            if j < last.len() {
                                assert(last2[j] == last[j]);
                            }
                        }
                    }
                    if !is_digit_c {
                        assert(last2[last.len() as int] == c);
                    }
                    if !cur_digits {
                        let j = choose|j: int| 0 <= j < last.len() && !is_digit(#[trigger] last[j]);
                        assert(last2[j] == last[j]);
                    }
                }
                let okc = ok && allowed_c;
                let lhs = (forall|k: int| 0 <= k < p2.len() - 1 ==> segment_ok(rule, #[trigger] p2[k]))
                    && forall|j: int| 0 <= j < last2.len() ==> allowed(rule, #[trigger] last2[j]);
                if okc {
                    assert forall|j: int| 0 <= j < last2.len() implies allowed(rule, #[trigger] last2[j]) by {
                        if j < last.len() {
                            assert(last2[j] == last[j]);
                        }
                    }
                    assert forall|k: int| 0 <= k < p2.len() - 1 implies segment_ok(rule, #[trigger] p2[k]) by {
                        assert(p2[k] == p[k]);
                    }
                } else if !allowed_c {
                    assert(!allowed(rule, last2[last.len() as int]));
                } else if exists|j: int| 0 <= j < last.len() && !allowed(rule, #[trigger] last[j]) {
                    let j = choose|j: int| 0 <= j < last.len() && !allowed(rule, #[trigger] last[j]);
                    assert(last2[j] == last[j]);
                } else {
                    let k = choose|k: int| 0 <= k < p.len() - 1 && !segment_ok(rule, #[trigger] p[k]);
                    assert(p2[k] == p[k]);
                }
                assert(lhs == okc);
                if cur_len > 0 {
                    assert(last2[0] == last[0]);
                }
            }
            ok = ok && allowed_c;
            cur_zero = if cur_len == 0 {
                c == '0'
            } else {
                cur_zero
            };
            cur_len += 1;
            cur_digits = cur_digits && is_digit_c;
        }
        i += 1;
    }
    let last_ok = cur_len > 0 && (!(rule == SegmentRule::Numeric || (rule
        == SegmentRule::PreRelease && cur_digits)) || cur_len == 1 || !cur_zero);
    proof {
        let t = s@.subrange(lo as int, hi as int);
        let p = split_dots(t);
        let last = p.last();
        if ok {
            assert(segment_ok(rule, last) == last_ok);
        }
        if ok && last_ok {
            assert forall|k: int| 0 <= k < p.len() implies segment_ok(rule, #[trigger] p[k]) by {
                if k < p.len() - 1 {
                } else {
                    assert(p[k] == last);
                }
            }
        } else if ok {
            assert(!segment_ok(rule, p[p.len() - 1]));
        } else if exists|j: int| 0 <= j < last.len() && !allowed(rule, #[trigger] last[j]) {
            assert(!segment_ok(rule, p[p.len() - 1]));
        } else {
            let k = choose|k: int| 0 <= k < p.len() - 1 && !segment_ok(rule, #[trigger] p[k]);
        }
    }
    (ok && last_ok, dots)
}

/// Whether `s` is a semantic version.
pub fn is_valid_version(s: &str) -> (r: bool)
    ensures
        r == valid_version(s@),
{
    let n = s.unicode_len();
    let plus = find_char(s, '+', 0, n);
    assert(s@.subrange(0, n as int) =~= s@);
    let dash = find_char(s, '-', 0, plus);
    let (core_ok, dots) = check_segments(s, 0, dash, SegmentRule::Numeric);
    if !core_ok || dots != 2 {
        return false;
    }
    if dash < plus {
        let (pre_ok, _) = check_segments(s, dash + 1, plus, SegmentRule::PreRelease);
        if !pre_ok {
            return false;
        }
    }
    if plus < n {
        let (build_ok, _) = check_segments(s, plus + 1, n, SegmentRule::Build);
        if !build_ok {
            return false;
        }
    }
    true
}

} // verus!
