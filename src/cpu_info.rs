//! Aggregate CPU counters: parsing the `cpu` line of the kernel's statistics
//! and deriving the busy percentage between two samples.
use vstd::prelude::*;

use crate::error::Error;
use crate::text::{
    has_prefix, is_space, is_space_char, trim_start, trim_start_index, is_number, lines, number_value, parse_number, split_lines, split_words,
    starts_with, to_chars, view_all, words,
};

verus! {

/// Cumulative clock ticks since boot, split into idle and busy time.
#[derive(Debug, Clone, Copy, PartialEq, Eq, Structural)]
pub struct CpuInfo {
    pub idle_time: usize,
    pub non_idle_time: usize,
}

/// Field positions, counted after the label, that hold idle time (idle and
/// iowait).
pub open spec fn is_idle_field(i: int) -> bool {
    i == 3 || i == 4
}

/// The sum of the values of the fields that count as idle time (`idle`) or
/// as busy time (`!idle`).
pub open spec fn field_sum(f: Seq<Seq<char>>, idle: bool) -> nat
    decreases f.len(),
{
    if f.len() == 0 {
        0
    } else {
        field_sum(f.drop_last(), idle) + if is_idle_field(f.len() - 1) == idle {
            number_value(f.last())
        } else {
            0nat
        }
    }
}

/// The counter fields of a CPU line: every word after the label.
pub open spec fn cpu_fields(s: Seq<char>) -> Seq<Seq<char>> {
    words(s).drop_first()
}

/// `s` is an aggregate CPU line: the label `cpu` followed by whitespace, then
/// fields that are all numbers and whose two sums fit in `usize`.
pub open spec fn cpu_line_ok(s: Seq<char>) -> bool {
    let f = cpu_fields(s);
    let t = trim_start(s);
    &&& has_prefix(t, "cpu"@)
    &&& t.len() > 3
    &&& is_space(t[3])
    &&& words(s).len() > 0
    &&& words(s)[0] == "cpu"@
    &&& forall|i: int| 0 <= i < f.len() ==> is_number(#[trigger] f[i])
    &&& field_sum(f, true) <= usize::MAX
    &&& field_sum(f, false) <= usize::MAX
}

/// Among the lines `ls` of the statistics text, the one for all CPUs
/// together: the first that starts with `cpu `.
pub open spec fn aggregate_line(ls: Seq<Seq<char>>) -> Option<Seq<char>>
    decreases ls.len(),
{
    if ls.len() == 0 {
        None
    } else if has_prefix(ls[0], "cpu "@) {
        Some(ls[0])
    } else {
        aggregate_line(ls.drop_first())
    }
}

/// A saturating difference: a counter that went backwards counts as no change.
pub open spec fn sat_sub(a: int, b: int) -> int {
    if a >= b {
        a - b
    } else {
        0
    }
}

/// The share of busy time, in whole percent, between two cumulative samples;
/// 0 when no time passed.
pub open spec fn cpu_usage(prev: CpuInfo, cur: CpuInfo) -> int {
    let total = sat_sub(
        cur.idle_time + cur.non_idle_time,
        prev.idle_time + prev.non_idle_time,
    );
    let idle = sat_sub(cur.idle_time as int, prev.idle_time as int);
    if total == 0 {
        0
    } else {
        sat_sub(total, idle) * 100 / total
    }
}

/// A sum over some of the fields is at most the sum over all of them.
proof fn lemma_field_sum_prefix(f: Seq<Seq<char>>, k: int, idle: bool)
    requires
        0 <= k <= f.len(),
    ensures
        field_sum(f.subrange(0, k), idle) <= field_sum(f, idle),
    decreases f.len() - k,
{
    if k < f.len() {
        lemma_field_sum_prefix(f, k + 1, idle);
        assert(f.subrange(0, k + 1).drop_last() =~= f.subrange(0, k));
    } else {
        assert(f.subrange(0, k) =~= f);
    }
}

pub(crate) proof fn lemma_percent_bound(part: int, total: int)
    requires
        0 <= part <= total,
        total > 0,
    ensures
        0 <= part * 100 / total <= 100,
{
    assert(part * 100 <= total * 100) by (nonlinear_arith)
        requires
            0 <= part <= total,
    ;
    assert(0 <= part * 100 / total <= 100) by (nonlinear_arith)
        requires
            0 <= part * 100 <= total * 100,
            total > 0,
    ;
}

impl CpuInfo {
    /// Parses an aggregate CPU line: the label `cpu`, then clock-tick counters
    /// of which the fourth and fifth are idle time and the others busy time.
    pub fn parse(s: &str) -> (r: Result<CpuInfo, Error>)
        ensures
            r.is_ok() <==> cpu_line_ok(s@),
            r matches Ok(c) ==> c.idle_time == field_sum(cpu_fields(s@), true)
                && c.non_idle_time == field_sum(cpu_fields(s@), false),
            r matches Err(e) ==> e is ParseCpuError,
    {
        let chars = to_chars(s);
        CpuInfo::parse_chars(&chars)
    }

    /// [`CpuInfo::parse`] on a line given as characters.
    pub fn parse_chars(s: &Vec<char>) -> (r: Result<CpuInfo, Error>)
        ensures
            r.is_ok() <==> cpu_line_ok(s@),
            r matches Ok(c) ==> c.idle_time == field_sum(cpu_fields(s@), true)
                && c.non_idle_time == field_sum(cpu_fields(s@), false),
            r matches Err(e) ==> e is ParseCpuError,
    {
        let start = trim_start_index(s);
        proof {
            reveal_strlit("cpu");
        }
        let ghost t = s@.subrange(start as int, s@.len() as int);
        if !(3 < s.len() - start && s[start] == 'c' && s[start + 1] == 'p' && s[start + 2] == 'u'
            && is_space_char(s[start + 3])) {
            proof {
                if has_prefix(t, "cpu"@) && t.len() > 3 {
                    assert(t.subrange(0, 3)[0] == t[0]);
                    assert(t.subrange(0, 3)[1] == t[1]);
                    assert(t.subrange(0, 3)[2] == t[2]);
                }
            }
            return Err(Error::ParseCpuError);
        }
        assert(t.subrange(0, 3) =~= "cpu"@);
        let ws = split_words(s);
        let ghost all = view_all(ws@);
        if ws.len() == 0 {
            return Err(Error::ParseCpuError);
        }
        assert(all[0] == ws@[0]@);
        assert(ws@[0]@.subrange(0, ws@[0]@.len() as int) =~= ws@[0]@);
        if !(ws[0].len() == "cpu".unicode_len() && starts_with(&ws[0], "cpu")) {
            return Err(Error::ParseCpuError);
        }
        assert(ws@[0]@ =~= "cpu"@);
        let ghost f = all.drop_first();
        let mut idle: usize = 0;
        let mut busy: usize = 0;
        let mut i: usize = 1;
        while i < ws.len()
            invariant
                1 <= i <= ws@.len(),
                all == view_all(ws@),
                all == words(s@),
                f == all.drop_first(),
                forall|k: int| 0 <= k < i - 1 ==> is_number(#[trigger] f[k]),
                idle == field_sum(f.subrange(0, i - 1), true),
                busy == field_sum(f.subrange(0, i - 1), false),
            decreases ws@.len() - i,
        {
            assert(f[i - 1] == ws@[i as int]@);
            assert(f.subrange(0, i as int).drop_last() =~= f.subrange(0, i - 1));
            assert(f.subrange(0, i as int).last() == f[i - 1]);
            let v = match parse_number(&ws[i]) {
                Some(v) => v,
                None => {
                    proof {
                        let kind = is_idle_field(i - 1);
                        lemma_field_sum_prefix(f, i as int, kind);
                        assert(field_sum(f.subrange(0, i as int), kind) >= number_value(f[i - 1]));
                    }
                    return Err(Error::ParseCpuError);
                },
            };
            if i - 1 == 3 || i - 1 == 4 {
                if idle > usize::MAX - v {
                    proof {
                        lemma_field_sum_prefix(f, i as int, true);
                    }
                    return Err(Error::ParseCpuError);
                }
                idle = idle + v;
            } else {
                if busy > usize::MAX - v {
                    proof {
                        lemma_field_sum_prefix(f, i as int, false);
                    }
                    return Err(Error::ParseCpuError);
                }
                busy = busy + v;
            }
            i = i + 1;
        }
        assert(f.subrange(0, f.len() as int) =~= f);
        Ok(CpuInfo { idle_time: idle, non_idle_time: busy })
    }

    /// The busy percentage since `prev_cpu_info`, which then becomes this
    /// sample. Counters that went backwards count as unchanged.
    pub fn get_cpu_usage(self, prev_cpu_info: &mut CpuInfo) -> (r: usize)
        ensures
            r == cpu_usage(*old(prev_cpu_info), self),
            r <= 100,
            *final(prev_cpu_info) == self,
    {
        let total = self.idle_time as u128 + self.non_idle_time as u128;
        let prev_total = prev_cpu_info.idle_time as u128 + prev_cpu_info.non_idle_time as u128;
        let total_delta = total.saturating_sub(prev_total);
        let idle_delta = (self.idle_time as u128).saturating_sub(prev_cpu_info.idle_time as u128);
        let busy_delta = total_delta.saturating_sub(idle_delta);
        *prev_cpu_info = self;
        if total_delta == 0 {
            0
        } else {
            proof {
                lemma_percent_bound(busy_delta as int, total_delta as int);
            }
            ((busy_delta * 100) / total_delta) as usize
        }
    }
}

impl core::str::FromStr for CpuInfo {
    type Err = Error;

    /// Same as [`CpuInfo::parse`].
    fn from_str(s: &str) -> (r: Result<CpuInfo, Error>)
        ensures
            r.is_ok() <==> cpu_line_ok(s@),
            r matches Ok(c) ==> c.idle_time == field_sum(cpu_fields(s@), true)
                && c.non_idle_time == field_sum(cpu_fields(s@), false),
            r matches Err(e) ==> e is ParseCpuError,
    {
        CpuInfo::parse(s)
    }
}

/// Reads the aggregate CPU counters out of the kernel's statistics text.
pub struct CpuInfoIterator;

impl CpuInfoIterator {
    pub fn new() -> (r: CpuInfoIterator) {
        CpuInfoIterator
    }

    /// Picks the aggregate line out of the full statistics text `stat` and
    /// parses it; a text without such a line is a `ParseCpuError`.
    pub fn sample(&self, stat: &str) -> (r: Result<CpuInfo, Error>)
        ensures
            r matches Err(e) ==> e is ParseCpuError,
            aggregate_line(lines(stat@)) is None ==> r.is_err(),
            aggregate_line(lines(stat@)) matches Some(l) ==> {
                &&& r.is_ok() <==> cpu_line_ok(l)
                &&& r matches Ok(c) ==> c.idle_time == field_sum(cpu_fields(l), true)
                    && c.non_idle_time == field_sum(cpu_fields(l), false)
            },
    {
        let chars = to_chars(stat);
        let ls = split_lines(&chars);
        let ghost all = view_all(ls@);
        let mut i: usize = 0;
        assert(all.subrange(0, all.len() as int) =~= all);
        while i < ls.len()
            invariant
                i <= ls@.len(),
                all == view_all(ls@),
                all == lines(stat@),
                aggregate_line(all) == aggregate_line(all.subrange(i as int, all.len() as int)),
            decreases ls@.len() - i,
        {
            let ghost rest = all.subrange(i as int, all.len() as int);
            assert(rest[0] == ls@[i as int]@);
            assert(rest.drop_first() =~= all.subrange(i + 1, all.len() as int));
            if starts_with(&ls[i], "cpu ") {
                return CpuInfo::parse_chars(&ls[i]);
            }
            i = i + 1;
        }
        Err(Error::ParseCpuError)
    }
}

/// The source of aggregate CPU samples.
pub fn get_cpu_info() -> (r: CpuInfoIterator) {
    CpuInfoIterator
}

} // verus!
