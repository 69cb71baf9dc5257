//! Memory counters: parsing the head of the kernel's memory information and
//! deriving the used percentage.
use vstd::prelude::*;

use crate::cpu_info::sat_sub;
use crate::error::Error;
use crate::text::{
    has_prefix, is_number, lines, number_value, parse_number, split_lines, split_words,
    starts_with, to_chars, view_all, words,
};

verus! {

/// One reading of the memory counters, in kB.
#[derive(Debug, Clone, Copy, PartialEq, Eq, Structural)]
pub struct MemInfo {
    pub total_mem: usize,
    pub free_mem: usize,
    pub available_mem: usize,
}

/// The label that line `k` of the memory information must start with.
pub open spec fn mem_label(k: int) -> Seq<char> {
    if k == 0 {
        "MemTotal:"@
    } else if k == 1 {
        "MemFree:"@
    } else {
        "MemAvailable:"@
    }
}

/// `line` starts with `label` and its second word is a number that fits in
/// `usize`.
pub open spec fn mem_line_ok(line: Seq<char>, label: Seq<char>) -> bool {
    &&& has_prefix(line, label)
    &&& words(line).len() >= 2
    &&& is_number(words(line)[1])
    &&& number_value(words(line)[1]) <= usize::MAX
}

/// The value that a memory counter line carries: its second word.
pub open spec fn mem_line_value(line: Seq<char>) -> nat {
    number_value(words(line)[1])
}

/// The first three lines of `s` are the total, free and available memory, in
/// that order; later lines do not matter.
pub open spec fn mem_text_ok(s: Seq<char>) -> bool {
    let ls = lines(s);
    &&& ls.len() >= 3
    &&& mem_line_ok(ls[0], mem_label(0))
    &&& mem_line_ok(ls[1], mem_label(1))
    &&& mem_line_ok(ls[2], mem_label(2))
}

/// The used share of memory, in whole percent.
pub open spec fn mem_usage(m: MemInfo) -> int {
    sat_sub(m.total_mem as int, m.available_mem as int) * 100 / m.total_mem as int
}

/// Reads the value of one counter line that must start with `label`.
fn mem_value(line: &Vec<char>, label: &str) -> (r: Result<usize, Error>)
    ensures
        r.is_ok() <==> mem_line_ok(line@, label@),
        r matches Ok(v) ==> v == mem_line_value(line@),
        r matches Err(e) ==> e is ParseMemError,
{
    if !starts_with(line, label) {
        return Err(Error::ParseMemError(String::from_str("unexpected counter label")));
    }
    let ws = split_words(line);
    if ws.len() < 2 {
        return Err(Error::ParseMemError(String::from_str("missing counter value")));
    }
    assert(view_all(ws@)[1] == ws@[1]@);
    match parse_number(&ws[1]) {
        Some(v) => Ok(v),
        None => Err(Error::ParseMemError(String::from_str("counter value is not an integer"))),
    }
}

impl MemInfo {
    /// Parses the memory information text: its first three lines must carry
    /// `MemTotal:`, `MemFree:` and `MemAvailable:`, in that order.
    pub fn parse(s: &str) -> (r: Result<MemInfo, Error>)
        ensures
            r.is_ok() <==> mem_text_ok(s@),
            r matches Ok(m) ==> {
                &&& m.total_mem == mem_line_value(lines(s@)[0])
                &&& m.free_mem == mem_line_value(lines(s@)[1])
                &&& m.available_mem == mem_line_value(lines(s@)[2])
            },
            r matches Err(e) ==> e is ParseMemError,
    {
        let chars = to_chars(s);
        let ls = split_lines(&chars);
        let ghost all = view_all(ls@);
        if ls.len() < 3 {
            return Err(Error::ParseMemError(String::from_str("expected three counter lines")));
        }
        assert(all[0] == ls@[0]@ && all[1] == ls@[1]@ && all[2] == ls@[2]@);
        let total_mem = mem_value(&ls[0], "MemTotal:")?;
        let free_mem = mem_value(&ls[1], "MemFree:")?;
        let available_mem = mem_value(&ls[2], "MemAvailable:")?;
        Ok(MemInfo { total_mem, free_mem, available_mem })
    }

    /// The used percentage of memory: what is not available, out of the total.
    pub fn get_mem_usage(&self) -> (r: usize)
        requires
            self.total_mem > 0,
        ensures
            r == mem_usage(*self),
            r <= 100,
    {
        let used = (self.total_mem as u128).saturating_sub(self.available_mem as u128);
        proof {
            crate::cpu_info::lemma_percent_bound(used as int, self.total_mem as int);
        }
        ((used * 100) / self.total_mem as u128) as usize
    }
}

impl core::str::FromStr for MemInfo {
    type Err = Error;

    /// Same as [`MemInfo::parse`].
    fn from_str(s: &str) -> (r: Result<MemInfo, Error>)
        ensures
            r.is_ok() <==> mem_text_ok(s@),
            r matches Ok(m) ==> {
                &&& m.total_mem == mem_line_value(lines(s@)[0])
                &&& m.free_mem == mem_line_value(lines(s@)[1])
                &&& m.available_mem == mem_line_value(lines(s@)[2])
            },
            r matches Err(e) ==> e is ParseMemError,
    {
        MemInfo::parse(s)
    }
}

/// Reads memory samples out of the kernel's memory information text.
pub struct MemInfoIterator;

impl MemInfoIterator {
    /// Parses one sample out of the full memory information text.
    pub fn sample(&self, meminfo: &str) -> (r: Result<MemInfo, Error>)
        ensures
            r.is_ok() <==> mem_text_ok(meminfo@),
            r matches Ok(m) ==> {
                &&& m.total_mem == mem_line_value(lines(meminfo@)[0])
                &&& m.free_mem == mem_line_value(lines(meminfo@)[1])
                &&& m.available_mem == mem_line_value(lines(meminfo@)[2])
            },
            r matches Err(e) ==> e is ParseMemError,
    {
        MemInfo::parse(meminfo)
    }
}

/// The source of memory samples.
pub fn get_mem_info() -> (r: MemInfoIterator) {
    MemInfoIterator
}

} // verus!
