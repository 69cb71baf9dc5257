//! Numbered backups of the log file. The decisions live here: which name the
//! `n`-th backup gets, and how the search for a free number proceeds; the
//! caller looks at the file system and performs the move.
use vstd::prelude::*;

use crate::error::Error;

verus! {

pub open spec fn digit_char(d: nat) -> char
    recommends
        d < 10,
{
    if d == 0 {
        '0'
    } else if d == 1 {
        '1'
    } else if d == 2 {
        '2'
    } else if d == 3 {
        '3'
    } else if d == 4 {
        '4'
    } else if d == 5 {
        '5'
    } else if d == 6 {
        '6'
    } else if d == 7 {
        '7'
    } else if d == 8 {
        '8'
    } else {
        '9'
    }
}

/// The decimal digits of `n`, without leading zeros.
pub open spec fn decimal(n: nat) -> Seq<char>
    decreases n,
{
    if n < 10 {
        seq![digit_char(n)]
    } else {
        decimal(n / 10).push(digit_char(n % 10))
    }
}

/// Where the file name of path `p` starts: after its last `/`.
pub open spec fn name_start(p: Seq<char>) -> int
    decreases p.len(),
{
    if p.len() == 0 {
        0
    } else if p.last() == '/' {
        p.len() as int
    } else {
        name_start(p.drop_last())
    }
}

/// The file name of `p` has an extension: a `.` after its first character,
/// the name `..` aside.
pub open spec fn has_extension(p: Seq<char>) -> bool {
    let s = name_start(p);
    &&& p.subrange(s, p.len() as int) != seq!['.', '.']
    &&& exists|i: int| s < i < p.len() && p[i] == '.'
}

/// The `n`-th backup of `p`: its extension `ext` becomes `ext-n`, which
/// appends `-n` to the path.
pub open spec fn backup_name(p: Seq<char>, n: nat) -> Seq<char> {
    p + "-"@ + decimal(n)
}

/// The paths of the first `n` backups of `p`.
pub open spec fn backups_upto(p: Seq<char>, n: nat) -> Set<Seq<char>> {
    Set::new(|q: Seq<char>| exists|i: nat| 1 <= i <= n && q == backup_name(p, i))
}

/// `n` is the first backup number of `p` that the set of existing paths `fs`
/// leaves free.
pub open spec fn first_free(fs: Set<Seq<char>>, p: Seq<char>, n: nat) -> bool {
    &&& n >= 1
    &&& !fs.contains(backup_name(p, n))
    &&& forall|i: nat| 1 <= i < n ==> fs.contains(#[trigger] backup_name(p, i))
}

proof fn lemma_decimal_len(n: nat)
    ensures
        decimal(n).len() >= 1,
        n >= 10 ==> decimal(n).len() >= 2,
    decreases n,
{
    if n >= 10 {
        lemma_decimal_len(n / 10);
    }
}

proof fn lemma_decimal_injective(a: nat, b: nat)
    requires
        decimal(a) == decimal(b),
    ensures
        a == b,
    decreases a,
{
    lemma_decimal_len(a);
    lemma_decimal_len(b);
    if a >= 10 && b >= 10 {
        assert(decimal(a).drop_last() =~= decimal(a / 10));
        assert(decimal(b).drop_last() =~= decimal(b / 10));
        lemma_decimal_injective(a / 10, b / 10);
        assert(decimal(a).last() == digit_char(a % 10));
        assert(decimal(b).last() == digit_char(b % 10));
        assert(a % 10 == b % 10);
    } else if a < 10 && b < 10 {
        assert(decimal(a)[0] == digit_char(a));
        assert(decimal(b)[0] == digit_char(b));
    }
}

/// Distinct numbers give distinct backup names, and none is the path itself.
pub proof fn lemma_backup_names_distinct(p: Seq<char>, i: nat, j: nat)
    ensures
        backup_name(p, i) != p,
        i != j ==> backup_name(p, i) != backup_name(p, j),
{
    let pre = p + "-"@;
    if backup_name(p, i) == backup_name(p, j) {
        assert(decimal(i) =~= backup_name(p, i).subrange(pre.len() as int, backup_name(p, i).len() as int));
        assert(decimal(j) =~= backup_name(p, j).subrange(pre.len() as int, backup_name(p, j).len() as int));
        lemma_decimal_injective(i, j);
    }
    lemma_decimal_len(i);
    assert(backup_name(p, i).len() > p.len());
}

/// Rotating a log file `p` whose backups `1..n-1` already exist, as after
/// `n - 1` earlier rotations: the first free number is `n`, the move takes no
/// existing name, afterwards exactly the backups `1..n` exist and `p` is free,
/// and those `n` backups are distinct files.
pub proof fn lemma_rotation_sequence(p: Seq<char>, n: nat)
    requires
        n >= 1,
    ensures
        ({
            let before = backups_upto(p, (n - 1) as nat).insert(p);
            let after = before.remove(p).insert(backup_name(p, n));
            &&& first_free(before, p, n)
            &&& !before.contains(backup_name(p, n))
            &&& after =~= backups_upto(p, n)
            &&& !after.contains(p)
            &&& forall|i: nat, j: nat|
                1 <= i <= n && 1 <= j <= n && i != j ==> backup_name(p, i) != backup_name(p, j)
        }),
{
    let before = backups_upto(p, (n - 1) as nat).insert(p);
    let after = before.remove(p).insert(backup_name(p, n));
    lemma_backup_names_distinct(p, n, n);
    assert(!backups_upto(p, (n - 1) as nat).contains(backup_name(p, n))) by {
        if backups_upto(p, (n - 1) as nat).contains(backup_name(p, n)) {
            let i = choose|i: nat| 1 <= i <= n - 1 && backup_name(p, n) == backup_name(p, i);
            lemma_backup_names_distinct(p, n, i);
        }
    }
    assert forall|i: nat| 1 <= i < n implies before.contains(#[trigger] backup_name(p, i)) by {
        assert(backups_upto(p, (n - 1) as nat).contains(backup_name(p, i)));
    }
    assert forall|q: Seq<char>| after.contains(q) <==> backups_upto(p, n).contains(q) by {
        if backups_upto(p, n).contains(q) {
            let i = choose|i: nat| 1 <= i <= n && q == backup_name(p, i);
            lemma_backup_names_distinct(p, i, i);
            if i < n {
                assert(backups_upto(p, (n - 1) as nat).contains(q));
            }
        }
        if after.contains(q) && q != backup_name(p, n) {
            let i = choose|i: nat| 1 <= i <= n - 1 && q == backup_name(p, i);
            assert(backups_upto(p, n).contains(q));
        }
    }
    assert forall|i: nat, j: nat|
        1 <= i <= n && 1 <= j <= n && i != j implies backup_name(p, i) != backup_name(p, j) by {
        lemma_backup_names_distinct(p, i, j);
    }
    assert(!after.contains(p)) by {
        if after.contains(p) {
            let i = choose|i: nat| 1 <= i <= n && p == backup_name(p, i);
            lemma_backup_names_distinct(p, i, i);
        }
    }
}

fn digit_str(d: u64) -> (r: &'static str)
    requires
        d < 10,
    ensures
        r@ == seq![digit_char(d as nat)],
{
    proof {
        reveal_strlit("0");
        reveal_strlit("1");
        reveal_strlit("2");
        reveal_strlit("3");
        reveal_strlit("4");
        reveal_strlit("5");
        reveal_strlit("6");
        reveal_strlit("7");
        reveal_strlit("8");
        reveal_strlit("9");
    }
    if d == 0 {
        "0"
    } else if d == 1 {
        "1"
    } else if d == 2 {
        "2"
    } else if d == 3 {
        "3"
    } else if d == 4 {
        "4"
    } else if d == 5 {
        "5"
    } else if d == 6 {
        "6"
    } else if d == 7 {
        "7"
    } else if d == 8 {
        "8"
    } else {
        "9"
    }
}

/// The decimal digits of `n`.
pub fn decimal_string(n: u64) -> (r: String)
    ensures
        r@ == decimal(n as nat),
    decreases n,
{
    if n < 10 {
        String::from_str(digit_str(n))
    } else {
        let mut s = decimal_string(n / 10);
        s.append(digit_str(n % 10));
        s
    }
}

/// The path of the `n`-th backup of `log_file`.
pub fn backup_path(log_file: &str, n: u64) -> (r: String)
    ensures
        r@ == backup_name(log_file@, n as nat),
{
    let digits = decimal_string(n);
    String::from_str(log_file).concat("-").concat(digits.as_str())
}

/// Tells whether the file name of `p` has an extension.
pub fn path_has_extension(p: &str) -> (r: bool)
    ensures
        r == has_extension(p@),
{
    let chars = crate::text::to_chars(p);
    let mut start: usize = 0;
    let mut dot = false;
    let mut i: usize = 0;
    while i < chars.len()
        invariant
            chars@ == p@,
            i <= chars@.len(),
            start <= i,
            start == name_start(chars@.subrange(0, i as int)),
            dot == exists|j: int| start < j < i && chars@[j] == '.',
        decreases chars@.len() - i,
    {
        assert(chars@.subrange(0, i + 1).drop_last() =~= chars@.subrange(0, i as int));
        if chars[i] == '/' {
            start = i + 1;
            dot = false;
        } else if chars[i] == '.' && i > start {
            dot = true;
        }
        i = i + 1;
    }
    assert(chars@.subrange(0, chars@.len() as int) =~= chars@);
    let n = chars.len();
    let dotdot = n >= 2 && start == n - 2 && chars[n - 2] == '.' && chars[n - 1] == '.';
    proof {
        let name = chars@.subrange(start as int, n as int);
        if dotdot {
            assert(name =~= seq!['.', '.']);
        } else if name == seq!['.', '.'] {
            assert(name.len() == 2);
            assert(name[0] == chars@[n - 2]);
        }
    }
    dot && !dotdot
}

/// Where the file name of `p` starts: after its last `/`.
pub fn name_start_index(p: &Vec<char>) -> (r: usize)
    ensures
        r == name_start(p@),
        r <= p@.len(),
{
    let mut start: usize = 0;
    let mut i: usize = 0;
    while i < p.len()
        invariant
            i <= p@.len(),
            start <= i,
            start == name_start(p@.subrange(0, i as int)),
        decreases p@.len() - i,
    {
        assert(p@.subrange(0, i + 1).drop_last() =~= p@.subrange(0, i as int));
        if p[i] == '/' {
            start = i + 1;
        }
        i = i + 1;
    }
    assert(p@.subrange(0, p@.len() as int) =~= p@);
    start
}

/// The directory that must exist for `log_file` to be created: everything up
/// to its last `/`. A bare file name lives in the current directory, which
/// gives `None`.
pub fn log_file_dir(log_file: &str) -> (r: Option<String>)
    ensures
        r is None <==> name_start(log_file@) == 0,
        r matches Some(d) ==> d@ == log_file@.subrange(0, name_start(log_file@)),
{
    let chars = crate::text::to_chars(log_file);
    let start = name_start_index(&chars);
    if start == 0 {
        None
    } else {
        Some(String::from_str(log_file.substring_char(0, start)))
    }
}

/// What the search for a free backup number does next.
#[derive(Debug, PartialEq, Eq)]
pub enum RotationStep {
    /// The candidate exists: probe the next number.
    TryNext,
    /// The candidate is free: move the log file there.
    MoveTo(String),
    /// Every number is taken.
    Exhausted,
}

/// The search for the first free backup number of a log file, counting up
/// from 1. The caller tells for each candidate whether it exists.
pub struct Rotation {
    log_file: String,
    suffix: u64,
}

impl Rotation {
    pub closed spec fn spec_log_file(&self) -> Seq<char> {
        self.log_file@
    }

    /// The number that the next candidate carries.
    pub closed spec fn spec_suffix(&self) -> nat {
        self.suffix as nat
    }

    /// Starts the search for `log_file`, whose name must have an extension.
    pub fn start(log_file: &str) -> (r: Result<Rotation, Error>)
        ensures
            r.is_ok() <==> has_extension(log_file@),
            r matches Ok(rot) ==> rot.spec_log_file() == log_file@ && rot.spec_suffix() == 1,
            r matches Err(e) ==> (e matches Error::BackupFailed { source_file, destination_file }
                && source_file@ == log_file@ && destination_file is None),
    {
        if !path_has_extension(log_file) {
            return Err(
                Error::BackupFailed {
                    source_file: String::from_str(log_file),
                    destination_file: None,
                },
            );
        }
        Ok(Rotation { log_file: String::from_str(log_file), suffix: 1 })
    }

    /// The path that is probed now.
    pub fn candidate(&self) -> (r: String)
        ensures
            r@ == backup_name(self.spec_log_file(), self.spec_suffix()),
    {
        backup_path(self.log_file.as_str(), self.suffix)
    }

    /// Takes the answer for the current candidate: a free one is the
    /// destination, a taken one moves the search on to the next number.
    pub fn advance(&mut self, candidate_exists: bool) -> (r: RotationStep)
        ensures
            final(self).spec_log_file() == old(self).spec_log_file(),
            !candidate_exists ==> (r matches RotationStep::MoveTo(dest) && dest@ == backup_name(
                old(self).spec_log_file(),
                old(self).spec_suffix(),
            ) && final(self).spec_suffix() == old(self).spec_suffix()),
            (r matches RotationStep::MoveTo(_)) ==> !candidate_exists,
            final(self).spec_suffix() <= u64::MAX,
            candidate_exists && old(self).spec_suffix() < u64::MAX ==> r is TryNext
                && final(self).spec_suffix() == old(self).spec_suffix() + 1,
            candidate_exists && old(self).spec_suffix() == u64::MAX ==> r is Exhausted
                && final(self).spec_suffix() == old(self).spec_suffix(),
    {
        if !candidate_exists {
            return RotationStep::MoveTo(self.candidate());
        }
        if self.suffix == u64::MAX {
            return RotationStep::Exhausted;
        }
        self.suffix = self.suffix + 1;
        RotationStep::TryNext
    }

    /// The result of the move into `dest`: the backup path when `renamed`,
    /// else the failure naming both paths; `dest` is `None` when no free
    /// number was found.
    pub fn outcome(&self, dest: Option<String>, renamed: bool) -> (r: Result<String, Error>)
        ensures
            renamed && dest.is_some() ==> (r matches Ok(p) && p == dest.unwrap()),
            !(renamed && dest.is_some()) ==> (r matches Err(Error::BackupFailed {
                source_file,
                destination_file,
            }) && source_file@ == self.spec_log_file() && destination_file == dest),
    {
        match dest {
            Some(d) => {
                if renamed {
                    Ok(d)
                } else {
                    Err(
                        Error::BackupFailed {
                            source_file: self.log_file.clone(),
                            destination_file: Some(d),
                        },
                    )
                }
            },
            None => Err(
                Error::BackupFailed { source_file: self.log_file.clone(), destination_file: None },
            ),
        }
    }
}

} // verus!
