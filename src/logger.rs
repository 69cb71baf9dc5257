//! The staged configuration builder and the decisions of the sampling loop:
//! derive both percentages each tick, pick the severity, and tell when the
//! configured duration has run out.
use vstd::prelude::*;

use crate::cpu_info::{cpu_usage, CpuInfo};
use crate::error::Error;
use crate::mem_info::{mem_usage, MemInfo};
use vstd::arithmetic::div_mod::{lemma_fundamental_div_mod, lemma_mod_pos_bound};

verus! {

/// Seconds in an hour.
pub const SECS_PER_HOUR: u128 = 3600;

/// Default sampling interval, in seconds.
pub const DEFAULT_INTERVAL: usize = 5;

/// Default CPU and memory thresholds, in percent.
pub const DEFAULT_THRESHOLD: usize = 90;

/// Severity of one emitted record.
#[derive(Debug, Clone, Copy, PartialEq, Eq, Structural)]
pub enum Level {
    Info,
    Warn,
}

/// What one tick emits: the severity and both percentages.
#[derive(Debug, Clone, Copy, PartialEq, Eq, Structural)]
pub struct Report {
    pub level: Level,
    pub cpu: usize,
    pub mem: usize,
}

/// A tick warns when either percentage reaches its threshold.
pub open spec fn level_for(cpu: int, mem: int, cpu_threshold: int, mem_threshold: int) -> Level {
    if cpu >= cpu_threshold || mem >= mem_threshold {
        Level::Warn
    } else {
        Level::Info
    }
}

/// With a duration of `duration` hours (0: none) and a sampling interval of
/// `interval` seconds, the loop has stopped once `ticks` intervals were slept.
pub open spec fn stopped_after(duration: int, interval: int, ticks: int) -> bool {
    duration > 0 && ticks * interval >= duration * 3600
}

/// The number of ticks that a run of `duration` hours (0: none) takes at one
/// sample every `interval` seconds: the duration divided by the interval,
/// rounded up.
pub open spec fn ticks_to_run(duration: nat, interval: nat) -> nat
    recommends
        interval > 0,
{
    ((duration * 3600 + interval - 1) / interval as int) as nat
}

/// A run limited to `duration` hours at one sample every `interval`
/// seconds has stopped after `k` ticks exactly when `k` has reached
/// [`ticks_to_run`]: it runs that many ticks, and does not stop before.
pub proof fn lemma_loop_stops_after_ticks_to_run(duration: nat, interval: nat, k: nat)
    requires
        duration > 0,
        interval > 0,
    ensures
        stopped_after(duration as int, interval as int, k as int) <==> k >= ticks_to_run(
            duration,
            interval,
        ),
{
    let d = duration * 3600;
    let i = interval as int;
    let x = d + i - 1;
    let n = x / i;
    lemma_fundamental_div_mod(x, i);
    lemma_mod_pos_bound(x, i);
    assert(n * i <= x && x < n * i + i) by (nonlinear_arith)
        requires
            x == i * n + x % i,
            0 <= x % i < i,
    ;
    assert(n >= 0) by (nonlinear_arith)
        requires
            x >= 0,
            i > 0,
            n == x / i,
    ;
    if k >= n {
        assert(k * i >= n * i) by (nonlinear_arith)
            requires
                k >= n,
                i > 0,
        ;
    } else {
        assert(k * i <= n * i - i) by (nonlinear_arith)
            requires
                k + 1 <= n,
                i > 0,
        ;
    }
}

/// The sampling loop's configuration and its one piece of mutable state, the
/// previous CPU sample.
pub struct Logger {
    duration: usize,
    interval: usize,
    cpu_threshold: usize,
    mem_threshold: usize,
    log_file: String,
    prev_cpu: CpuInfo,
    ticks: u128,
    cancelled: bool,
}

impl Logger {
    #[verifier::type_invariant]
    spec fn inv(self) -> bool {
        &&& self.interval > 0
        &&& self.cpu_threshold <= 100
        &&& self.mem_threshold <= 100
        &&& self.duration == 0 ==> self.ticks == 0
        &&& self.ticks * self.interval < self.duration * 3600 + self.interval
    }

    /// Hours to run; 0 runs until cancelled.
    pub closed spec fn spec_duration(&self) -> usize {
        self.duration
    }

    pub closed spec fn spec_interval(&self) -> usize {
        self.interval
    }

    pub closed spec fn spec_cpu_threshold(&self) -> usize {
        self.cpu_threshold
    }

    pub closed spec fn spec_mem_threshold(&self) -> usize {
        self.mem_threshold
    }

    pub closed spec fn spec_log_file(&self) -> Seq<char> {
        self.log_file@
    }

    /// The last CPU sample seen.
    pub closed spec fn spec_prev_cpu(&self) -> CpuInfo {
        self.prev_cpu
    }

    /// Ticks run so far (counted only when a duration is set).
    pub closed spec fn spec_ticks(&self) -> int {
        self.ticks as int
    }

    /// A stop was requested from outside.
    pub closed spec fn spec_cancelled(&self) -> bool {
        self.cancelled
    }

    /// The loop is over: it was cancelled, or the duration has run out.
    pub open spec fn is_stopped(&self) -> bool {
        ||| self.spec_cancelled()
        ||| stopped_after(self.spec_duration() as int, self.spec_interval() as int, self.spec_ticks())
    }

    /// A logger from validated settings; those left out take their defaults
    /// (no duration limit, 5 s, 90 %, 90 %).
    pub fn new(
        duration: Option<usize>,
        interval: Option<usize>,
        cpu_threshold: Option<usize>,
        mem_threshold: Option<usize>,
        log_file: String,
    ) -> (r: Logger)
        requires
            interval != Some(0usize),
            cpu_threshold matches Some(t) ==> t <= 100,
            mem_threshold matches Some(t) ==> t <= 100,
        ensures
            r.spec_duration() == (match duration { Some(d) => d, None => 0 }),
            r.spec_interval() == (match interval { Some(i) => i, None => DEFAULT_INTERVAL }),
            r.spec_cpu_threshold() == (match cpu_threshold { Some(t) => t, None => DEFAULT_THRESHOLD }),
            r.spec_mem_threshold() == (match mem_threshold { Some(t) => t, None => DEFAULT_THRESHOLD }),
            r.spec_log_file() == log_file@,
            r.spec_prev_cpu() == (CpuInfo { idle_time: 0, non_idle_time: 0 }),
            r.spec_ticks() == 0,
            !r.spec_cancelled(),
            r.spec_interval() > 0,
            r.spec_cpu_threshold() <= 100,
            r.spec_mem_threshold() <= 100,
    {
        Logger {
            duration: match duration {
                Some(d) => d,
                None => 0,
            },
            interval: match interval {
                Some(i) => i,
                None => DEFAULT_INTERVAL,
            },
            cpu_threshold: match cpu_threshold {
                Some(t) => t,
                None => DEFAULT_THRESHOLD,
            },
            mem_threshold: match mem_threshold {
                Some(t) => t,
                None => DEFAULT_THRESHOLD,
            },
            log_file,
            prev_cpu: CpuInfo { idle_time: 0, non_idle_time: 0 },
            ticks: 0,
            cancelled: false,
        }
    }

    /// Seconds to sleep between ticks.
    pub fn interval(&self) -> (r: usize)
        ensures
            r == self.spec_interval(),
            r > 0,
    {
        proof {
            use_type_invariant(self);
        }
        self.interval
    }

    /// The log file that records are written to.
    pub fn log_file(&self) -> (r: &String)
        ensures
            r@ == self.spec_log_file(),
    {
        &self.log_file
    }

    /// Seeds the previous CPU sample so that the first reported percentage
    /// covers a real interval.
    pub fn prime(&mut self, cpu: CpuInfo)
        ensures
            final(self).spec_prev_cpu() == cpu,
            final(self).spec_duration() == old(self).spec_duration(),
            final(self).spec_interval() == old(self).spec_interval(),
            final(self).spec_cpu_threshold() == old(self).spec_cpu_threshold(),
            final(self).spec_mem_threshold() == old(self).spec_mem_threshold(),
            final(self).spec_log_file() == old(self).spec_log_file(),
            final(self).spec_ticks() == old(self).spec_ticks(),
            final(self).spec_cancelled() == old(self).spec_cancelled(),
    {
        proof {
            use_type_invariant(&*self);
        }
        self.prev_cpu = cpu;
    }

    /// Records a stop request; the loop ends at the next tick boundary.
    pub fn cancel(&mut self)
        ensures
            final(self).spec_cancelled(),
            final(self).is_stopped(),
            final(self).spec_prev_cpu() == old(self).spec_prev_cpu(),
            final(self).spec_duration() == old(self).spec_duration(),
            final(self).spec_interval() == old(self).spec_interval(),
            final(self).spec_cpu_threshold() == old(self).spec_cpu_threshold(),
            final(self).spec_mem_threshold() == old(self).spec_mem_threshold(),
            final(self).spec_log_file() == old(self).spec_log_file(),
            final(self).spec_ticks() == old(self).spec_ticks(),
    {
        proof {
            use_type_invariant(&*self);
        }
        self.cancelled = true;
    }

    /// Whether the loop is over: a stop was requested, or the configured
    /// duration has been slept through.
    pub fn stopped(&self) -> (r: bool)
        ensures
            r == self.is_stopped(),
    {
        proof {
            use_type_invariant(self);
        }
        self.cancelled || self.duration > 0 && self.ticks * (self.interval as u128) >= (self.duration as u128)
            * SECS_PER_HOUR
    }

    /// The severity for a pair of percentages.
    pub fn level(&self, cpu_percent: usize, mem_percent: usize) -> (r: Level)
        ensures
            r == level_for(
                cpu_percent as int,
                mem_percent as int,
                self.spec_cpu_threshold() as int,
                self.spec_mem_threshold() as int,
            ),
    {
        if cpu_percent >= self.cpu_threshold || mem_percent >= self.mem_threshold {
            Level::Warn
        } else {
            Level::Info
        }
    }

    /// One tick after an interval's sleep: derives both percentages from the
    /// new samples, replaces the previous CPU sample, and counts the tick.
    pub fn tick(&mut self, cpu: CpuInfo, mem: &MemInfo) -> (r: Report)
        requires
            !old(self).is_stopped(),
            mem.total_mem > 0,
        ensures
            r.cpu == cpu_usage(old(self).spec_prev_cpu(), cpu),
            r.mem == mem_usage(*mem),
            r.level == level_for(
                r.cpu as int,
                r.mem as int,
                old(self).spec_cpu_threshold() as int,
                old(self).spec_mem_threshold() as int,
            ),
            final(self).spec_prev_cpu() == cpu,
            final(self).spec_ticks() == if old(self).spec_duration() > 0 {
                old(self).spec_ticks() + 1
            } else {
                old(self).spec_ticks()
            },
            final(self).spec_duration() == old(self).spec_duration(),
            final(self).spec_interval() == old(self).spec_interval(),
            final(self).spec_cpu_threshold() == old(self).spec_cpu_threshold(),
            final(self).spec_mem_threshold() == old(self).spec_mem_threshold(),
            final(self).spec_log_file() == old(self).spec_log_file(),
            final(self).spec_cancelled() == old(self).spec_cancelled(),
    {
        proof {
            use_type_invariant(&*self);
        }
        let mut prev = self.prev_cpu;
        let cpu_percent = cpu.get_cpu_usage(&mut prev);
        self.prev_cpu = prev;
        let mem_percent = mem.get_mem_usage();
        let level = self.level(cpu_percent, mem_percent);
        if self.duration > 0 {
            proof {
                let t = self.ticks as int;
                let i = self.interval as int;
                let d = self.duration as int * 3600;
                assert(t + 1 <= d && (t + 1) * i < d + i) by (nonlinear_arith)
                    requires
                        t * i < d,
                        i >= 1,
                        t >= 0,
                ;
            }
            self.ticks = self.ticks + 1;
        }
        Report { level, cpu: cpu_percent, mem: mem_percent }
    }
}

/// Builder stage once the log file is attached: the only stage that runs.
pub struct WithLogFile {
    log_file: String,
}

impl WithLogFile {
    /// The attached log file.
    pub closed spec fn spec_path(&self) -> Seq<char> {
        self.log_file@
    }
}

/// Builder stage before the log file is attached.
pub struct WithoutLogFile;

/// Staged configuration: each setting is checked as it is set, and only a
/// builder with a log file can produce a [`Logger`].
pub struct LoggerBuilder<State = WithoutLogFile> {
    duration: Option<usize>,
    interval: Option<usize>,
    cpu_threshold: Option<usize>,
    mem_threshold: Option<usize>,
    state: State,
}

impl<State> LoggerBuilder<State> {
    #[verifier::type_invariant]
    spec fn inv(self) -> bool {
        &&& self.interval != Some(0usize)
        &&& self.cpu_threshold matches Some(t) ==> t <= 100
        &&& self.mem_threshold matches Some(t) ==> t <= 100
    }

    pub closed spec fn spec_duration(&self) -> Option<usize> {
        self.duration
    }

    pub closed spec fn spec_interval(&self) -> Option<usize> {
        self.interval
    }

    pub closed spec fn spec_cpu_threshold(&self) -> Option<usize> {
        self.cpu_threshold
    }

    pub closed spec fn spec_mem_threshold(&self) -> Option<usize> {
        self.mem_threshold
    }

    /// The builder's stage, with what it holds.
    pub closed spec fn spec_state(&self) -> State {
        self.state
    }

    /// The builder holds the same settings as `other`.
    pub open spec fn same_settings<S>(&self, other: &LoggerBuilder<S>) -> bool {
        &&& self.spec_duration() == other.spec_duration()
        &&& self.spec_interval() == other.spec_interval()
        &&& self.spec_cpu_threshold() == other.spec_cpu_threshold()
        &&& self.spec_mem_threshold() == other.spec_mem_threshold()
    }

    /// Sets how many hours to run; `None` or 0 runs until cancelled.
    pub fn with_duration(self, duration: Option<usize>) -> (r: Self)
        ensures
            r.spec_duration() == duration,
            r.spec_interval() == self.spec_interval(),
            r.spec_cpu_threshold() == self.spec_cpu_threshold(),
            r.spec_mem_threshold() == self.spec_mem_threshold(),
            r.spec_state() == self.spec_state(),
    {
        proof {
            use_type_invariant(&self);
        }
        LoggerBuilder { duration, ..self }
    }

    /// Sets the sampling interval in seconds; 0 is refused.
    pub fn with_interval(self, interval: usize) -> (r: Result<Self, Error>)
        ensures
            r.is_err() <==> interval == 0,
            r matches Err(e) ==> e is LoggerValidationError,
            r matches Ok(b) ==> {
                &&& b.spec_interval() == Some(interval)
                &&& b.spec_duration() == self.spec_duration()
                &&& b.spec_cpu_threshold() == self.spec_cpu_threshold()
                &&& b.spec_mem_threshold() == self.spec_mem_threshold()
                &&& b.spec_state() == self.spec_state()
            },
    {
        proof {
            use_type_invariant(&self);
        }
        if interval == 0 {
            return Err(
                Error::LoggerValidationError(String::from_str("Expected interval > 0, got 0")),
            );
        }
        Ok(LoggerBuilder { interval: Some(interval), ..self })
    }

    /// Sets the CPU threshold in percent; above 100 is refused.
    pub fn with_cpu_threshold(self, cpu_threshold: usize) -> (r: Result<Self, Error>)
        ensures
            r.is_err() <==> cpu_threshold > 100,
            r matches Err(e) ==> e is LoggerValidationError,
            r matches Ok(b) ==> {
                &&& b.spec_cpu_threshold() == Some(cpu_threshold)
                &&& b.spec_duration() == self.spec_duration()
                &&& b.spec_interval() == self.spec_interval()
                &&& b.spec_mem_threshold() == self.spec_mem_threshold()
                &&& b.spec_state() == self.spec_state()
            },
    {
        proof {
            use_type_invariant(&self);
        }
        if cpu_threshold > 100 {
            return Err(
                Error::LoggerValidationError(
                    String::from_str("Expected 0 <= cpu_threshold <= 100"),
                ),
            );
        }
        Ok(LoggerBuilder { cpu_threshold: Some(cpu_threshold), ..self })
    }

    /// Sets the memory threshold in percent; above 100 is refused.
    pub fn with_mem_threshold(self, mem_threshold: usize) -> (r: Result<Self, Error>)
        ensures
            r.is_err() <==> mem_threshold > 100,
            r matches Err(e) ==> e is LoggerValidationError,
            r matches Ok(b) ==> {
                &&& b.spec_mem_threshold() == Some(mem_threshold)
                &&& b.spec_duration() == self.spec_duration()
                &&& b.spec_interval() == self.spec_interval()
                &&& b.spec_cpu_threshold() == self.spec_cpu_threshold()
                &&& b.spec_state() == self.spec_state()
            },
    {
        proof {
            use_type_invariant(&self);
        }
        if mem_threshold > 100 {
            return Err(
                Error::LoggerValidationError(
                    String::from_str("Expected 0 <= mem_threshold <= 100"),
                ),
            );
        }
        Ok(LoggerBuilder { mem_threshold: Some(mem_threshold), ..self })
    }

    /// Attaches the log file. `parent_is_dir` tells whether the file's
    /// directory exists (a bare file name lives in the current one); when it
    /// does not, the configuration is refused.
    pub fn with_log_file(self, log_file: &str, parent_is_dir: bool) -> (r: Result<
        LoggerBuilder<WithLogFile>,
        Error,
    >)
        ensures
            r.is_err() <==> !parent_is_dir,
            r matches Err(e) ==> e is LoggerValidationError,
            r matches Ok(b) ==> b.same_settings(&self) && b.spec_log_file() == log_file@,
    {
        proof {
            use_type_invariant(&self);
        }
        if !parent_is_dir {
            return Err(
                Error::LoggerValidationError(
                    String::from_str("Expected log_file path to exist"),
                ),
            );
        }
        Ok(LoggerBuilder {
            duration: self.duration,
            interval: self.interval,
            cpu_threshold: self.cpu_threshold,
            mem_threshold: self.mem_threshold,
            state: WithLogFile { log_file: String::from_str(log_file) },
        })
    }
}

impl LoggerBuilder {
    /// A builder with nothing set.
    pub fn new() -> (r: LoggerBuilder<WithoutLogFile>)
        ensures
            r.spec_duration() is None,
            r.spec_interval() is None,
            r.spec_cpu_threshold() is None,
            r.spec_mem_threshold() is None,
    {
        LoggerBuilder {
            duration: None,
            interval: None,
            cpu_threshold: None,
            mem_threshold: None,
            state: WithoutLogFile,
        }
    }
}

impl LoggerBuilder<WithLogFile> {
    pub open spec fn spec_log_file(&self) -> Seq<char> {
        self.spec_state().spec_path()
    }

    /// The configured sampling loop, ready to be primed and ticked; settings
    /// left unset take their defaults.
    pub fn run(self) -> (r: Logger)
        ensures
            r.spec_duration() == (match self.spec_duration() { Some(d) => d, None => 0 }),
            r.spec_interval() == (match self.spec_interval() {
                Some(i) => i,
                None => DEFAULT_INTERVAL,
            }),
            r.spec_cpu_threshold() == (match self.spec_cpu_threshold() {
                Some(t) => t,
                None => DEFAULT_THRESHOLD,
            }),
            r.spec_mem_threshold() == (match self.spec_mem_threshold() {
                Some(t) => t,
                None => DEFAULT_THRESHOLD,
            }),
            r.spec_log_file() == self.spec_log_file(),
            r.spec_prev_cpu() == (CpuInfo { idle_time: 0, non_idle_time: 0 }),
            r.spec_ticks() == 0,
            !r.is_stopped(),
            r.spec_duration() > 0 ==> forall|k: nat|
                #[trigger] stopped_after(r.spec_duration() as int, r.spec_interval() as int, k as int)
                    <==> k >= ticks_to_run(r.spec_duration() as nat, r.spec_interval() as nat),
    {
        proof {
            use_type_invariant(&self);
        }
        let r = Logger::new(
            self.duration,
            self.interval,
            self.cpu_threshold,
            self.mem_threshold,
            self.state.log_file,
        );
        proof {
            if r.spec_duration() > 0 {
                assert forall|k: nat|
                    #[trigger] stopped_after(r.spec_duration() as int, r.spec_interval() as int, k as int)
                        <==> k >= ticks_to_run(r.spec_duration() as nat, r.spec_interval() as nat) by {
                    lemma_loop_stops_after_ticks_to_run(r.spec_duration() as nat, r.spec_interval() as nat, k);
                }
            }
        }
        r
    }
}

} // verus!
