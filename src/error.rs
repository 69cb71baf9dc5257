//! The library's error type.
use vstd::prelude::*;

verus! {

/// What can go wrong while configuring, rotating the log file or parsing the
/// kernel's counters.
#[derive(Debug)]
pub enum Error {
    Custom(String),
    /// No free numbered backup name could be chosen for `source_file`, or the
    /// move into `destination_file` failed.
    BackupFailed { source_file: String, destination_file: Option<String> },
    /// The aggregate CPU line is missing or malformed.
    ParseCpuError,
    /// A memory counter line is missing, out of order or not a number.
    ParseMemError(String),
    /// A configuration value is out of range.
    LoggerValidationError(String),
}

pub type Result<T> = core::result::Result<T, Error>;

impl Error {
    /// An error carrying a free-form message.
    pub fn custom(val: &str) -> (r: Error)
        ensures
            r matches Error::Custom(m) && m@ == val@,
    {
        Error::Custom(String::from_str(val))
    }
}

impl From<&str> for Error {
    /// A free-form error carrying `value`.
    fn from(value: &str) -> (r: Error)
        ensures
            r matches Error::Custom(m) && m@ == value@,
    {
        Error::custom(value)
    }
}

/// `from` states its result in its own contract: a `Custom` error whose
/// message reads as `v`. Which `String` holds that message is not fixed, so
/// no single value is promised here.
impl vstd::std_specs::convert::FromSpecImpl<&str> for Error {
    open spec fn obeys_from_spec() -> bool {
        false
    }

    open spec fn from_spec(v: &str) -> Error {
        Error::Custom(choose|m: String| #[trigger] m@ == v@)
    }
}

} // verus!
