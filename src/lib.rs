//! Periodic CPU and memory utilization sampling with threshold warnings, and
//! numbered backups of the log file it writes to.
//!
//! The library holds the parsing of the kernel's counter texts, the
//! utilization arithmetic, the configuration builder, the decisions of the
//! sampling loop and of the backup-name search. Reading files, sleeping,
//! moving files and writing records are left to the caller.
pub mod cpu_info;
pub mod error;
pub mod logger;
pub mod mem_info;
pub mod text;
pub mod utils;

pub use cpu_info::CpuInfo;
pub use error::{Error, Result};
pub use logger::LoggerBuilder;
pub use mem_info::MemInfo;
