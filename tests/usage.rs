use sys_monitor::logger::{Level, Logger, LoggerBuilder};
use sys_monitor::{CpuInfo, Error, MemInfo};

#[test]
fn cpu_usage_half_busy() {
    let mut prev = CpuInfo { idle_time: 100, non_idle_time: 100 };
    let cur = CpuInfo { idle_time: 150, non_idle_time: 150 };
    assert_eq!(cur.get_cpu_usage(&mut prev), 50);
    assert_eq!(prev, cur);
}

#[test]
fn cpu_usage_without_elapsed_time_is_zero() {
    let mut prev = CpuInfo { idle_time: 100, non_idle_time: 100 };
    let cur = CpuInfo { idle_time: 100, non_idle_time: 100 };
    assert_eq!(cur.get_cpu_usage(&mut prev), 0);
}

#[test]
fn cpu_usage_after_counter_reset_does_not_fault() {
    let mut prev = CpuInfo { idle_time: 1000, non_idle_time: 1000 };
    let cur = CpuInfo { idle_time: 10, non_idle_time: 10 };
    assert_eq!(cur.get_cpu_usage(&mut prev), 0);
    assert_eq!(prev, cur);
}

#[test]
fn cpu_usage_rounds_down() {
    let mut prev = CpuInfo { idle_time: 0, non_idle_time: 0 };
    let cur = CpuInfo { idle_time: 2, non_idle_time: 1 };
    assert_eq!(cur.get_cpu_usage(&mut prev), 33);
}

#[test]
fn mem_usage_of_sample() {
    let m = MemInfo { total_mem: 16244496, free_mem: 5714272, available_mem: 10846148 };
    assert_eq!(m.get_mem_usage(), 33);
}

#[test]
fn config_rejects_zero_interval() {
    let r = LoggerBuilder::new().with_interval(0);
    assert!(matches!(r, Err(Error::LoggerValidationError(_))));
}

#[test]
fn config_rejects_threshold_above_hundred() {
    let r = LoggerBuilder::new().with_cpu_threshold(101);
    assert!(matches!(r, Err(Error::LoggerValidationError(_))));
    let r = LoggerBuilder::new().with_mem_threshold(101);
    assert!(matches!(r, Err(Error::LoggerValidationError(_))));
}

#[test]
fn config_rejects_missing_directory() {
    let r = LoggerBuilder::new().with_log_file("missing/dir/log.txt", false);
    assert!(matches!(r, Err(Error::LoggerValidationError(_))));
}

#[test]
fn config_builds_logger_with_settings_and_defaults() {
    let logger = LoggerBuilder::new()
        .with_duration(None)
        .with_interval(7)
        .unwrap()
        .with_cpu_threshold(100)
        .unwrap()
        .with_log_file("sys_perf.log", true)
        .unwrap()
        .run();
    assert_eq!(logger.interval(), 7);
    assert_eq!(logger.log_file(), "sys_perf.log");
    assert_eq!(logger.level(99, 89), Level::Info);
    assert_eq!(logger.level(100, 0), Level::Warn);
    assert_eq!(logger.level(0, 90), Level::Warn);
    assert!(!logger.stopped());
}

#[test]
fn tick_reports_both_percentages() {
    let mut logger = Logger::new(None, Some(1), Some(40), Some(90), "x.log".to_string());
    logger.prime(CpuInfo { idle_time: 100, non_idle_time: 100 });
    let mem = MemInfo { total_mem: 16244496, free_mem: 5714272, available_mem: 10846148 };
    let report = logger.tick(CpuInfo { idle_time: 150, non_idle_time: 150 }, &mem);
    assert_eq!(report.cpu, 50);
    assert_eq!(report.mem, 33);
    assert_eq!(report.level, Level::Warn);
    let report = logger.tick(CpuInfo { idle_time: 250, non_idle_time: 150 }, &mem);
    assert_eq!(report.cpu, 0);
    assert_eq!(report.level, Level::Info);
    assert!(!logger.stopped());
}

#[test]
fn loop_stops_after_duration_in_ticks() {
    // one hour at 1000 s per tick: 3.6 ticks, rounded up to 4
    let mut logger = Logger::new(Some(1), Some(1000), None, None, "x.log".to_string());
    let mem = MemInfo { total_mem: 100, free_mem: 50, available_mem: 50 };
    let mut ticks = 0;
    while !logger.stopped() {
        logger.tick(CpuInfo { idle_time: ticks, non_idle_time: ticks }, &mem);
        ticks += 1;
    }
    assert_eq!(ticks, 4);
}

#[test]
fn loop_stops_after_exact_division() {
    let mut logger = Logger::new(Some(1), Some(5), None, None, "x.log".to_string());
    let mem = MemInfo { total_mem: 100, free_mem: 50, available_mem: 50 };
    let mut ticks = 0;
    while !logger.stopped() {
        logger.tick(CpuInfo { idle_time: 0, non_idle_time: 0 }, &mem);
        ticks += 1;
    }
    assert_eq!(ticks, 720);
}

#[test]
fn loop_without_duration_keeps_running() {
    let mut logger = Logger::new(Some(0), Some(1), None, None, "x.log".to_string());
    let mem = MemInfo { total_mem: 100, free_mem: 50, available_mem: 50 };
    for _ in 0..10000 {
        logger.tick(CpuInfo { idle_time: 0, non_idle_time: 0 }, &mem);
    }
    assert!(!logger.stopped());
}

#[test]
fn setters_keep_attached_log_file() {
    let logger = LoggerBuilder::new()
        .with_log_file("kept.log", true)
        .unwrap()
        .with_interval(3)
        .unwrap()
        .with_duration(Some(2))
        .with_mem_threshold(10)
        .unwrap()
        .run();
    assert_eq!(logger.log_file(), "kept.log");
    assert_eq!(logger.interval(), 3);
    assert_eq!(logger.level(0, 10), Level::Warn);
}

#[test]
fn cancel_stops_at_next_boundary() {
    let mut logger = Logger::new(None, Some(1), None, None, "x.log".to_string());
    let mem = MemInfo { total_mem: 100, free_mem: 50, available_mem: 50 };
    logger.tick(CpuInfo { idle_time: 1, non_idle_time: 1 }, &mem);
    assert!(!logger.stopped());
    logger.cancel();
    assert!(logger.stopped());
}
