use sys_monitor::cpu_info::{get_cpu_info, CpuInfoIterator};
use sys_monitor::mem_info::get_mem_info;
use sys_monitor::{CpuInfo, Error, MemInfo};

#[test]
fn test_cpu_info_parse() {
    let input = "cpu  770783 692 470657 25913724 58979 93595 25985 0 0 0".to_string();
    let expected = CpuInfo {
        idle_time: 25972703,
        non_idle_time: 1361712,
    };

    assert_eq!(input.parse::<CpuInfo>().unwrap(), expected);
}

#[test]
fn cpu_info_test_cpu_info_parse() {
    let input = "cpu  770783 692 470657 25913724 58979 93595 25985 0 0 0".to_string();
    let expected = CpuInfo {
        idle_time: 25972703,
        non_idle_time: 1361712,
    };

    assert_eq!(CpuInfo::parse(&input).unwrap(), expected);
}

#[test]
fn test_cpu_info_parse_empty_line() {
    let input = "".to_string();

    assert!(input
        .parse::<CpuInfo>()
        .is_err_and(|e| { matches!(e, Error::ParseCpuError) }));
}

#[test]
fn cpu_parse_single_space_label() {
    let parsed = CpuInfo::parse("cpu 770783 692 470657 25913724 58979 93595 25985 0 0 0").unwrap();
    assert_eq!(parsed.idle_time, 25972703);
    assert_eq!(parsed.non_idle_time, 1361712);
}

#[test]
fn cpu_parse_rejects_per_core_line() {
    assert!(matches!(CpuInfo::parse("cpu0 1 2 3 4 5"), Err(Error::ParseCpuError)));
}

#[test]
fn cpu_parse_rejects_non_numeric_field() {
    assert!(matches!(CpuInfo::parse("cpu 1 2 x 4 5"), Err(Error::ParseCpuError)));
    assert!(matches!(CpuInfo::parse("cpu 1 2 -3 4 5"), Err(Error::ParseCpuError)));
}

#[test]
fn cpu_parse_rejects_overflowing_sum() {
    let line = format!("cpu {} {}", usize::MAX, 1);
    assert!(matches!(CpuInfo::parse(&line), Err(Error::ParseCpuError)));
    let too_big = format!("cpu 1 2 3 {}0", usize::MAX);
    assert!(matches!(CpuInfo::parse(&too_big), Err(Error::ParseCpuError)));
}

#[test]
fn cpu_source_picks_aggregate_line() {
    let stat = "intr 5 6\ncpu  10 20 30 40 50 60\ncpu0 1 1 1 1 1 1\n";
    let sample = get_cpu_info().sample(stat).unwrap();
    assert_eq!(sample, CpuInfo { idle_time: 90, non_idle_time: 120 });
    let none = CpuInfoIterator::new().sample("cpu0 1 2 3\nintr 4\n");
    assert!(matches!(none, Err(Error::ParseCpuError)));
}

#[test]
fn test_mem_parse() {
    let input = r#"MemTotal:       16244496 kB
MemFree:         5714272 kB
MemAvailable:   10846148 kB
        "#;
    let expected = MemInfo {
        total_mem: 16244496,
        free_mem: 5714272,
        available_mem: 10846148,
    };
    let actual: MemInfo = input.parse().unwrap();
    assert_eq!(expected, actual);
}

#[test]
fn test_mem_parse_additional_lines() {
    let input = r#"MemTotal:       16244496 kB
MemFree:         5714272 kB
MemAvailable:   10846148 kB
Buffers:          330816 kB
Cached:          4974880 kB
SwapCached:            0 kB
Active:          5647380 kB
Inactive:        3942952 kB
Active(anon):    4390464 kB
Inactive(anon):        0 kB
Active(file):    1256916 kB
        "#;
    let expected = MemInfo {
        total_mem: 16244496,
        free_mem: 5714272,
        available_mem: 10846148,
    };
    let actual: MemInfo = input.parse().unwrap();
    assert_eq!(expected, actual);
}

#[test]
fn test_mem_parse_not_enough_lines() {
    let input = r#"MemTotal:       16244496 kB
MemFree:         5714272 kB
        "#;
    let actual = input.parse::<MemInfo>();
    assert!(actual.is_err_and(|e| matches!(e, Error::ParseMemError(_))));
}

#[test]
fn mem_parse_two_lines_without_trailing_text() {
    let input = "MemTotal:       16244496 kB\nMemFree:         5714272 kB\n";
    assert!(matches!(MemInfo::parse(input), Err(Error::ParseMemError(_))));
}

#[test]
fn mem_parse_rejects_out_of_order_lines() {
    let input = "MemFree: 1 kB\nMemTotal: 2 kB\nMemAvailable: 3 kB\n";
    assert!(matches!(MemInfo::parse(input), Err(Error::ParseMemError(_))));
}

#[test]
fn mem_parse_rejects_non_numeric_value() {
    let input = "MemTotal: lots kB\nMemFree: 1 kB\nMemAvailable: 3 kB\n";
    assert!(matches!(MemInfo::parse(input), Err(Error::ParseMemError(_))));
    let missing = "MemTotal:\nMemFree: 1 kB\nMemAvailable: 3 kB\n";
    assert!(matches!(MemInfo::parse(missing), Err(Error::ParseMemError(_))));
}

#[test]
fn mem_source_parses_sample() {
    let input = "MemTotal: 100 kB\nMemFree: 20 kB\nMemAvailable: 25 kB";
    let sample = get_mem_info().sample(input).unwrap();
    assert_eq!(sample, MemInfo { total_mem: 100, free_mem: 20, available_mem: 25 });
}

#[test]
fn custom_error_keeps_message() {
    assert!(matches!(Error::custom("boom"), Error::Custom(m) if m == "boom"));
}

#[test]
fn cpu_parse_rejects_bare_label() {
    assert!(matches!(CpuInfo::parse("cpu"), Err(Error::ParseCpuError)));
    assert!(matches!(CpuInfo::parse("   cpu"), Err(Error::ParseCpuError)));
    assert!(matches!(CpuInfo::parse("intr 1 2"), Err(Error::ParseCpuError)));
}

#[test]
fn cpu_parse_label_then_whitespace() {
    assert_eq!(CpuInfo::parse("cpu ").unwrap(), CpuInfo { idle_time: 0, non_idle_time: 0 });
    assert_eq!(
        CpuInfo::parse("  cpu\t1 2 3 4 5 6").unwrap(),
        CpuInfo { idle_time: 9, non_idle_time: 12 }
    );
}

#[test]
fn cpu_parse_unicode_whitespace_separates_fields() {
    let parsed = "cpu\u{A0}1\u{2003}2 3 4 5".parse::<CpuInfo>().unwrap();
    assert_eq!(parsed, CpuInfo { idle_time: 9, non_idle_time: 6 });
}

#[test]
fn str_converts_into_custom_error() {
    let e: Error = "boom".into();
    assert!(matches!(e, Error::Custom(m) if m == "boom"));
}
