use std::collections::BTreeSet;

use sys_monitor::utils::{
    backup_path, decimal_string, log_file_dir, path_has_extension, Rotation, RotationStep,
};
use sys_monitor::Error;

/// Moves `path` to its first free backup name within the file set `fs`.
fn rotate(fs: &mut BTreeSet<String>, path: &str) -> Result<String, Error> {
    let mut rotation = Rotation::start(path)?;
    loop {
        let candidate = rotation.candidate();
        match rotation.advance(fs.contains(&candidate)) {
            RotationStep::TryNext => {}
            RotationStep::MoveTo(dest) => {
                assert!(!fs.contains(&dest));
                let renamed = fs.remove(path);
                if renamed {
                    fs.insert(dest.clone());
                }
                return rotation.outcome(Some(dest), renamed);
            }
            RotationStep::Exhausted => return rotation.outcome(None, false),
        }
    }
}

fn test_backup(test_dir: &str, count: u32) {
    let test_file = format!("{test_dir}/test.txt");
    let mut fs = BTreeSet::new();
    for i in 1..=count {
        fs.insert(test_file.clone());
        rotate(&mut fs, &test_file).unwrap();
        let expected_file = format!("{test_dir}/test.txt-{i}");
        assert!(fs.contains(&expected_file));
    }
    assert!(!fs.contains(&test_file));
    assert!(!fs.contains(&format!("{test_dir}/test.txt-{}", count + 1)));
    assert_eq!(fs.len(), count as usize);
}

#[test]
fn backup_one_file() {
    test_backup("test_dir_1", 1);
}

#[test]
fn backup_two_file() {
    test_backup("test_dir_2", 2);
}

#[test]
fn backup_three_file() {
    test_backup("test_dir_3", 3);
}

#[test]
fn backup_after_many_existing() {
    test_backup("test_dir_many", 300);
}

#[test]
fn backup_fills_first_gap() {
    let mut fs = BTreeSet::new();
    for name in ["d/a.log", "d/a.log-1", "d/a.log-3"] {
        fs.insert(name.to_string());
    }
    assert_eq!(rotate(&mut fs, "d/a.log").unwrap(), "d/a.log-2");
    assert!(fs.contains("d/a.log-1") && fs.contains("d/a.log-3"));
}

#[test]
fn backup_failed_move_names_both_paths() {
    let rotation = Rotation::start("d/a.log").unwrap();
    let r = rotation.outcome(Some("d/a.log-1".to_string()), false);
    assert!(matches!(
        r,
        Err(Error::BackupFailed { source_file, destination_file: Some(d) })
            if source_file == "d/a.log" && d == "d/a.log-1"
    ));
}

#[test]
fn backup_requires_extension() {
    assert!(matches!(
        Rotation::start("dir/logfile"),
        Err(Error::BackupFailed { destination_file: None, .. })
    ));
    assert!(Rotation::start("dir.d/logfile").is_err());
    assert!(Rotation::start("dir/.hidden").is_err());
    assert!(Rotation::start("..").is_err());
    assert!(Rotation::start("dir/name.").is_ok());
}

#[test]
fn backup_names() {
    assert_eq!(backup_path("sys_perf.log", 1), "sys_perf.log-1");
    assert_eq!(backup_path("a/b.txt", 1207), "a/b.txt-1207");
    assert_eq!(decimal_string(0), "0");
    assert_eq!(decimal_string(u64::MAX), u64::MAX.to_string());
    assert!(path_has_extension("x/.a.b"));
    assert!(!path_has_extension("x.y/"));
}

#[test]
fn log_file_directory() {
    assert_eq!(log_file_dir("sys_perf.log"), None);
    assert_eq!(log_file_dir("logs/sys_perf.log"), Some("logs/".to_string()));
    assert_eq!(log_file_dir("/var/log/a.log"), Some("/var/log/".to_string()));
    assert_eq!(log_file_dir("/a.log"), Some("/".to_string()));
}
