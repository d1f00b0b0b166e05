use steghunt::{check_config, clock, percent, ConfigError, Mode, RunState, SubOp};

#[test]
fn seed_miss_leaves_found_unchanged() {
    let mut r = RunState::new(Mode::Detect, 1);
    assert_eq!(r.start_candidate(), SubOp::Seed);
    let s = r.record(true);
    assert!(!s.log_found);
    assert_eq!(s.next, None);
    assert_eq!(r.files_found, 0);
    assert_eq!(r.files_processed, 1);
    assert!(r.is_done());
    assert!(r.found_nothing());
}

#[test]
fn seed_hit_is_logged() {
    let mut r = RunState::new(Mode::Detect, 2);
    r.start_candidate();
    let s = r.record(false);
    assert!(s.log_found);
    assert_eq!(r.files_found, 1);
    assert!(!r.is_done());
    assert!(!r.found_nothing());
}

#[test]
fn crack_success_counts() {
    let mut r = RunState::new(Mode::Crack, 1);
    assert_eq!(r.start_candidate(), SubOp::Crack);
    let s = r.record(false);
    assert!(!s.log_found);
    assert_eq!(s.next, None);
    assert_eq!(r.files_cracked, 1);
    assert_eq!(r.files_found, 0);
    assert!(r.is_done());
}

#[test]
fn detect_then_crack_sequence() {
    let mut r = RunState::new(Mode::DetectThenCrack, 3);
    // seed fails: no crack
    assert_eq!(r.start_candidate(), SubOp::Seed);
    assert_eq!(r.record(true).next, None);
    assert_eq!(r.files_processed, 1);
    // seed succeeds, crack fails
    r.start_candidate();
    let s = r.record(false);
    assert!(s.log_found);
    assert_eq!(s.next, Some(SubOp::Crack));
    assert_eq!(r.files_processed, 1);
    assert_eq!(r.record(true).next, None);
    assert_eq!(r.files_processed, 2);
    // seed and crack succeed
    r.start_candidate();
    assert_eq!(r.record(false).next, Some(SubOp::Crack));
    assert_eq!(r.record(false).next, None);
    assert_eq!(r.files_processed, 3);
    assert_eq!(r.files_found, 2);
    assert_eq!(r.files_cracked, 1);
    assert!(r.files_cracked <= r.files_found);
    assert!(r.is_done());
}

#[test]
fn empty_run_is_done() {
    let r = RunState::new(Mode::Detect, 0);
    assert!(r.is_done());
    let p = r.progress(0);
    assert_eq!(p.percent, 0);
}

#[test]
fn progress_fields() {
    let mut r = RunState::new(Mode::DetectThenCrack, 3);
    r.start_candidate();
    r.record(true);
    let p = r.progress(3725);
    assert_eq!(p.files_processed, 1);
    assert_eq!(p.files_total, 3);
    assert_eq!(p.percent, 33);
    assert_eq!((p.hours, p.minutes, p.seconds), (1, 2, 5));
    assert_eq!(p.found, Some(0));
    assert_eq!(p.cracked, Some(0));
    let q = RunState::new(Mode::Detect, 1).progress(0);
    assert_eq!(q.cracked, None);
    assert_eq!(q.found, Some(0));
    let c = RunState::new(Mode::Crack, 1).progress(0);
    assert_eq!(c.found, None);
}

#[test]
fn percent_and_clock() {
    assert_eq!(percent(0, 0), 0);
    assert_eq!(percent(1, 3), 33);
    assert_eq!(percent(2, 3), 66);
    assert_eq!(percent(3, 3), 100);
    assert_eq!(percent(u64::MAX, u64::MAX), 100);
    assert_eq!(clock(59), (0, 0, 59));
    assert_eq!(clock(3600), (1, 0, 0));
}

#[test]
fn config_errors() {
    assert_eq!(check_config(Mode::Detect, false, false), Ok(()));
    assert_eq!(check_config(Mode::Crack, false, true), Err(ConfigError::MissingWordlist));
    assert_eq!(check_config(Mode::DetectThenCrack, true, false), Err(ConfigError::MissingOutputDir));
    assert_eq!(check_config(Mode::DetectThenCrack, true, true), Ok(()));
}
