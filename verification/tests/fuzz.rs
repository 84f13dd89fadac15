use wgslsmith::fuzz::{classify_exit, split_metadata, trim, ExecutionResult, ExitError, SaveStrategy};

#[test]
fn crashes_are_saved_unless_ignored() {
    let crash = ExecutionResult::Crash("error: device lost".to_owned());
    assert!(crash.should_save(&SaveStrategy::All, None));
    assert!(crash.should_save(&SaveStrategy::Crashes, None));
    assert!(!crash.should_save(&SaveStrategy::Mismatches, None));
    assert!(!crash.should_save(&SaveStrategy::Debug, None));
    assert!(!crash.should_save(&SaveStrategy::All, Some("device lost")));
    assert!(crash.should_save(&SaveStrategy::All, Some("^timeout")));
}

#[test]
fn mismatches_are_saved_by_strategy() {
    let m = ExecutionResult::Mismatch;
    assert!(m.should_save(&SaveStrategy::All, Some("anything")));
    assert!(m.should_save(&SaveStrategy::Mismatches, None));
    assert!(!m.should_save(&SaveStrategy::Crashes, None));
    assert!(!ExecutionResult::Success.should_save(&SaveStrategy::All, None));
    assert!(!ExecutionResult::Timeout.should_save(&SaveStrategy::All, None));
}

#[test]
fn outcome_names() {
    assert_eq!(ExecutionResult::Success.name(), "success");
    assert_eq!(ExecutionResult::Crash(String::new()).name(), "crash");
    assert_eq!(ExecutionResult::Mismatch.name(), "mismatch");
    assert_eq!(ExecutionResult::Timeout.name(), "timeout");
}

#[test]
fn exit_codes_are_classified() {
    assert!(matches!(classify_exit(Some(0), String::new()), Ok(ExecutionResult::Success)));
    assert!(matches!(classify_exit(Some(1), String::new()), Ok(ExecutionResult::Mismatch)));
    match classify_exit(Some(101), "boom".to_owned()) {
        Ok(ExecutionResult::Crash(s)) => assert_eq!(s, "boom"),
        _ => panic!("expected a crash"),
    }
    assert!(matches!(classify_exit(None, String::new()), Err(ExitError::NoExitCode)));
    assert!(matches!(classify_exit(Some(2), String::new()), Err(ExitError::Unrecognised(2))));
}

#[test]
fn metadata_is_the_first_comment_line() {
    let (meta, shader) = split_metadata("// {\"a\":1}  \nfn main() {}\n").unwrap();
    assert_eq!(meta, "{\"a\":1}");
    assert_eq!(shader, "fn main() {}\n");
    let (meta, shader) = split_metadata("////  x\n").unwrap();
    assert_eq!(meta, "x");
    assert_eq!(shader, "");
    assert!(split_metadata("no line break").is_none());
}

#[test]
fn trimming_white_space() {
    assert_eq!(trim("  a b \t\n"), "a b");
    assert_eq!(trim("\u{3000}x\u{a0}"), "x");
    assert_eq!(trim("   "), "");
    assert_eq!(trim(""), "");
}
