use rhizo_crypt_core::validation::{StringSink, ValidationHarness};

#[test]
fn all_pass() {
    let mut v = ValidationHarness::new("test");
    v.check("check1", true);
    v.check("check2", true);
    assert!(v.all_passed());
    assert_eq!(v.pass_count(), 2);
    assert_eq!(v.fail_count(), 0);
    assert_eq!(v.exit_code(), 0);
}

#[test]
fn with_failure() {
    let mut v = ValidationHarness::new("test");
    v.check("good", true);
    v.check("bad", false);
    v.check("also good", true);
    assert!(!v.all_passed());
    assert_eq!(v.pass_count(), 2);
    assert_eq!(v.fail_count(), 1);
    assert_eq!(v.exit_code(), 1);
}

#[test]
fn empty_harness() {
    let v = ValidationHarness::new("empty");
    assert!(v.all_passed());
    assert_eq!(v.exit_code(), 0);
}

#[test]
fn string_sink_output() {
    let mut v = ValidationHarness::new("sink_test");
    v.check("passes", true);
    v.check("fails", false);

    let mut sink = StringSink::default();
    let code = v.finish_to(&mut sink);
    assert_eq!(code, 1);
    assert!(sink.output.contains("[sink_test]"));
    assert!(sink.output.contains("1/2 checks passed"));
    assert!(sink.output.contains("\u{2713} passes"));
    assert!(sink.output.contains("\u{2717} fails"));
}

#[test]
fn checks_accessor() {
    let mut v = ValidationHarness::new("accessor");
    v.check("a", true);
    v.check("b", false);
    let checks = v.checks();
    assert_eq!(checks.len(), 2);
    assert_eq!(checks[0], ("a".to_string(), true));
    assert_eq!(checks[1], ("b".to_string(), false));
}

#[test]
fn validation_documented_example() {
    let mut v = ValidationHarness::new("rhizocrypt doctor");
    v.check("config file readable", true);
    v.check("port available", true);
    assert!(v.all_passed());

    let mut sink = StringSink::default();
    let code = v.finish_to(&mut sink);
    assert_eq!(code, 0);
    assert!(sink.output.contains("2/2 checks passed"));
}

#[test]
fn validation_sink_exact_output() {
    let mut v = ValidationHarness::new("doctor");
    v.check("disk", true);
    v.check("net", false);
    let mut sink = StringSink::default();
    assert_eq!(v.finish_to(&mut sink), 1);
    assert_eq!(sink.output, "[doctor] 1/2 checks passed\n  \u{2713} disk\n  \u{2717} net\n");
    // a second report appends to the same sink
    let empty = ValidationHarness::new("e");
    assert_eq!(empty.finish_to(&mut sink), 0);
    assert!(sink.output.ends_with("[e] 0/0 checks passed\n"));
}

#[test]
fn validation_counts_partition_the_checks() {
    let mut v = ValidationHarness::new("p");
    for i in 0..10 {
        v.check("c", i % 3 == 0);
    }
    assert_eq!(v.pass_count() + v.fail_count(), v.checks().len());
    assert_eq!(v.pass_count(), 4);
    assert_eq!(v.all_passed(), v.fail_count() == 0);
}
