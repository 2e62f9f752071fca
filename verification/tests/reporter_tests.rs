use tfmicro::error::Error;
use tfmicro::error::Status;
use tfmicro::micro_error_reporter::MicroErrorReporter;

#[test]
fn a_new_reporter_holds_nothing() {
    assert_eq!(MicroErrorReporter::new().last_error(), None);
}

#[test]
fn the_latest_diagnostic_is_kept() {
    let mut reporter = MicroErrorReporter::new();
    reporter.report(Error::InsufficientArena);
    assert_eq!(reporter.last_error(), Some(Error::InsufficientArena));
    reporter.report(Error::UnsupportedOperator { op_code: 25 });
    assert_eq!(reporter.last_error(), Some(Error::UnsupportedOperator { op_code: 25 }));
}

#[test]
fn a_status_is_a_success_or_not() {
    assert!(Status::Success.is_success());
    assert!(!Status::Failure.is_success());
}
