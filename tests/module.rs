use llvm_module::module::{Module, PRINT_MESSAGE_ACTION, RETURN_STATUS_ACTION};

#[test]
fn module_keeps_its_handle() {
    let m = Module::new(0x1000);
    assert_eq!(m.handle(), 0x1000);
}

#[test]
fn null_lookup_is_absent() {
    assert!(Module::function_from_handle(0).is_none());
    assert_eq!(Module::function_from_handle(42).unwrap().handle(), 42);
    assert!(Module::type_from_handle(0).is_none());
    assert_eq!(Module::type_from_handle(7).unwrap().handle(), 7);
}

#[test]
fn verifier_action_follows_print_flag() {
    assert_eq!(Module::verifier_action(true), PRINT_MESSAGE_ACTION);
    assert_eq!(Module::verifier_action(false), RETURN_STATUS_ACTION);
}

#[test]
fn verify_outcome_reports_only_failures_when_asked() {
    let ok = Module::verify_outcome(0, true, true);
    assert!(ok.well_formed && !ok.report && ok.release);
    let quiet = Module::verify_outcome(1, false, true);
    assert!(!quiet.well_formed && !quiet.report && quiet.release);
    let loud = Module::verify_outcome(1, true, true);
    assert!(!loud.well_formed && loud.report && loud.release);
    let none = Module::verify_outcome(1, true, false);
    assert!(!none.report && !none.release);
}

#[test]
fn engine_takes_over_module_on_success() {
    let ok = Module::new(0x2000).into_engine(0, 99, true, String::new()).unwrap();
    assert_eq!(ok.handle(), 99);
    assert_eq!(ok.module_handle(), 0x2000);
    assert!(ok.is_jit());
}

#[test]
fn engine_failure_returns_module_and_diagnostic() {
    let err = Module::new(0x3000).into_engine(1, 0, false, "no target".to_string());
    let (m, msg) = err.unwrap_err();
    assert_eq!(m.handle(), 0x3000);
    assert_eq!(msg, "no target");
}

#[test]
fn write_status_zero_is_success() {
    assert!(Module::write_succeeded(0));
    assert!(!Module::write_succeeded(1));
}
