use grumpy::command::{exit_code, CargoCommand, ProcessStatus};

#[test]
fn new_command_has_no_args() {
    let c = CargoCommand::new("add");
    assert_eq!(c.command, "add");
    assert!(c.args.is_empty());
}

#[test]
fn add_arg_appends_in_order() {
    let mut c = CargoCommand::new("new");
    c.add_arg("--lib");
    c.add_arg("proj");
    assert_eq!(c.command, "new");
    assert_eq!(c.args, vec!["--lib".to_string(), "proj".to_string()]);
}

#[test]
fn clean_exit_is_zero() {
    assert_eq!(exit_code(&ProcessStatus::Exited(0)), 0);
}

#[test]
fn nonzero_exit_is_passed_on() {
    assert_eq!(exit_code(&ProcessStatus::Exited(3)), 3);
    assert_eq!(exit_code(&ProcessStatus::Exited(255)), 255);
}

#[test]
fn large_exit_wraps_to_signed() {
    assert_eq!(exit_code(&ProcessStatus::Exited(0xffff_ffff)), -1);
    assert_eq!(exit_code(&ProcessStatus::Exited(0x8000_0000)), i32::MIN);
}

#[test]
fn abnormal_end_is_one_hundred() {
    assert_eq!(exit_code(&ProcessStatus::Abnormal), 100);
}
