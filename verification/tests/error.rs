use code_executor::ExecutionError;

#[test]
fn staging_failure_message() {
    let e = ExecutionError::StagingFailed(String::from("No space left on device (os error 28)"));
    assert_eq!(
        e.message(),
        "Failed to stage code: No space left on device (os error 28)"
    );
}

#[test]
fn launch_failure_message() {
    let e = ExecutionError::LaunchFailed(String::from("No such file or directory (os error 2)"));
    assert_eq!(
        e.message(),
        "Failed to execute Python: No such file or directory (os error 2)"
    );
}
