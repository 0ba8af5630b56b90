use code_executor::{conclude_run, RunOutput};

#[test]
fn faulting_run_is_still_a_report() {
    let run = RunOutput {
        status: Some(1),
        stdout: Vec::new(),
        stderr: b"Traceback (most recent call last):\nZeroDivisionError: division by zero\n"
            .to_vec(),
    };
    let r = conclude_run(Ok(run));
    assert_eq!(
        r.unwrap(),
        "\nErrors:\nTraceback (most recent call last):\nZeroDivisionError: division by zero\n"
    );
}

#[test]
fn exit_status_does_not_change_the_report() {
    let with_failure = RunOutput {
        status: Some(2),
        stdout: b"done\n".to_vec(),
        stderr: Vec::new(),
    };
    let without_status = RunOutput {
        status: None,
        stdout: b"done\n".to_vec(),
        stderr: Vec::new(),
    };
    assert_eq!(
        conclude_run(Ok(with_failure)).unwrap(),
        conclude_run(Ok(without_status)).unwrap()
    );
}

#[test]
fn spawn_failure_becomes_launch_failed() {
    let r = conclude_run(Err(String::from(
        "No such file or directory (os error 2)",
    )));
    match r {
        Ok(_) => panic!("a spawn failure must not yield a report"),
        Err(e) => assert_eq!(
            e.message(),
            "Failed to execute Python: No such file or directory (os error 2)"
        ),
    }
}
