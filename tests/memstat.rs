use swappy::memstat::memstat_result;

#[test]
fn success_returns_output() {
    let r = memstat_result(true, Some(0), None, String::from("Page Summary\n"), String::new());
    assert_eq!(r, Ok(String::from("Page Summary\n")));
}

#[test]
fn exit_status_is_reported() {
    let r = memstat_result(false, Some(3), None, String::from("out\n"), String::from("err\n"));
    assert_eq!(
        r,
        Err(String::from(
            "pfexec mdb -ke ::memstat: exited unexpectedly with status 3: stdout:\nout\nstderr:\nerr\n"
        ))
    );
}

#[test]
fn signal_is_reported() {
    let r = memstat_result(false, None, Some(9), String::new(), String::new());
    assert_eq!(
        r,
        Err(String::from(
            "pfexec mdb -ke ::memstat: terminated unexpectedly with signal 9: stdout:\nstderr:\n"
        ))
    );
}

#[test]
fn unknown_ending_is_reported() {
    let r = memstat_result(false, None, None, String::new(), String::from("e"));
    assert_eq!(
        r,
        Err(String::from(
            "pfexec mdb -ke ::memstat: terminated unexpectedly with signal unknown: stdout:\nstderr:\ne"
        ))
    );
}

#[test]
fn negative_status_is_reported() {
    let r = memstat_result(false, Some(-1), None, String::new(), String::new());
    assert!(r.unwrap_err().contains("with status -1:"));
}
