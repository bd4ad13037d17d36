use shell_core::builtins::{cd, cmd, exit, fg, parse_i32};
use shell_core::error::ShellError;
use shell_core::job::{Jobs, Pid};
use shell_core::redirect::{DrainPlan, Mode, Redirect, Redirects, Stream};

#[test]
fn parse_accepts_plain_and_signed_numbers() {
    assert_eq!(parse_i32("0").unwrap(), 0);
    assert_eq!(parse_i32("42").unwrap(), 42);
    assert_eq!(parse_i32("+7").unwrap(), 7);
    assert_eq!(parse_i32("-13").unwrap(), -13);
    assert_eq!(parse_i32("2147483647").unwrap(), i32::MAX);
    assert_eq!(parse_i32("-2147483648").unwrap(), i32::MIN);
    assert_eq!(parse_i32("007").unwrap(), 7);
}

#[test]
fn parse_rejects_malformed_and_oversized_numbers() {
    for bad in ["", "-", "+", "12a", "a12", "1 2", "--1", "2147483648", "-2147483649",
        "99999999999999999999"] {
        match parse_i32(bad) {
            Err(e) => assert_eq!(e, ShellError::BadNumber),
            Ok(v) => panic!("{:?} parsed as {}", bad, v),
        }
    }
}

#[test]
fn exit_defaults_to_zero() {
    assert_eq!(exit(&vec![]).unwrap(), 0);
}

#[test]
fn exit_takes_one_numeric_code() {
    assert_eq!(exit(&vec!["3".to_string()]).unwrap(), 3);
    match exit(&vec!["x".to_string()]) {
        Err(e) => assert_eq!(e, ShellError::BadNumber),
        Ok(_) => panic!("a non-numeric code must be refused"),
    }
}

#[test]
fn exit_with_two_arguments_is_an_error() {
    match exit(&vec!["1".to_string(), "2".to_string()]) {
        Err(e) => assert_eq!(e, ShellError::ArgCount),
        Ok(_) => panic!("two arguments must be refused, not one picked"),
    }
}

#[test]
fn cd_picks_the_argument_or_the_home_directory() {
    let target = cd(vec!["/tmp".to_string()], Some("/home/me".to_string())).unwrap();
    assert_eq!(target, "/tmp");
    let target = cd(vec![], Some("/home/me".to_string())).unwrap();
    assert_eq!(target, "/home/me");
}

#[test]
fn cd_without_argument_needs_a_home() {
    match cd(vec![], None) {
        Err(e) => assert_eq!(e, ShellError::NoHome),
        Ok(_) => panic!("no home and no argument must be an error"),
    }
}

#[test]
fn cd_with_two_arguments_is_an_error() {
    match cd(vec!["a".to_string(), "b".to_string()], None) {
        Err(e) => assert_eq!(e, ShellError::ArgCount),
        Ok(_) => panic!("two arguments must be refused"),
    }
}

#[test]
fn fg_needs_exactly_one_numeric_argument() {
    let mut jobs = Jobs::new();
    match fg(&vec![], &mut jobs) {
        Err(e) => assert_eq!(e, ShellError::ArgCount),
        Ok(_) => panic!("fg without argument must be refused"),
    }
    match fg(&vec!["one".to_string()], &mut jobs) {
        Err(e) => assert_eq!(e, ShellError::BadNumber),
        Ok(_) => panic!("fg with a non-numeric argument must be refused"),
    }
}

#[test]
fn fg_resumes_a_live_job_and_rejects_unknown_pids() {
    let mut jobs = Jobs::new();
    jobs.new_bg(Pid(321)).unwrap();
    match fg(&vec!["322".to_string()], &mut jobs) {
        Err(e) => assert_eq!(e, ShellError::UnknownJob),
        Ok(_) => panic!("an unknown pid must be a lookup error"),
    }
    let pid = fg(&vec!["321".to_string()], &mut jobs).unwrap();
    assert_eq!(pid, Pid(321));
}

#[test]
fn cmd_plan_pipes_only_what_leaves_the_defaults() {
    let reds = Redirects::new(vec![]);
    let out = reds.resolve(false).unwrap();
    let plan = cmd("ls".to_string(), vec!["-l".to_string()], out);
    assert_eq!(plan.name, "ls");
    assert_eq!(plan.args, vec!["-l".to_string()]);
    assert!(!plan.pipe_stdin);
    assert!(!plan.pipe_stdout);
    assert!(!plan.pipe_stderr);
    assert_eq!(plan.drain, DrainPlan::Nothing);
}

#[test]
fn cmd_plan_merges_both_streams_into_one_file_handle() {
    let reds = Redirects::new(vec![
        Redirect::Output { stream: Stream::Stdout, path: "log".to_string(), mode: Mode::Truncate },
        Redirect::Output { stream: Stream::Stderr, path: "log".to_string(), mode: Mode::Truncate },
    ]);
    let out = reds.resolve(false).unwrap();
    let plan = cmd("prog".to_string(), vec![], out);
    assert!(!plan.pipe_stdin);
    assert!(plan.pipe_stdout);
    assert!(plan.pipe_stderr);
    assert_eq!(plan.drain, DrainPlan::Merged);
}

#[test]
fn cmd_plan_pipes_a_heredoc_into_stdin() {
    let reds = Redirects::new(vec![Redirect::Heredoc { content: b"in".to_vec() }]);
    let out = reds.resolve(false).unwrap();
    let plan = cmd("cat".to_string(), vec![], out);
    assert!(plan.pipe_stdin);
    assert!(!plan.pipe_stdout);
    assert_eq!(plan.drain, DrainPlan::Nothing);
}
