use shell_core::error::ShellError;
use shell_core::redirect::{
    drain_plan, DrainPlan, Mode, RedIn, RedOut, RedOutKind, Redirect, Redirects, Stream,
};

fn out_file(stream: Stream, path: &str, mode: Mode) -> Redirect {
    Redirect::Output { stream, path: path.to_string(), mode }
}

#[test]
fn no_directives_leaves_streams_inherited() {
    let reds = Redirects::new(vec![]);
    let out = reds.resolve(false).unwrap();
    assert!(matches!(out.stdin, RedIn::Stdin));
    assert!(matches!(out.stdout.kind, RedOutKind::Stdout));
    assert!(matches!(out.stderr.kind, RedOutKind::Stderr));
}

#[test]
fn last_output_directive_wins() {
    let reds = Redirects::new(vec![
        out_file(Stream::Stdout, "a.txt", Mode::Truncate),
        out_file(Stream::Stdout, "b.txt", Mode::Append),
    ]);
    let out = reds.resolve(false).unwrap();
    match &out.stdout.kind {
        RedOutKind::File(p) => assert_eq!(p, "b.txt"),
        _ => panic!("stdout should go to a file"),
    }
    assert!(out.stdout.mode == Mode::Append);
    assert!(matches!(out.stderr.kind, RedOutKind::Stderr));
}

#[test]
fn last_input_directive_wins() {
    let reds = Redirects::new(vec![
        Redirect::Input { path: "one".to_string() },
        Redirect::Input { path: "two".to_string() },
    ]);
    let out = reds.resolve(false).unwrap();
    match &out.stdin {
        RedIn::File(p) => assert_eq!(p, "two"),
        _ => panic!("stdin should come from a file"),
    }
}

#[test]
fn heredoc_is_delivered_byte_for_byte() {
    let content = b"hello\n".to_vec();
    let reds = Redirects::new(vec![Redirect::Heredoc { content: content.clone() }]);
    let out = reds.resolve(false).unwrap();
    match &out.stdin {
        RedIn::Heredoc(bytes) => assert_eq!(bytes, &content),
        _ => panic!("stdin should be the heredoc pipe"),
    }
}

#[test]
fn heredocs_accumulate_in_order() {
    let reds = Redirects::new(vec![
        Redirect::Heredoc { content: b"one".to_vec() },
        Redirect::Heredoc { content: b"two".to_vec() },
    ]);
    let out = reds.resolve(false).unwrap();
    match &out.stdin {
        RedIn::Heredoc(bytes) => assert_eq!(bytes, &b"onetwo".to_vec()),
        _ => panic!("stdin should be the heredoc pipe"),
    }
}

#[test]
fn pending_heredoc_beats_a_file_input() {
    let reds = Redirects::new(vec![
        Redirect::Heredoc { content: b"inline".to_vec() },
        Redirect::Input { path: "file".to_string() },
    ]);
    let out = reds.resolve(false).unwrap();
    match &out.stdin {
        RedIn::Heredoc(bytes) => assert_eq!(bytes, &b"inline".to_vec()),
        _ => panic!("a pending heredoc must keep stdin writable"),
    }
}

#[test]
fn interior_stage_rejects_file_input() {
    let reds = Redirects::new(vec![Redirect::Input { path: "file".to_string() }]);
    match reds.resolve(true) {
        Err(e) => assert_eq!(e, ShellError::InteriorInput),
        Ok(_) => panic!("an interior input redirect must be refused"),
    }
}

#[test]
fn interior_stage_rejects_heredoc() {
    let reds = Redirects::new(vec![Redirect::Heredoc { content: b"x".to_vec() }]);
    match reds.resolve(true) {
        Err(e) => assert_eq!(e, ShellError::InteriorInput),
        Ok(_) => panic!("an interior heredoc must be refused"),
    }
}

#[test]
fn duplicate_points_stderr_at_stdout_target() {
    let reds = Redirects::new(vec![
        out_file(Stream::Stdout, "log.txt", Mode::Truncate),
        Redirect::Duplicate { from: Stream::Stdout, to: Stream::Stderr },
    ]);
    let out = reds.resolve(false).unwrap();
    match &out.stderr.kind {
        RedOutKind::File(p) => assert_eq!(p, "log.txt"),
        _ => panic!("stderr should follow stdout's target"),
    }
    assert!(out.stderr.mode == Mode::Truncate);
}

#[test]
fn same_file_same_mode_is_merged_into_one_handle() {
    let reds = Redirects::new(vec![
        out_file(Stream::Stdout, "both.txt", Mode::Append),
        out_file(Stream::Stderr, "both.txt", Mode::Append),
    ]);
    let out = reds.resolve(false).unwrap();
    assert_eq!(drain_plan(&out.stdout, &out.stderr), DrainPlan::Merged);
}

#[test]
fn different_files_keep_separate_handles() {
    let reds = Redirects::new(vec![
        out_file(Stream::Stdout, "out.txt", Mode::Truncate),
        out_file(Stream::Stderr, "err.txt", Mode::Truncate),
    ]);
    let out = reds.resolve(false).unwrap();
    match &out.stdout.kind {
        RedOutKind::File(p) => assert_eq!(p, "out.txt"),
        _ => panic!("stdout should go to its own file"),
    }
    match &out.stderr.kind {
        RedOutKind::File(p) => assert_eq!(p, "err.txt"),
        _ => panic!("stderr should go to its own file"),
    }
    assert_eq!(drain_plan(&out.stdout, &out.stderr), DrainPlan::StderrThenStdout);
}

#[test]
fn same_file_different_modes_stay_apart() {
    let reds = Redirects::new(vec![
        out_file(Stream::Stdout, "f.txt", Mode::Truncate),
        out_file(Stream::Stderr, "f.txt", Mode::Append),
    ]);
    let out = reds.resolve(false).unwrap();
    assert_eq!(drain_plan(&out.stdout, &out.stderr), DrainPlan::StderrThenStdout);
}

#[test]
fn default_streams_need_no_draining() {
    assert_eq!(drain_plan(&RedOut::stdout(), &RedOut::stderr()), DrainPlan::Nothing);
}

#[test]
fn single_redirected_stream_is_drained_alone() {
    let reds = Redirects::new(vec![out_file(Stream::Stderr, "err.txt", Mode::Truncate)]);
    let out = reds.resolve(false).unwrap();
    assert_eq!(drain_plan(&out.stdout, &out.stderr), DrainPlan::StderrOnly);

    let reds = Redirects::new(vec![out_file(Stream::Stdout, "out.txt", Mode::Truncate)]);
    let out = reds.resolve(false).unwrap();
    assert_eq!(drain_plan(&out.stdout, &out.stderr), DrainPlan::StdoutOnly);
}

#[test]
fn truncate_then_append_keeps_the_first_write() {
    // `cmd > out.txt` followed by `cmd2 >> out.txt`: the second command's
    // target is opened in append mode, so the first command's bytes stay.
    let first = Redirects::new(vec![out_file(Stream::Stdout, "out.txt", Mode::Truncate)]);
    let second = Redirects::new(vec![out_file(Stream::Stdout, "out.txt", Mode::Append)]);
    let first_out = first.resolve(false).unwrap();
    let second_out = second.resolve(false).unwrap();
    match (&first_out.stdout.kind, &second_out.stdout.kind) {
        (RedOutKind::File(a), RedOutKind::File(b)) => {
            assert_eq!(a, "out.txt");
            assert_eq!(b, "out.txt");
        },
        _ => panic!("both commands should write the same file"),
    }
    assert!(first_out.stdout.mode == Mode::Truncate);
    assert!(second_out.stdout.mode == Mode::Append);
}
