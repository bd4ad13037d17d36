use shell_core::error::ShellError;
use shell_core::external::{Arg, CmdStage, Command, External};
use shell_core::redirect::{Mode, RedIn, RedOutKind, Redirect, Stream};

fn stage(name: &str, args: Vec<Arg>) -> CmdStage {
    CmdStage { name: name.to_string(), args }
}

fn plain(s: &str) -> Arg {
    Arg::Arg(s.to_string())
}

#[test]
fn from_command_splits_arguments_and_redirects_in_order() {
    let cmd = Command {
        stages: vec![stage(
            "prog",
            vec![
                plain("a"),
                Arg::Redirect(Redirect::Output {
                    stream: Stream::Stdout,
                    path: "f".to_string(),
                    mode: Mode::Truncate,
                }),
                plain("b"),
                Arg::Redirect(Redirect::Input { path: "g".to_string() }),
            ],
        )],
        bg: false,
    };
    let ext = External::from_command(cmd);
    assert_eq!(ext.stages.len(), 1);
    assert!(!ext.bg);
    assert_eq!(ext.stages[0].name, "prog");
    assert_eq!(ext.stages[0].args, vec!["a".to_string(), "b".to_string()]);
    assert_eq!(ext.stages[0].reds.len(), 2);
}

#[test]
fn from_command_keeps_the_background_flag() {
    let cmd = Command { stages: vec![stage("sleeper", vec![])], bg: true };
    let ext = External::from_command(cmd);
    assert!(ext.bg);
}

#[test]
fn two_stage_pipeline_is_wired_like_composition() {
    // `printf hello | cat`, captured: the head reads the shell's stdin,
    // its stdout feeds the next stage, and the terminal stdout goes to
    // the caller.
    let cmd = Command {
        stages: vec![stage("printf", vec![plain("hello")]), stage("cat", vec![])],
        bg: false,
    };
    let ext = External::from_command(cmd);
    let plans = ext.plan(true).unwrap();
    assert_eq!(plans.len(), 2);

    assert_eq!(plans[0].name, "printf");
    assert_eq!(plans[0].args, vec!["hello".to_string()]);
    assert!(!plans[0].stdin_from_pipe);
    assert!(plans[0].stdout_to_pipe);
    assert!(matches!(plans[0].output.stdin, RedIn::Stdin));

    assert_eq!(plans[1].name, "cat");
    assert!(plans[1].stdin_from_pipe);
    assert!(plans[1].stdout_to_pipe);
    assert!(matches!(plans[1].output.stdout.kind, RedOutKind::Stdout));
}

#[test]
fn captured_output_pipes_the_terminal_stdout() {
    let cmd = Command { stages: vec![stage("printf", vec![plain("hello")])], bg: false };
    let ext = External::from_command(cmd);
    let plans = ext.output().unwrap();
    assert_eq!(plans.len(), 1);
    assert!(plans[0].stdout_to_pipe);
    assert!(!plans[0].stdin_from_pipe);
}

#[test]
fn untracked_pipeline_inherits_the_terminal_stdout() {
    let cmd = Command { stages: vec![stage("a", vec![]), stage("b", vec![])], bg: false };
    let ext = External::from_command(cmd);
    let plans = ext.plan(false).unwrap();
    assert!(plans[0].stdout_to_pipe);
    assert!(!plans[1].stdout_to_pipe);
}

#[test]
fn three_stage_pipeline_keeps_construction_order() {
    let cmd = Command {
        stages: vec![stage("a", vec![]), stage("b", vec![]), stage("c", vec![])],
        bg: false,
    };
    let ext = External::from_command(cmd);
    let plans = ext.plan(false).unwrap();
    assert_eq!(plans.len(), 3);
    for (i, plan) in plans.iter().enumerate() {
        assert_eq!(plan.stdin_from_pipe, i > 0);
        assert_eq!(plan.stdout_to_pipe, i < 2);
    }
}

#[test]
fn head_stage_may_take_a_heredoc() {
    let cmd = Command {
        stages: vec![
            stage("cat", vec![Arg::Redirect(Redirect::Heredoc { content: b"payload".to_vec() })]),
            stage("wc", vec![]),
        ],
        bg: false,
    };
    let ext = External::from_command(cmd);
    let plans = ext.plan(false).unwrap();
    match &plans[0].output.stdin {
        RedIn::Heredoc(bytes) => assert_eq!(bytes, &b"payload".to_vec()),
        _ => panic!("the head stage's heredoc must reach its stdin"),
    }
    assert!(plans[0].stdout_to_pipe);
    assert!(plans[1].stdin_from_pipe);
}

#[test]
fn interior_stage_with_input_redirect_aborts_the_chain() {
    let cmd = Command {
        stages: vec![
            stage("a", vec![]),
            stage("b", vec![Arg::Redirect(Redirect::Input { path: "f".to_string() })]),
        ],
        bg: false,
    };
    let ext = External::from_command(cmd);
    match ext.plan(false) {
        Err(e) => assert_eq!(e, ShellError::InteriorInput),
        Ok(_) => panic!("an interior input redirect must abort the chain"),
    }
}

#[test]
fn redirected_stdout_of_a_feeding_stage_aborts_the_chain() {
    let cmd = Command {
        stages: vec![
            stage(
                "a",
                vec![Arg::Redirect(Redirect::Output {
                    stream: Stream::Stdout,
                    path: "f".to_string(),
                    mode: Mode::Truncate,
                })],
            ),
            stage("b", vec![]),
        ],
        bg: false,
    };
    let ext = External::from_command(cmd);
    match ext.plan(false) {
        Err(e) => assert_eq!(e, ShellError::NoPipeSource),
        Ok(_) => panic!("a feeding stage without a stdout must abort the chain"),
    }
}

#[test]
fn captured_single_stage_with_file_redirect_captures_nothing() {
    let cmd = Command {
        stages: vec![stage(
            "a",
            vec![Arg::Redirect(Redirect::Output {
                stream: Stream::Stdout,
                path: "f".to_string(),
                mode: Mode::Truncate,
            })],
        )],
        bg: false,
    };
    let ext = External::from_command(cmd);
    let plans = ext.plan(true).unwrap();
    assert!(!plans[0].stdout_to_pipe);
    match &plans[0].output.stdout.kind {
        RedOutKind::File(p) => assert_eq!(p, "f"),
        _ => panic!("the explicit redirect wins over capture"),
    }
}
