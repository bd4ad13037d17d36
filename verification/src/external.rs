//! External command pipelines.
//!
//! A parsed command arrives with arguments and redirect directives still
//! mixed per stage; `External::from_command` separates them. `plan` then
//! resolves every stage's redirects and wires the chain: each stage's
//! stdout feeds the next stage's stdin, and the terminal stage's stdout
//! is captured when the caller wants text rather than a job. The
//! surrounding binary spawns the stages in plan order, which is the only
//! synchronization adjacent stages need.

use vstd::prelude::*;

use crate::error::ShellError;
use crate::job::{Job, JobKind, JobState, Jobs, Pid};
use crate::report::{bg_report, bg_report_spec};
use crate::redirect::{
    drain_plan, drain_spec, has_input_redirect, resolve_seq, resolved_stdin, DrainPlan, Output,
    RedOutKind, Redirect, RedirectView, Redirects,
};

verus! {

/// One token of a command line: a plain argument or a redirect.
#[derive(Debug)]
pub enum Arg {
    Arg(String),
    Redirect(Redirect),
}

/// Mathematical image of an `Arg`.
pub enum ArgView {
    Arg(Seq<char>),
    Redirect(RedirectView),
}

impl View for Arg {
    type V = ArgView;

    open spec fn view(&self) -> ArgView {
        match self {
            Arg::Arg(s) => ArgView::Arg(s@),
            Arg::Redirect(r) => ArgView::Redirect(r@),
        }
    }
}

/// One stage of a parsed pipeline, tokens still in written order.
#[derive(Debug)]
pub struct CmdStage {
    pub name: String,
    pub args: Vec<Arg>,
}

/// Mathematical image of a `CmdStage`.
pub struct CmdStageView {
    pub name: Seq<char>,
    pub args: Seq<ArgView>,
}

impl View for CmdStage {
    type V = CmdStageView;

    open spec fn view(&self) -> CmdStageView {
        CmdStageView { name: self.name@, args: self.args@.map_values(|a: Arg| a@) }
    }
}

/// A parsed command: the stages of a pipeline, in order, and the
/// background flag, which belongs to the chain as a whole.
#[derive(Debug)]
pub struct Command {
    pub stages: Vec<CmdStage>,
    pub bg: bool,
}

/// Mathematical image of a `Command`.
pub struct CommandView {
    pub stages: Seq<CmdStageView>,
    pub bg: bool,
}

impl View for Command {
    type V = CommandView;

    open spec fn view(&self) -> CommandView {
        CommandView { stages: self.stages@.map_values(|s: CmdStage| s@), bg: self.bg }
    }
}

impl Command {
    /// The plain arguments of the head stage, in written order, for a
    /// builtin's use; redirect directives are not arguments.
    pub fn head_args(&self) -> (r: Vec<String>)
        ensures
            self@.stages.len() == 0 ==> r@.len() == 0,
            self@.stages.len() > 0 ==> r@.map_values(|s: String| s@) == args_of(
                self@.stages[0].args,
            ),
    {
        let mut out: Vec<String> = Vec::new();
        if self.stages.len() == 0 {
            return out;
        }
        let ghost total = self@.stages[0].args;
        let n = self.stages[0].args.len();
        let mut k: usize = 0;
        proof {
            assert(self@.stages[0] == self.stages@[0]@);
            assert(args_of(total.take(0)) =~= Seq::<Seq<char>>::empty());
        }
        while k < n
            invariant
                0 <= k <= n,
                n == total.len(),
                n == self.stages@[0].args@.len(),
                total == self@.stages[0].args,
                self@.stages[0] == self.stages@[0]@,
                0 < self.stages@.len(),
                forall|j: int| 0 <= j < n ==> total[j] == (#[trigger] self.stages@[0].args@[j])@,
                out@.map_values(|s: String| s@) == args_of(total.take(k as int)),
            decreases n - k,
        {
            proof {
                lemma_split_step(total, k as int);
            }
            let ghost old_out = out@;
            match &self.stages[0].args[k] {
                Arg::Arg(s) => {
                    out.push(s.clone());
                    proof {
                        assert(out@.map_values(|s: String| s@) =~= old_out.map_values(
                            |s: String| s@,
                        ) + seq![total[k as int]->Arg_0]);
                    }
                },
                Arg::Redirect(_) => {
                    proof {
                        assert(out@.map_values(|s: String| s@) == args_of(total.take(k as int))
                            + Seq::<Seq<char>>::empty());
                    }
                },
            }
            k += 1;
        }
        proof {
            assert(total.take(n as int) =~= total);
        }
        out
    }
}

/// One pipeline stage ready to plan: program name, plain arguments, and
/// its own redirect set.
#[derive(Debug)]
pub struct Stage {
    pub name: String,
    pub args: Vec<String>,
    pub reds: Redirects,
}

/// Mathematical image of a `Stage`.
pub struct StageView {
    pub name: Seq<char>,
    pub args: Seq<Seq<char>>,
    pub reds: Seq<RedirectView>,
}

impl View for Stage {
    type V = StageView;

    open spec fn view(&self) -> StageView {
        StageView {
            name: self.name@,
            args: self.args@.map_values(|s: String| s@),
            reds: self.reds@,
        }
    }
}

/// An external command pipeline: the chain of stages and the background
/// flag of its head.
#[derive(Debug)]
pub struct External {
    pub stages: Vec<Stage>,
    pub bg: bool,
}

/// Mathematical image of an `External`.
pub struct ExternalView {
    pub stages: Seq<StageView>,
    pub bg: bool,
}

impl View for External {
    type V = ExternalView;

    open spec fn view(&self) -> ExternalView {
        ExternalView { stages: self.stages@.map_values(|s: Stage| s@), bg: self.bg }
    }
}

/// The plain arguments among a stage's tokens, in written order.
pub open spec fn args_of(s: Seq<ArgView>) -> Seq<Seq<char>>
    decreases s.len(),
{
    if s.len() == 0 {
        Seq::empty()
    } else {
        args_of(s.drop_last()) + (match s.last() {
            ArgView::Arg(a) => seq![a],
            ArgView::Redirect(_) => Seq::empty(),
        })
    }
}

/// The redirect directives among a stage's tokens, in written order.
pub open spec fn reds_of(s: Seq<ArgView>) -> Seq<RedirectView>
    decreases s.len(),
{
    if s.len() == 0 {
        Seq::empty()
    } else {
        reds_of(s.drop_last()) + (match s.last() {
            ArgView::Redirect(r) => seq![r],
            ArgView::Arg(_) => Seq::empty(),
        })
    }
}

/// Extending the token prefix by one token extends exactly one of the
/// two split sequences.
proof fn lemma_split_step(s: Seq<ArgView>, k: int)
    requires
        0 <= k < s.len(),
    ensures
        args_of(s.take(k + 1)) == args_of(s.take(k)) + (match s[k] {
            ArgView::Arg(a) => seq![a],
            ArgView::Redirect(_) => Seq::<Seq<char>>::empty(),
        }),
        reds_of(s.take(k + 1)) == reds_of(s.take(k)) + (match s[k] {
            ArgView::Redirect(r) => seq![r],
            ArgView::Arg(_) => Seq::<RedirectView>::empty(),
        }),
{
    assert(s.take(k + 1).drop_last() =~= s.take(k));
    assert(s.take(k + 1).last() == s[k]);
}

/// Splits one parsed stage's token list into plain arguments and
/// redirect directives, both kept in written order.
fn split_stage(st: CmdStage) -> (r: Stage)
    ensures
        r@.name == st@.name,
        r@.args == args_of(st@.args),
        r@.reds == reds_of(st@.args),
{
    let ghost total = st@.args;
    let CmdStage { name, args } = st;
    let mut rest = args;
    let mut plain: Vec<String> = Vec::new();
    let mut reds: Vec<Redirect> = Vec::new();
    let ghost mut k: int = 0;
    proof {
        assert(args_of(total.take(0)) =~= Seq::<Seq<char>>::empty());
        assert(reds_of(total.take(0)) =~= Seq::<RedirectView>::empty());
    }
    while rest.len() > 0
        invariant
            0 <= k <= total.len(),
            rest@.len() == total.len() - k,
            forall|j: int| 0 <= j < rest@.len() ==> (#[trigger] rest@[j])@ == total[k + j],
            plain@.map_values(|s: String| s@) == args_of(total.take(k)),
            reds@.map_values(|r: Redirect| r@) == reds_of(total.take(k)),
        decreases rest.len(),
    {
        let a = rest.remove(0);
        proof {
            assert(a@ == total[k]);
            lemma_split_step(total, k);
        }
        let ghost old_plain = plain@;
        let ghost old_reds = reds@;
        match a {
            Arg::Arg(s) => {
                plain.push(s);
                proof {
                    assert(plain@.map_values(|s: String| s@) =~= old_plain.map_values(
                        |s: String| s@,
                    ) + seq![total[k]->Arg_0]);
                }
            },
            Arg::Redirect(rd) => {
                reds.push(rd);
                proof {
                    assert(reds@.map_values(|r: Redirect| r@) =~= old_reds.map_values(
                        |r: Redirect| r@,
                    ) + seq![total[k]->Redirect_0]);
                }
            },
        }
        proof {
            k = k + 1;
        }
    }
    proof {
        assert(total.take(k) =~= total);
    }
    Stage { name, args: plain, reds: Redirects::new(reds) }
}

impl External {
    /// Turns a parsed command into a pipeline: each stage's tokens are
    /// split into plain arguments and redirect directives, the chain
    /// order and the background flag are kept.
    pub fn from_command(cmd: Command) -> (r: External)
        ensures
            r@.bg == cmd@.bg,
            r@.stages.len() == cmd@.stages.len(),
            forall|i: int|
                0 <= i < cmd@.stages.len() ==> {
                    &&& (#[trigger] r@.stages[i]).name == cmd@.stages[i].name
                    &&& r@.stages[i].args == args_of(cmd@.stages[i].args)
                    &&& r@.stages[i].reds == reds_of(cmd@.stages[i].args)
                },
    {
        let ghost cv = cmd@;
        let Command { stages, bg } = cmd;
        let mut rest = stages;
        let mut out: Vec<Stage> = Vec::new();
        let ghost mut k: int = 0;
        while rest.len() > 0
            invariant
                0 <= k <= cv.stages.len(),
                rest@.len() == cv.stages.len() - k,
                forall|j: int| 0 <= j < rest@.len() ==> (#[trigger] rest@[j])@ == cv.stages[k + j],
                out@.len() == k,
                forall|j: int|
                    0 <= j < k ==> {
                        &&& (#[trigger] out@[j])@.name == cv.stages[j].name
                        &&& out@[j]@.args == args_of(cv.stages[j].args)
                        &&& out@[j]@.reds == reds_of(cv.stages[j].args)
                    },
            decreases rest.len(),
        {
            let st = rest.remove(0);
            proof {
                assert(st@ == cv.stages[k]);
            }
            let stage = split_stage(st);
            out.push(stage);
            proof {
                k = k + 1;
            }
        }
        External { stages: out, bg }
    }
}

/// One entry of a chain plan: everything the surrounding binary needs to
/// spawn this stage and wire it into the pipeline.
#[derive(Debug)]
pub struct StagePlan {
    pub name: String,
    pub args: Vec<String>,
    /// The stage's resolved standard streams.
    pub output: Output,
    /// How the parent drains this stage's redirected output streams.
    pub drain: DrainPlan,
    /// Stdin comes from the previous stage's stdout.
    pub stdin_from_pipe: bool,
    /// Stdout feeds the next stage, or is captured by the caller.
    pub stdout_to_pipe: bool,
}

/// Why stage `i` of a chain of `n` cannot be planned, if it cannot: an
/// interior stage's stdin belongs to the upstream pipe, so an explicit
/// input redirect there is refused; a non-terminal stage whose stdout is
/// redirected away leaves nothing to hand to the next stage.
pub open spec fn stage_error(st: StageView, i: int, n: int) -> Option<ShellError> {
    if i > 0 && has_input_redirect(st.reds) {
        Some(ShellError::InteriorInput)
    } else if i < n - 1 && !(resolve_seq(st.reds).stdout.kind is Stdout) {
        Some(ShellError::NoPipeSource)
    } else {
        None
    }
}

/// Every stage of the chain can be planned.
pub open spec fn chain_ok(stages: Seq<StageView>) -> bool {
    forall|i: int|
        0 <= i < stages.len() ==> #[trigger] stage_error(stages[i], i, stages.len() as int)
            is None
}

/// `p` is the correct chain plan for `stages`: one entry per stage with
/// its resolved streams and drain plan, stdin wired to the upstream pipe
/// for every stage but the head, stdout wired onward for every stage but
/// the last, and the terminal stdout piped to the caller exactly when
/// capture is requested and no redirect claimed the stream.
pub open spec fn planned(stages: Seq<StageView>, capture: bool, p: Seq<StagePlan>) -> bool {
    &&& p.len() == stages.len()
    &&& forall|i: int|
        0 <= i < stages.len() ==> {
            let st = stages[i];
            let rs = resolve_seq(st.reds);
            &&& (#[trigger] p[i]).name@ == st.name
            &&& p[i].args@.len() == st.args.len()
            &&& (forall|j: int|
                0 <= j < st.args.len() ==> (#[trigger] p[i].args@[j])@ == st.args[j])
            &&& p[i].output@.stdin == resolved_stdin(rs)
            &&& p[i].output@.stdout == rs.stdout
            &&& p[i].output@.stderr == rs.stderr
            &&& p[i].drain == drain_spec(rs.stdout, rs.stderr)
            &&& p[i].stdin_from_pipe == (i > 0)
            &&& p[i].stdout_to_pipe == (i < stages.len() - 1 || (capture
                && rs.stdout.kind is Stdout))
        }
}

/// The chain was aborted with the error of its first unplannable stage.
pub open spec fn chain_aborted(stages: Seq<StageView>, e: ShellError) -> bool {
    exists|i: int|
        0 <= i < stages.len() && #[trigger] stage_error(stages[i], i, stages.len() as int)
            == Some(e) && (forall|j: int|
            0 <= j < i ==> stage_error(stages[j], j, stages.len() as int) is None)
}

/// Clones a vector of strings, element for element.
fn clone_strings(v: &Vec<String>) -> (r: Vec<String>)
    ensures
        r@.len() == v@.len(),
        forall|j: int| 0 <= j < v@.len() ==> (#[trigger] r@[j])@ == v@[j]@,
{
    let mut out: Vec<String> = Vec::new();
    let n = v.len();
    let mut j: usize = 0;
    while j < n
        invariant
            0 <= j <= n,
            n == v@.len(),
            out@.len() == j,
            forall|l: int| 0 <= l < j ==> (#[trigger] out@[l])@ == v@[l]@,
        decreases n - j,
    {
        out.push(v[j].clone());
        j += 1;
    }
    out
}

impl External {
    /// Plans the whole chain: resolves every stage's redirects and wires
    /// stage `i`'s stdout to stage `i+1`'s stdin, in construction order.
    /// The terminal stage's stdout is piped to the caller when `capture`
    /// asks for text output and no redirect claimed the stream. The first
    /// stage that cannot be planned aborts the chain before anything is
    /// spawned.
    pub fn plan(&self, capture: bool) -> (r: Result<Vec<StagePlan>, ShellError>)
        ensures
            match r {
                Ok(p) => chain_ok(self@.stages) && planned(self@.stages, capture, p@),
                Err(e) => !chain_ok(self@.stages) && chain_aborted(self@.stages, e),
            },
    {
        let n = self.stages.len();
        let mut plans: Vec<StagePlan> = Vec::new();
        let mut i: usize = 0;
        while i < n
            invariant
                0 <= i <= n,
                n == self@.stages.len(),
                self@.stages == self.stages@.map_values(|s: Stage| s@),
                self@.stages.len() == self.stages@.len(),
                forall|j: int| 0 <= j < n ==> #[trigger] self@.stages[j] == self.stages@[j]@,
                plans@.len() == i,
                forall|j: int|
                    0 <= j < i ==> #[trigger] stage_error(self@.stages[j], j, n as int) is None,
                forall|j: int|
                    0 <= j < i ==> {
                        let st = self@.stages[j];
                        let rs = resolve_seq(st.reds);
                        &&& (#[trigger] plans@[j]).name@ == st.name
                        &&& plans@[j].args@.len() == st.args.len()
                        &&& (forall|l: int|
                            0 <= l < st.args.len() ==> (#[trigger] plans@[j].args@[l])@
                                == st.args[l])
                        &&& plans@[j].output@.stdin == resolved_stdin(rs)
                        &&& plans@[j].output@.stdout == rs.stdout
                        &&& plans@[j].output@.stderr == rs.stderr
                        &&& plans@[j].drain == drain_spec(rs.stdout, rs.stderr)
                        &&& plans@[j].stdin_from_pipe == (j > 0)
                        &&& plans@[j].stdout_to_pipe == (j < n - 1 || (capture
                            && rs.stdout.kind is Stdout))
                    },
            decreases n - i,
        {
            let stage = &self.stages[i];
            let interior = i > 0;
            let out = match stage.reds.resolve(interior) {
                Ok(out) => out,
                Err(e) => {
                    proof {
                        assert(stage_error(self@.stages[i as int], i as int, n as int) == Some(
                            ShellError::InteriorInput,
                        ));
                    }
                    return Err(e);
                },
            };
            if i + 1 < n {
                match &out.stdout.kind {
                    RedOutKind::Stdout => {},
                    _ => {
                        proof {
                            assert(stage_error(self@.stages[i as int], i as int, n as int)
                                == Some(ShellError::NoPipeSource));
                        }
                        return Err(ShellError::NoPipeSource);
                    },
                }
            }
            let stdout_to_pipe = if i + 1 < n {
                true
            } else if capture {
                match &out.stdout.kind {
                    RedOutKind::Stdout => true,
                    _ => false,
                }
            } else {
                false
            };
            let drain = drain_plan(&out.stdout, &out.stderr);
            let plan = StagePlan {
                name: stage.name.clone(),
                args: clone_strings(&stage.args),
                output: out,
                drain,
                stdin_from_pipe: interior,
                stdout_to_pipe,
            };
            plans.push(plan);
            i += 1;
        }
        Ok(plans)
    }
}

impl External {
    /// The plan for running the chain with its textual output captured,
    /// for substitution use: the terminal stage's stdout is piped to the
    /// caller, which drains it to the end once the chain is spawned and
    /// takes the bytes as the command's value.
    pub fn output(&self) -> (r: Result<Vec<StagePlan>, ShellError>)
        ensures
            match r {
                Ok(p) => chain_ok(self@.stages) && planned(self@.stages, true, p@),
                Err(e) => !chain_ok(self@.stages) && chain_aborted(self@.stages, e),
            },
    {
        self.plan(true)
    }

    /// What happens once the chain's head process exists: a background
    /// chain is registered and its announcement composed for the user, a
    /// foreground chain is registered for the caller's bracketed wait.
    pub fn register_spawned(&self, jobs: &mut Jobs, pid: Pid) -> (r: Result<
        Option<String>,
        ShellError,
    >)
        requires
            old(jobs).wf(),
            pid.0 >= 0,
        ensures
            final(jobs).wf(),
            match r {
                Ok(report) => match report {
                    Some(line) => {
                        &&& self.bg
                        &&& old(jobs).next() < u32::MAX
                        &&& final(jobs).list() =~= old(jobs).list().push(
                            Job {
                                id: old(jobs).next(),
                                pid: pid.0,
                                kind: JobKind::Background,
                                state: JobState::Running,
                            },
                        )
                        &&& final(jobs).next() == old(jobs).next() + 1
                        &&& line@ == bg_report_spec(old(jobs).next() as nat, pid.0 as nat)
                    },
                    None => {
                        &&& !self.bg
                        &&& !old(jobs).spec_has_foreground()
                        &&& old(jobs).next() < u32::MAX
                        &&& final(jobs).list() =~= old(jobs).list().push(
                            Job {
                                id: old(jobs).next(),
                                pid: pid.0,
                                kind: JobKind::Foreground,
                                state: JobState::Running,
                            },
                        )
                        &&& final(jobs).next() == old(jobs).next() + 1
                    },
                },
                Err(e) => {
                    &&& *final(jobs) == *old(jobs)
                    &&& if !self.bg && old(jobs).spec_has_foreground() {
                        e == ShellError::ForegroundBusy
                    } else {
                        e == ShellError::IdsExhausted && old(jobs).next() == u32::MAX
                    }
                },
            },
    {
        if self.bg {
            match jobs.new_bg(pid) {
                Ok((id, p)) => Ok(Some(bg_report(id, p))),
                Err(e) => Err(e),
            }
        } else {
            match jobs.new_fg(pid) {
                Ok(_) => Ok(None),
                Err(e) => Err(e),
            }
        }
    }
}

/// Pipe composition: in a pipeline without redirects every stage keeps
/// the inherited streams, so the plan wires the head to the shell's own
/// stdin, each stage's stdout to the next stage's stdin, and hands only
/// the terminal stdout to the caller — the chain behaves as the programs
/// composed one after the other, and no stage can fail to plan.
pub proof fn lemma_pipe_composition(stages: Seq<StageView>)
    requires
        forall|i: int| 0 <= i < stages.len() ==> (#[trigger] stages[i]).reds.len() == 0,
    ensures
        chain_ok(stages),
        forall|i: int|
            0 <= i < stages.len() ==> resolve_seq((#[trigger] stages[i]).reds)
                == crate::redirect::initial_state(),
        forall|i: int|
            0 <= i < stages.len() ==> resolved_stdin(resolve_seq((#[trigger] stages[i]).reds))
                == crate::redirect::RedInView::Stdin,
{
    assert forall|i: int| 0 <= i < stages.len() implies resolve_seq((#[trigger] stages[i]).reds)
        == crate::redirect::initial_state() by {
        assert(stages[i].reds =~= Seq::<RedirectView>::empty());
    }
    assert forall|i: int| 0 <= i < stages.len() implies #[trigger] stage_error(
        stages[i],
        i,
        stages.len() as int,
    ) is None by {
        if has_input_redirect(stages[i].reds) {
            let j = choose|j: int|
                0 <= j < stages[i].reds.len() && ((#[trigger] stages[i].reds[j]) is Input
                    || stages[i].reds[j] is Heredoc);
            assert(false);
        }
    }
}

} // verus!
