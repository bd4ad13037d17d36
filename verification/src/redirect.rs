//! Redirection resolver.
//!
//! A stage's parsed redirect directives are folded left to right into the
//! three standard streams of the process about to be spawned: the last
//! directive for a stream wins, except heredoc content, which accumulates
//! and is delivered as a single write once the process has started. The
//! resolver also yields the drain plan: which streams the parent must copy
//! where after the spawn, and in which order.

use vstd::prelude::*;

use crate::error::ShellError;

verus! {

/// The two output streams of a process.
#[derive(Clone, Copy, PartialEq, Eq, Structural, Debug)]
pub enum Stream {
    Stdout,
    Stderr,
}

/// Whether an output file is opened afresh or extended at its end.
#[derive(Clone, Copy, PartialEq, Eq, Structural, Debug)]
pub enum Mode {
    Truncate,
    Append,
}

/// One parsed redirect directive, in the order the user wrote them.
#[derive(Debug)]
pub enum Redirect {
    /// `< path`: read standard input from a file.
    Input { path: String },
    /// A heredoc: feed literal bytes to standard input.
    Heredoc { content: Vec<u8> },
    /// `> path`, `>> path` and their stderr forms: send one stream to a file.
    Output { stream: Stream, path: String, mode: Mode },
    /// Point one stream at the other's current target.
    Duplicate { from: Stream, to: Stream },
}

/// Mathematical image of a `Redirect`.
pub enum RedirectView {
    Input { path: Seq<char> },
    Heredoc { content: Seq<u8> },
    Output { stream: Stream, path: Seq<char>, mode: Mode },
    Duplicate { from: Stream, to: Stream },
}

impl View for Redirect {
    type V = RedirectView;

    open spec fn view(&self) -> RedirectView {
        match self {
            Redirect::Input { path } => RedirectView::Input { path: path@ },
            Redirect::Heredoc { content } => RedirectView::Heredoc { content: content@ },
            Redirect::Output { stream, path, mode } => RedirectView::Output {
                stream: *stream,
                path: path@,
                mode: *mode,
            },
            Redirect::Duplicate { from, to } => RedirectView::Duplicate { from: *from, to: *to },
        }
    }
}

/// Where an output stream of the child is to be sent.
#[derive(Debug)]
pub enum RedOutKind {
    /// The shell's own standard output, inherited.
    Stdout,
    /// The shell's own standard error, inherited.
    Stderr,
    /// A file the parent opens and copies into.
    File(String),
}

/// An output stream's resolved target together with the open mode.
#[derive(Debug)]
pub struct RedOut {
    pub kind: RedOutKind,
    pub mode: Mode,
}

/// Mathematical image of a `RedOutKind`.
pub enum RedOutKindView {
    Stdout,
    Stderr,
    File(Seq<char>),
}

/// Mathematical image of a `RedOut`.
pub struct RedOutView {
    pub kind: RedOutKindView,
    pub mode: Mode,
}

impl View for RedOutKind {
    type V = RedOutKindView;

    open spec fn view(&self) -> RedOutKindView {
        match self {
            RedOutKind::Stdout => RedOutKindView::Stdout,
            RedOutKind::Stderr => RedOutKindView::Stderr,
            RedOutKind::File(path) => RedOutKindView::File(path@),
        }
    }
}

impl View for RedOut {
    type V = RedOutView;

    open spec fn view(&self) -> RedOutView {
        RedOutView { kind: self.kind@, mode: self.mode }
    }
}

/// Where the child's standard input is to come from.
#[derive(Debug)]
pub enum RedIn {
    /// The shell's own standard input, inherited.
    Stdin,
    /// A file the parent opens and copies from.
    File(String),
    /// Synthesized heredoc bytes, written by the parent after the spawn.
    Heredoc(Vec<u8>),
}

/// Mathematical image of a `RedIn`.
pub enum RedInView {
    Stdin,
    File(Seq<char>),
    Heredoc(Seq<u8>),
}

impl View for RedIn {
    type V = RedInView;

    open spec fn view(&self) -> RedInView {
        match self {
            RedIn::Stdin => RedInView::Stdin,
            RedIn::File(path) => RedInView::File(path@),
            RedIn::Heredoc(content) => RedInView::Heredoc(content@),
        }
    }
}

/// The resolved standard streams of a process about to be spawned.
#[derive(Debug)]
pub struct Output {
    pub stdin: RedIn,
    pub stdout: RedOut,
    pub stderr: RedOut,
}

/// Mathematical image of an `Output`.
pub struct OutputView {
    pub stdin: RedInView,
    pub stdout: RedOutView,
    pub stderr: RedOutView,
}

impl View for Output {
    type V = OutputView;

    open spec fn view(&self) -> OutputView {
        OutputView { stdin: self.stdin@, stdout: self.stdout@, stderr: self.stderr@ }
    }
}

/// The inherited standard output, as a resolved target.
pub open spec fn default_stdout() -> RedOutView {
    RedOutView { kind: RedOutKindView::Stdout, mode: Mode::Truncate }
}

/// The inherited standard error, as a resolved target.
pub open spec fn default_stderr() -> RedOutView {
    RedOutView { kind: RedOutKindView::Stderr, mode: Mode::Truncate }
}

impl RedOut {
    /// The target a command's stdout has when nothing redirects it.
    pub fn stdout() -> (r: RedOut)
        ensures
            r@ == default_stdout(),
    {
        RedOut { kind: RedOutKind::Stdout, mode: Mode::Truncate }
    }

    /// The target a command's stderr has when nothing redirects it.
    pub fn stderr() -> (r: RedOut)
        ensures
            r@ == default_stderr(),
    {
        RedOut { kind: RedOutKind::Stderr, mode: Mode::Truncate }
    }
}

/// The resolver's running state while folding directives left to right.
pub struct ResolveState {
    /// Last input descriptor directive seen (heredocs kept apart).
    pub stdin: RedInView,
    /// Accumulated heredoc bytes, `None` while no heredoc was seen.
    pub heredoc: Option<Seq<u8>>,
    pub stdout: RedOutView,
    pub stderr: RedOutView,
}

/// The state before any directive is applied: all three streams inherited.
pub open spec fn initial_state() -> ResolveState {
    ResolveState {
        stdin: RedInView::Stdin,
        heredoc: None,
        stdout: default_stdout(),
        stderr: default_stderr(),
    }
}

/// The current target of the given output stream.
pub open spec fn target_of(st: ResolveState, s: Stream) -> RedOutView {
    match s {
        Stream::Stdout => st.stdout,
        Stream::Stderr => st.stderr,
    }
}

/// One directive applied to the resolver state: last-wins per stream,
/// heredoc bytes accumulated.
pub open spec fn apply(st: ResolveState, r: RedirectView) -> ResolveState {
    match r {
        RedirectView::Input { path } => ResolveState {
            stdin: RedInView::File(path),
            heredoc: st.heredoc,
            stdout: st.stdout,
            stderr: st.stderr,
        },
        RedirectView::Heredoc { content } => ResolveState {
            stdin: st.stdin,
            heredoc: Some(
                match st.heredoc {
                    Some(acc) => acc + content,
                    None => content,
                },
            ),
            stdout: st.stdout,
            stderr: st.stderr,
        },
        RedirectView::Output { stream, path, mode } => match stream {
            Stream::Stdout => ResolveState {
                stdin: st.stdin,
                heredoc: st.heredoc,
                stdout: RedOutView { kind: RedOutKindView::File(path), mode },
                stderr: st.stderr,
            },
            Stream::Stderr => ResolveState {
                stdin: st.stdin,
                heredoc: st.heredoc,
                stdout: st.stdout,
                stderr: RedOutView { kind: RedOutKindView::File(path), mode },
            },
        },
        RedirectView::Duplicate { from, to } => match to {
            Stream::Stdout => ResolveState {
                stdin: st.stdin,
                heredoc: st.heredoc,
                stdout: target_of(st, from),
                stderr: st.stderr,
            },
            Stream::Stderr => ResolveState {
                stdin: st.stdin,
                heredoc: st.heredoc,
                stdout: st.stdout,
                stderr: target_of(st, from),
            },
        },
    }
}

/// The resolver state after folding a whole directive list, left to right.
pub open spec fn resolve_seq(rs: Seq<RedirectView>) -> ResolveState
    decreases rs.len(),
{
    if rs.len() == 0 {
        initial_state()
    } else {
        apply(resolve_seq(rs.drop_last()), rs.last())
    }
}

/// The resolved stdin: pending heredoc bytes force stdin to be the pipe
/// that will deliver them, whatever descriptor directive came last.
pub open spec fn resolved_stdin(st: ResolveState) -> RedInView {
    match st.heredoc {
        Some(acc) => RedInView::Heredoc(acc),
        None => st.stdin,
    }
}

/// Does the list carry an explicit input redirect (file or heredoc)?
pub open spec fn has_input_redirect(rs: Seq<RedirectView>) -> bool {
    exists|i: int| 0 <= i < rs.len() && (rs[i] is Input || rs[i] is Heredoc)
}

/// Does the list carry a heredoc directive?
pub open spec fn has_heredoc(rs: Seq<RedirectView>) -> bool {
    exists|i: int| 0 <= i < rs.len() && rs[i] is Heredoc
}

/// The concatenation, in order, of every heredoc's bytes in the list.
pub open spec fn heredoc_bytes(rs: Seq<RedirectView>) -> Seq<u8>
    decreases rs.len(),
{
    if rs.len() == 0 {
        Seq::empty()
    } else {
        heredoc_bytes(rs.drop_last()) + (match rs.last() {
            RedirectView::Heredoc { content } => content,
            _ => Seq::empty(),
        })
    }
}

/// A list without a heredoc directive contributes no heredoc bytes.
proof fn lemma_no_heredoc_no_bytes(rs: Seq<RedirectView>)
    requires
        !has_heredoc(rs),
    ensures
        heredoc_bytes(rs) =~= Seq::<u8>::empty(),
    decreases rs.len(),
{
    if rs.len() > 0 {
        let prefix = rs.drop_last();
        if has_heredoc(prefix) {
            let j = choose|j: int| 0 <= j < prefix.len() && (#[trigger] prefix[j]) is Heredoc;
            assert(rs[j] == prefix[j]);
            assert(has_heredoc(rs));
        }
        lemma_no_heredoc_no_bytes(prefix);
        assert(!(rs[rs.len() - 1] is Heredoc));
    }
}

/// Heredoc directives never override one another: the resolver accumulates
/// their bytes in the order they were written, and delivers exactly that
/// concatenation — a single heredoc therefore arrives byte for byte.
pub proof fn lemma_heredoc_accumulation(rs: Seq<RedirectView>)
    ensures
        resolve_seq(rs).heredoc == if has_heredoc(rs) {
            Some(heredoc_bytes(rs))
        } else {
            None::<Seq<u8>>
        },
    decreases rs.len(),
{
    if rs.len() == 0 {
    } else {
        let prefix = rs.drop_last();
        lemma_heredoc_accumulation(prefix);
        if rs.last() is Heredoc {
            assert(rs[rs.len() - 1] is Heredoc);
            assert(has_heredoc(rs));
            if !has_heredoc(prefix) {
                lemma_no_heredoc_no_bytes(prefix);
                assert(heredoc_bytes(rs) =~= (match rs.last() {
                    RedirectView::Heredoc { content } => content,
                    _ => Seq::empty(),
                }));
            }
        } else {
            if has_heredoc(prefix) {
                let i = choose|i: int| 0 <= i < prefix.len() && prefix[i] is Heredoc;
                assert(rs[i] is Heredoc);
                assert(has_heredoc(rs));
                assert(heredoc_bytes(rs) =~= heredoc_bytes(prefix));
            } else {
                if has_heredoc(rs) {
                    let i = choose|i: int| 0 <= i < rs.len() && rs[i] is Heredoc;
                    assert(i < rs.len() - 1 ==> prefix[i] is Heredoc);
                    assert(false);
                }
            }
        }
    }
}

/// Whenever a heredoc is pending, the resolved stdin is the written pipe,
/// so the process always has a writable stdin for the heredoc bytes.
pub proof fn lemma_heredoc_forces_pipe(rs: Seq<RedirectView>)
    ensures
        has_heredoc(rs) ==> resolved_stdin(resolve_seq(rs)) == RedInView::Heredoc(
            heredoc_bytes(rs),
        ),
{
    lemma_heredoc_accumulation(rs);
}

/// A stage's redirect directives, kept in the order the user wrote them.
#[derive(Debug)]
pub struct Redirects {
    reds: Vec<Redirect>,
}

impl View for Redirects {
    type V = Seq<RedirectView>;

    closed spec fn view(&self) -> Seq<RedirectView> {
        self.reds@.map_values(|r: Redirect| r@)
    }
}

/// A directive that is neither a file input nor a heredoc cannot introduce
/// an input redirect into the prefix it extends.
proof fn lemma_keeps_no_input(rs: Seq<RedirectView>, i: int)
    requires
        0 <= i < rs.len(),
        !has_input_redirect(rs.take(i)),
        !(rs[i] is Input),
        !(rs[i] is Heredoc),
    ensures
        !has_input_redirect(rs.take(i + 1)),
{
    let s2 = rs.take(i + 1);
    assert forall|j: int| 0 <= j < s2.len() implies !((#[trigger] s2[j]) is Input || s2[j] is Heredoc) by {
        if j < i {
            assert(s2[j] == rs.take(i)[j]);
        } else {
            assert(s2[j] == rs[i]);
        }
    }
}

/// Clones a resolved output target.
fn copy_out(o: &RedOut) -> (r: RedOut)
    ensures
        r@ == o@,
{
    RedOut {
        kind: match &o.kind {
            RedOutKind::Stdout => RedOutKind::Stdout,
            RedOutKind::Stderr => RedOutKind::Stderr,
            RedOutKind::File(path) => RedOutKind::File(path.clone()),
        },
        mode: o.mode,
    }
}

impl Redirects {
    /// Wraps the parser's directive list.
    pub fn new(reds: Vec<Redirect>) -> (r: Redirects)
        ensures
            r@ == reds@.map_values(|x: Redirect| x@),
    {
        Redirects { reds }
    }

    /// How many directives the stage carries.
    pub fn len(&self) -> (r: usize)
        ensures
            r == self@.len(),
    {
        self.reds.len()
    }

    /// Folds the directives into the three standard streams: the last
    /// directive for a stream wins, heredoc bytes accumulate and force
    /// stdin to be the pipe that will carry them. An interior pipeline
    /// stage's stdin belongs to the upstream pipe, so an explicit input
    /// redirect on one is an error, not silently ignored.
    pub fn resolve(&self, interior: bool) -> (r: Result<Output, ShellError>)
        ensures
            match r {
                Ok(out) => {
                    &&& !(interior && has_input_redirect(self@))
                    &&& out@.stdin == resolved_stdin(resolve_seq(self@))
                    &&& out@.stdout == resolve_seq(self@).stdout
                    &&& out@.stderr == resolve_seq(self@).stderr
                },
                Err(e) => {
                    &&& interior && has_input_redirect(self@)
                    &&& e == ShellError::InteriorInput
                },
            },
    {
        let mut stdin = RedIn::Stdin;
        let mut heredoc: Option<Vec<u8>> = None;
        let mut stdout = RedOut::stdout();
        let mut stderr = RedOut::stderr();
        let n = self.reds.len();
        let mut i: usize = 0;
        while i < n
            invariant
                0 <= i <= n,
                n == self.reds.len(),
                self@.len() == n,
                forall|j: int| 0 <= j < n ==> self@[j] == self.reds@[j]@,
                stdin@ == resolve_seq(self@.take(i as int)).stdin,
                stdout@ == resolve_seq(self@.take(i as int)).stdout,
                stderr@ == resolve_seq(self@.take(i as int)).stderr,
                match heredoc {
                    Some(h) => resolve_seq(self@.take(i as int)).heredoc == Some(h@),
                    None => resolve_seq(self@.take(i as int)).heredoc is None,
                },
                !(interior && has_input_redirect(self@.take(i as int))),
            decreases n - i,
        {
            proof {
                assert(self@.take(i + 1).drop_last() =~= self@.take(i as int));
                assert(self@.take(i + 1).last() == self@[i as int]);
            }
            let ghost pre = resolve_seq(self@.take(i as int));
            match &self.reds[i] {
                Redirect::Input { path } => {
                    if interior {
                        proof {
                            assert(self@[i as int] is Input);
                            assert(has_input_redirect(self@));
                        }
                        return Err(ShellError::InteriorInput);
                    }
                    stdin = RedIn::File(path.clone());
                },
                Redirect::Heredoc { content } => {
                    if interior {
                        proof {
                            assert(self@[i as int] is Heredoc);
                            assert(has_input_redirect(self@));
                        }
                        return Err(ShellError::InteriorInput);
                    }
                    heredoc = match heredoc {
                        Some(mut acc) => {
                            let mut tail = vstd::slice::slice_to_vec(content.as_slice());
                            acc.append(&mut tail);
                            Some(acc)
                        },
                        None => Some(vstd::slice::slice_to_vec(content.as_slice())),
                    };
                },
                Redirect::Output { stream, path, mode } => {
                    proof {
                        if interior {
                            lemma_keeps_no_input(self@, i as int);
                        }
                    }
                    let tgt = RedOut { kind: RedOutKind::File(path.clone()), mode: *mode };
                    match stream {
                        Stream::Stdout => {
                            stdout = tgt;
                        },
                        Stream::Stderr => {
                            stderr = tgt;
                        },
                    }
                },
                Redirect::Duplicate { from, to } => {
                    proof {
                        if interior {
                            lemma_keeps_no_input(self@, i as int);
                        }
                    }
                    let src = match from {
                        Stream::Stdout => copy_out(&stdout),
                        Stream::Stderr => copy_out(&stderr),
                    };
                    match to {
                        Stream::Stdout => {
                            stdout = src;
                        },
                        Stream::Stderr => {
                            stderr = src;
                        },
                    }
                },
            }
            i += 1;
        }
        proof {
            assert(self@.take(n as int) =~= self@);
        }
        let resolved_in = match heredoc {
            Some(h) => RedIn::Heredoc(h),
            None => stdin,
        };
        Ok(Output { stdin: resolved_in, stdout, stderr })
    }
}

/// What the parent must copy after the spawn, and in which order.
#[derive(Clone, Copy, PartialEq, Eq, Structural, Debug)]
pub enum DrainPlan {
    /// Both streams inherited: nothing to drain.
    Nothing,
    /// Only stderr leaves its default: drain it alone.
    StderrOnly,
    /// Only stdout leaves its default: drain it alone.
    StdoutOnly,
    /// Both streams go to the same file in the same mode: one handle is
    /// opened and both are written through it, stdout first, so the second
    /// stream can never truncate what the first already wrote.
    Merged,
    /// Both streams leave their defaults for distinct targets: each gets
    /// its own handle, and stderr is drained strictly before stdout to
    /// avoid a two-sided pipe deadlock.
    StderrThenStdout,
}

/// The path of a file target (meaningful only when the kind is `File`).
pub open spec fn file_path(k: RedOutKindView) -> Seq<char> {
    match k {
        RedOutKindView::File(path) => path,
        _ => Seq::empty(),
    }
}

/// The drain plan a resolved pair of output targets calls for.
pub open spec fn drain_spec(o: RedOutView, e: RedOutView) -> DrainPlan {
    if o.kind is Stdout && e.kind is Stderr {
        DrainPlan::Nothing
    } else if o.kind is Stdout {
        DrainPlan::StderrOnly
    } else if e.kind is Stderr {
        DrainPlan::StdoutOnly
    } else if o.kind is File && e.kind is File && file_path(o.kind) == file_path(e.kind)
        && o.mode == e.mode {
        DrainPlan::Merged
    } else {
        DrainPlan::StderrThenStdout
    }
}

/// Chooses how the parent drains the child's output streams.
pub fn drain_plan(stdout: &RedOut, stderr: &RedOut) -> (r: DrainPlan)
    ensures
        r == drain_spec(stdout@, stderr@),
{
    match (&stdout.kind, &stderr.kind) {
        (RedOutKind::Stdout, RedOutKind::Stderr) => DrainPlan::Nothing,
        (RedOutKind::Stdout, RedOutKind::Stdout) => DrainPlan::StderrOnly,
        (RedOutKind::Stdout, RedOutKind::File(_)) => DrainPlan::StderrOnly,
        (RedOutKind::Stderr, RedOutKind::Stderr) => DrainPlan::StdoutOnly,
        (RedOutKind::File(_), RedOutKind::Stderr) => DrainPlan::StdoutOnly,
        (RedOutKind::File(out), RedOutKind::File(err)) => {
            if out.eq(err) && stdout.mode == stderr.mode {
                DrainPlan::Merged
            } else {
                DrainPlan::StderrThenStdout
            }
        },
        (RedOutKind::Stderr, RedOutKind::Stdout) => DrainPlan::StderrThenStdout,
        (RedOutKind::Stderr, RedOutKind::File(_)) => DrainPlan::StderrThenStdout,
        (RedOutKind::File(_), RedOutKind::Stdout) => DrainPlan::StderrThenStdout,
    }
}

/// Redirecting both streams to the same path is merged into one handle
/// exactly when the modes agree as well.
pub proof fn lemma_same_target_merged(o: RedOutView, e: RedOutView)
    requires
        o.kind is File,
        e.kind is File,
    ensures
        drain_spec(o, e) == DrainPlan::Merged <==> (file_path(o.kind) == file_path(e.kind)
            && o.mode == e.mode),
{
}

/// Streams aimed at different files, or at one file in different modes,
/// keep a writer each and are drained separately, stderr first.
pub proof fn lemma_distinct_targets_separate(o: RedOutView, e: RedOutView)
    requires
        o.kind is File,
        e.kind is File,
        file_path(o.kind) != file_path(e.kind) || o.mode != e.mode,
    ensures
        drain_spec(o, e) == DrainPlan::StderrThenStdout,
{
}

} // verus!
