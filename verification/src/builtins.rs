//! The builtins with process-management duties.
//!
//! `exit`, `cd` and `fg` validate their arguments here; what they decide
//! (an exit code, a target directory, a job to resume) is returned to the
//! surrounding binary, which performs the actual process termination,
//! directory change or signal delivery. `cmd` turns a name, arguments and
//! resolved streams into the launch plan for one external command.

use vstd::prelude::*;

use crate::error::ShellError;
use crate::job::{Jobs, Pid};
use crate::redirect::{
    drain_plan, drain_spec, default_stdout, default_stderr, DrainPlan, Mode, Output, RedOutKind,
};

verus! {

/// Is this character a decimal digit?
pub open spec fn is_digit(c: char) -> bool {
    48 <= c as u32 <= 57
}

/// The numeric value of a decimal digit.
pub open spec fn digit_val(c: char) -> int {
    c as u32 - 48
}

/// Is every character of the sequence a decimal digit?
pub open spec fn all_digits(s: Seq<char>) -> bool {
    forall|i: int| 0 <= i < s.len() ==> is_digit(#[trigger] s[i])
}

/// The value of a digit sequence read as a decimal numeral.
pub open spec fn dec_val(s: Seq<char>) -> int
    decreases s.len(),
{
    if s.len() == 0 {
        0
    } else {
        dec_val(s.drop_last()) * 10 + digit_val(s.last())
    }
}

/// The digits of an optionally signed numeral: everything after a leading
/// `+` or `-`, or the whole sequence when neither is present.
pub open spec fn int_body(s: Seq<char>) -> Seq<char> {
    if s.len() > 0 && (s[0] == '+' || s[0] == '-') {
        s.skip(1)
    } else {
        s
    }
}

/// Does the numeral carry a leading minus sign?
pub open spec fn int_negative(s: Seq<char>) -> bool {
    s.len() > 0 && s[0] == '-'
}

/// Is the sequence a well-formed decimal integer: an optional sign
/// followed by one or more digits?
pub open spec fn is_int_str(s: Seq<char>) -> bool {
    int_body(s).len() > 0 && all_digits(int_body(s))
}

/// The integer a well-formed decimal numeral denotes.
pub open spec fn int_val(s: Seq<char>) -> int {
    if int_negative(s) {
        -dec_val(int_body(s))
    } else {
        dec_val(int_body(s))
    }
}

/// A digit sequence denotes a nonnegative value.
proof fn lemma_dec_val_nonneg(s: Seq<char>)
    requires
        all_digits(s),
    ensures
        dec_val(s) >= 0,
    decreases s.len(),
{
    if s.len() > 0 {
        let prefix = s.drop_last();
        assert forall|i: int| 0 <= i < prefix.len() implies is_digit(#[trigger] prefix[i]) by {
            assert(prefix[i] == s[i]);
        }
        lemma_dec_val_nonneg(prefix);
        assert(is_digit(s[s.len() - 1]));
    }
}

/// Reading more digits never shrinks the value: every prefix of a digit
/// sequence denotes at most the whole sequence's value.
proof fn lemma_dec_val_prefix(s: Seq<char>, i: int)
    requires
        0 <= i <= s.len(),
        all_digits(s),
    ensures
        dec_val(s.take(i)) <= dec_val(s),
    decreases s.len() - i,
{
    if i == s.len() {
        assert(s.take(i) =~= s);
    } else {
        assert(s.take(i + 1).drop_last() =~= s.take(i));
        assert(s.take(i + 1).last() == s[i]);
        assert forall|j: int| 0 <= j < i implies is_digit(#[trigger] s.take(i)[j]) by {
            assert(s.take(i)[j] == s[j]);
        }
        lemma_dec_val_nonneg(s.take(i));
        assert(is_digit(s[i]));
        assert(dec_val(s.take(i + 1)) == dec_val(s.take(i)) * 10 + digit_val(s[i]));
        lemma_dec_val_prefix(s, i + 1);
    }
}

/// Parses an optionally signed decimal integer, exactly when the text is
/// a well-formed numeral whose value fits in an `i32`.
pub fn parse_i32(s: &str) -> (r: Result<i32, ShellError>)
    ensures
        match r {
            Ok(v) => {
                &&& is_int_str(s@)
                &&& i32::MIN <= int_val(s@) <= i32::MAX
                &&& v as int == int_val(s@)
            },
            Err(e) => {
                &&& !is_int_str(s@) || int_val(s@) < i32::MIN || int_val(s@) > i32::MAX
                &&& e == ShellError::BadNumber
            },
        },
{
    let n = s.unicode_len();
    if n == 0 {
        return Err(ShellError::BadNumber);
    }
    let c0 = s.get_char(0);
    let signed = c0 == '+' || c0 == '-';
    let neg = c0 == '-';
    let start: usize = if signed {
        1
    } else {
        0
    };
    if start == n {
        proof {
            assert(int_body(s@) =~= s@.skip(1));
            assert(int_body(s@).len() == 0);
        }
        return Err(ShellError::BadNumber);
    }
    let ghost body = int_body(s@);
    proof {
        if signed {
            assert(body =~= s@.skip(1));
        } else {
            assert(body =~= s@);
        }
    }
    let limit: u64 = if neg {
        2147483648
    } else {
        2147483647
    };
    let mut acc: u64 = 0;
    let mut i: usize = start;
    while i < n
        invariant
            start <= i <= n,
            n == s@.len(),
            start == if signed { 1int } else { 0int },
            body == int_body(s@),
            body.len() == n - start,
            forall|j: int| 0 <= j < body.len() ==> body[j] == s@[start + j],
            all_digits(body.take(i - start)),
            acc == dec_val(body.take(i - start)),
            0 <= acc <= limit,
            limit == if neg { 2147483648u64 } else { 2147483647u64 },
            neg == int_negative(s@),
        decreases n - i,
    {
        let c = s.get_char(i);
        let cv = c as u32;
        proof {
            assert(body[i - start] == s@[i as int]);
        }
        if cv < 48 || cv > 57 {
            proof {
                assert(!is_digit(body[i - start]));
                assert(!all_digits(body));
            }
            return Err(ShellError::BadNumber);
        }
        let d = (cv - 48) as u64;
        let next = acc * 10 + d;
        proof {
            assert(body.take(i - start + 1).drop_last() =~= body.take(i - start));
            assert(body.take(i - start + 1).last() == body[i - start]);
            assert(dec_val(body.take(i - start + 1)) == acc * 10 + digit_val(body[i - start]));
        }
        if next > limit {
            proof {
                if is_int_str(s@) {
                    lemma_dec_val_prefix(body, i - start + 1);
                    assert(dec_val(body) >= next);
                    if neg {
                        assert(int_val(s@) <= -(next as int));
                        assert(int_val(s@) < i32::MIN);
                    } else {
                        assert(int_val(s@) >= next);
                        assert(int_val(s@) > i32::MAX);
                    }
                }
            }
            return Err(ShellError::BadNumber);
        }
        acc = next;
        i += 1;
    }
    proof {
        assert(body.take(n - start) =~= body);
        assert(is_int_str(s@));
    }
    if neg {
        let v = -(acc as i64);
        proof {
            assert(int_val(s@) == -(acc as int));
        }
        Ok(v as i32)
    } else {
        proof {
            assert(int_val(s@) == acc);
        }
        Ok(acc as i32)
    }
}

/// Validates the arguments of the `exit` builtin and yields the process
/// exit code: none means zero, one must be a decimal number, more than
/// one is an error. The caller terminates the process with the code.
pub fn exit(args: &Vec<String>) -> (r: Result<i32, ShellError>)
    ensures
        match r {
            Ok(v) => {
                &&& args@.len() <= 1
                &&& args@.len() == 0 ==> v == 0
                &&& args@.len() == 1 ==> is_int_str(args@[0]@) && i32::MIN <= int_val(args@[0]@)
                    <= i32::MAX && v as int == int_val(args@[0]@)
            },
            Err(e) => {
                &&& args@.len() != 0
                &&& e == if args@.len() > 1 {
                    ShellError::ArgCount
                } else {
                    ShellError::BadNumber
                }
                &&& args@.len() == 1 ==> (!is_int_str(args@[0]@) || int_val(args@[0]@) < i32::MIN
                    || int_val(args@[0]@) > i32::MAX)
            },
        },
{
    if args.len() == 0 {
        Ok(0)
    } else if args.len() == 1 {
        parse_i32(args[0].as_str())
    } else {
        Err(ShellError::ArgCount)
    }
}

/// Validates the arguments of the `cd` builtin and yields the directory
/// to change to: no argument means the home directory the environment
/// offers, one argument is the target itself, more is an error. The
/// caller performs the actual directory change.
pub fn cd(args: Vec<String>, home: Option<String>) -> (r: Result<String, ShellError>)
    ensures
        match r {
            Ok(path) => {
                &&& args@.len() <= 1
                &&& args@.len() == 1 ==> path@ == args@[0]@
                &&& args@.len() == 0 ==> home is Some && path@ == home.unwrap()@
            },
            Err(e) => {
                &&& e == if args@.len() > 1 {
                    ShellError::ArgCount
                } else {
                    ShellError::NoHome
                }
                &&& args@.len() == 0 ==> home is None
                &&& args@.len() != 1
            },
        },
{
    if args.len() == 0 {
        match home {
            Some(h) => Ok(h),
            None => Err(ShellError::NoHome),
        }
    } else if args.len() == 1 {
        let mut args = args;
        Ok(args.remove(0))
    } else {
        Err(ShellError::ArgCount)
    }
}

/// The `fg` builtin: takes exactly one argument, the decimal pid of a
/// stopped or background job, brings the first live job holding it into
/// the foreground, and yields the pid for the caller to send the
/// continue signal to and then block on until the job exits.
pub fn fg(args: &Vec<String>, jobs: &mut Jobs) -> (r: Result<Pid, ShellError>)
    requires
        old(jobs).wf(),
    ensures
        final(jobs).wf(),
        final(jobs).next() == old(jobs).next(),
        match r {
            Ok(pid) => {
                &&& args@.len() == 1
                &&& is_int_str(args@[0]@) && i32::MIN <= int_val(args@[0]@) <= i32::MAX
                &&& pid.0 as int == int_val(args@[0]@)
                &&& old(jobs).spec_has_live(pid.0)
                &&& old(jobs).restart_transition(*final(jobs), pid.0)
            },
            Err(e) => {
                &&& *final(jobs) == *old(jobs)
                &&& if args@.len() != 1 {
                    e == ShellError::ArgCount
                } else if !is_int_str(args@[0]@) || int_val(args@[0]@) < i32::MIN || int_val(
                    args@[0]@,
                ) > i32::MAX {
                    e == ShellError::BadNumber
                } else {
                    e == ShellError::UnknownJob && !old(jobs).spec_has_live(
                        int_val(args@[0]@) as i32,
                    )
                }
            },
        },
{
    if args.len() != 1 {
        return Err(ShellError::ArgCount);
    }
    let v = match parse_i32(args[0].as_str()) {
        Ok(v) => v,
        Err(e) => {
            return Err(e);
        },
    };
    let pid = Pid(v);
    match jobs.restart(pid) {
        Ok(()) => Ok(pid),
        Err(e) => Err(e),
    }
}

/// Everything the surrounding binary needs to launch one command whose
/// streams were already resolved: which standard streams to create as
/// pipes rather than inherit, and how the parent drains them afterwards.
#[derive(Debug)]
pub struct CmdPlan {
    pub name: String,
    pub args: Vec<String>,
    /// The resolved streams the plan was built from.
    pub output: Output,
    /// Stdin leaves its default (a file or heredoc feeds it): pipe it.
    pub pipe_stdin: bool,
    /// Stdout leaves its default: pipe it and drain per `drain`.
    pub pipe_stdout: bool,
    /// Stderr leaves its default: pipe it and drain per `drain`.
    pub pipe_stderr: bool,
    /// What the parent copies where once the child runs, and in which
    /// order.
    pub drain: DrainPlan,
}

/// Builds the launch plan for one external command: a stream is piped
/// exactly when its resolved target differs from the inherited default,
/// and the drain plan merges stdout and stderr into one handle exactly
/// when both go to the same file in the same mode.
pub fn cmd(name: String, args: Vec<String>, output: Output) -> (r: CmdPlan)
    ensures
        r.name == name,
        r.args == args,
        r.output == output,
        r.pipe_stdin == !(output@.stdin is Stdin),
        r.pipe_stdout == (output@.stdout != default_stdout()),
        r.pipe_stderr == (output@.stderr != default_stderr()),
        r.drain == drain_spec(output@.stdout, output@.stderr),
{
    let pipe_stdin = match &output.stdin {
        crate::redirect::RedIn::Stdin => false,
        _ => true,
    };
    let pipe_stdout = match &output.stdout.kind {
        RedOutKind::Stdout => output.stdout.mode == Mode::Append,
        _ => true,
    };
    let pipe_stderr = match &output.stderr.kind {
        RedOutKind::Stderr => output.stderr.mode == Mode::Append,
        _ => true,
    };
    let drain = drain_plan(&output.stdout, &output.stderr);
    CmdPlan { name, args, output, pipe_stdin, pipe_stdout, pipe_stderr, drain }
}

} // verus!
