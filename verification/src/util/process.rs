//! Running subprocesses, as the daemon's logic sees it.
use vstd::prelude::*;

use crate::error::{view_result, view_text_result, Error, ErrorView};
use crate::util::text::{lossy_text, lossy_utf8, trim_text, trimmed};
use crate::util::validate::texts;

verus! {

/// Abstraction over subprocess execution for testability.
///
/// The program runs real processes through its own implementation; tests can
/// swap in a mock implementation to control subprocess results without
/// forking real processes. Nothing is assumed of what an implementation
/// returns: the logic that calls it is verified for every outcome.
pub trait CommandRunner {
    /// Run a command and return whether it exited successfully (code 0).
    ///
    /// # Errors
    ///
    /// Returns [`Error::Spawn`] if the process cannot be started.
    fn run_check(&self, bin: &str, args: &[&str]) -> Result<bool, Error>;

    /// Run a command and capture its stdout as a trimmed `String`.
    ///
    /// # Errors
    ///
    /// Returns [`Error::Spawn`] if the process cannot be started, or
    /// [`Error::NonZeroExit`] if it exits with a non-zero status.
    fn run_output(&self, bin: &str, args: &[&str]) -> Result<String, Error>;

    /// Replace the current process with the given command (unix `exec`).
    ///
    /// # Errors
    ///
    /// Returns [`Error::Exec`] if exec fails (or on non-unix platforms).
    fn run_exec(&self, bin: &str, args: &[&str]) -> Result<(), Error>;
}

} // verus!

verus! {

/// The characters of each string in `args`.
pub open spec fn string_texts(args: Seq<String>) -> Seq<Seq<char>> {
    args.map_values(|s: String| s@)
}

/// A command to run: the binary and its arguments.
#[derive(Debug)]
pub struct Invocation {
    pub bin: String,
    pub args: Vec<String>,
}

/// An [`Invocation`] with its texts taken as characters.
pub struct InvocationView {
    pub bin: Seq<char>,
    pub args: Seq<Seq<char>>,
}

impl View for Invocation {
    type V = InvocationView;

    open spec fn view(&self) -> InvocationView {
        InvocationView { bin: self.bin@, args: string_texts(self.args@) }
    }
}

/// Borrows each argument as a `&str`, to hand the list to a [`CommandRunner`].
pub fn arg_refs(args: &Vec<String>) -> (r: Vec<&str>)
    ensures
        texts(r@) == string_texts(args@),
{
    let mut r: Vec<&str> = Vec::new();
    let mut i: usize = 0;
    while i < args.len()
        invariant
            i <= args@.len(),
            r@.len() == i,
            forall|j: int| 0 <= j < i ==> r@[j]@ == args@[j]@,
        decreases args@.len() - i,
    {
        r.push(args[i].as_str());
        i = i + 1;
    }
    assert(texts(r@) =~= string_texts(args@));
    r
}

/// A command for a [`CommandRunner`], by the method that carries it out.
#[derive(Debug)]
pub enum Request {
    /// Run and report whether it exited successfully (`run_check`).
    Check(Invocation),
    /// Run and capture its output (`run_output`).
    Output(Invocation),
    /// Replace the current process with it (`run_exec`).
    Exec(Invocation),
}

/// A [`Request`] with its texts taken as characters.
pub enum RequestView {
    Check(InvocationView),
    Output(InvocationView),
    Exec(InvocationView),
}

impl View for Request {
    type V = RequestView;

    open spec fn view(&self) -> RequestView {
        match self {
            Request::Check(i) => RequestView::Check(i@),
            Request::Output(i) => RequestView::Output(i@),
            Request::Exec(i) => RequestView::Exec(i@),
        }
    }
}

/// What a [`CommandRunner`] reported for a [`Request`].
#[derive(Debug)]
pub enum Reply {
    Check(Result<bool, Error>),
    Output(Result<String, Error>),
    Exec(Result<(), Error>),
}

/// A [`Reply`] with its texts and errors taken by their views.
pub enum ReplyView {
    Check(Result<bool, ErrorView>),
    Output(Result<Seq<char>, ErrorView>),
    Exec(Result<(), ErrorView>),
}

impl View for Reply {
    type V = ReplyView;

    open spec fn view(&self) -> ReplyView {
        match self {
            Reply::Check(r) => ReplyView::Check(view_result(*r)),
            Reply::Output(r) => ReplyView::Output(view_text_result(*r)),
            Reply::Exec(r) => ReplyView::Exec(view_result(*r)),
        }
    }
}

/// The view of a reply that may be absent.
pub open spec fn reply_view(reply: Option<Reply>) -> Option<ReplyView> {
    match reply {
        Some(r) => Some(r@),
        None => None,
    }
}

/// Whether `reply` is of the kind that `request` is answered with.
pub open spec fn answers(request: RequestView, reply: ReplyView) -> bool {
    match request {
        RequestView::Check(_) => reply is Check,
        RequestView::Output(_) => reply is Output,
        RequestView::Exec(_) => reply is Exec,
    }
}

/// What a sequence of commands does next: run a command and move to the
/// state `next`, or finish with an outcome.
#[derive(Debug)]
pub enum Step<S> {
    Run { request: Request, next: S },
    Finish(Result<(), Error>),
}

/// A [`Step`] taken by its views.
pub enum StepView<V> {
    Run { request: RequestView, next: V },
    Finish(Result<(), ErrorView>),
}

impl<S: View> View for Step<S> {
    type V = StepView<S::V>;

    open spec fn view(&self) -> StepView<S::V> {
        match self {
            Step::Run { request, next } => StepView::Run { request: request@, next: next@ },
            Step::Finish(r) => StepView::Finish(view_result(*r)),
        }
    }
}

/// Running `request`, then standing at `next`.
pub open spec fn run_then<V>(request: RequestView, next: V) -> StepView<V> {
    StepView::Run { request, next }
}

/// Has `runner` carry out `request` by the method of its kind, and returns
/// what the runner reported.
///
/// Nothing is assumed of the runner: only the kind of the reply is stated.
pub fn perform<R: CommandRunner>(runner: &R, request: &Request) -> (r: Reply)
    ensures
        answers(request@, r@),
{
    match request {
        Request::Check(i) => {
            let refs = arg_refs(&i.args);
            Reply::Check(runner.run_check(i.bin.as_str(), refs.as_slice()))
        },
        Request::Output(i) => {
            let refs = arg_refs(&i.args);
            Reply::Output(runner.run_output(i.bin.as_str(), refs.as_slice()))
        },
        Request::Exec(i) => {
            let refs = arg_refs(&i.args);
            Reply::Exec(runner.run_exec(i.bin.as_str(), refs.as_slice()))
        },
    }
}

/// What running a command and capturing its output gives, from how it
/// exited and what it wrote: its standard output decoded and trimmed on
/// success, else [`Error::NonZeroExit`] with the exit status and its decoded
/// standard error.
pub open spec fn output_result(
    bin: Seq<char>,
    success: bool,
    status: Seq<char>,
    stdout: Seq<u8>,
    stderr: Seq<u8>,
) -> Result<Seq<char>, ErrorView> {
    if success {
        Ok(trimmed(lossy_utf8(stdout)))
    } else {
        Err(ErrorView::NonZeroExit { bin, status, stderr: lossy_utf8(stderr) })
    }
}

/// The result of [`CommandRunner::run_output`] from how the process exited
/// (`success`, and `status` as text) and the bytes it wrote.
pub fn output_outcome(bin: &str, success: bool, status: String, stdout: &[u8], stderr: &[u8]) -> (r:
    Result<String, Error>)
    ensures
        view_text_result(r) == output_result(bin@, success, status@, stdout@, stderr@),
{
    if !success {
        return Err(
            Error::NonZeroExit { bin: bin.to_owned(), status, stderr: lossy_text(stderr) },
        );
    }
    let text = lossy_text(stdout);
    Ok(trim_text(text.as_str()))
}

/// Capturing output fails exactly when the command did not exit
/// successfully; a successful exit gives the decoded, trimmed standard
/// output whatever was written to standard error, and a failed one reports
/// the binary, the status and the decoded standard error.
pub proof fn lemma_output_fails_only_on_failed_exit(
    bin: Seq<char>,
    success: bool,
    status: Seq<char>,
    stdout: Seq<u8>,
    stderr: Seq<u8>,
)
    ensures
        output_result(bin, success, status, stdout, stderr) is Err <==> !success,
        success ==> output_result(bin, success, status, stdout, stderr) == Ok::<
            Seq<char>,
            ErrorView,
        >(trimmed(lossy_utf8(stdout))),
        !success ==> output_result(bin, success, status, stdout, stderr) == Err::<
            Seq<char>,
            ErrorView,
        >(ErrorView::NonZeroExit { bin, status, stderr: lossy_utf8(stderr) }),
{
}

} // verus!
