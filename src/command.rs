//! Interpreting what an external command left behind.
//!
//! Launching the child process happens outside this module; what is decided
//! here is what the caller gets back. The only error is a launch failure; a
//! child that ran and exited non-zero still yields its standard output.
use vstd::prelude::*;
use vstd::utf8::{decode_utf8, valid_utf8};

verus! {

/// What a child process that was started left behind once it exited.
#[derive(Debug)]
pub struct ProcessOutput {
    /// Whether the child exited successfully.
    pub success: bool,
    /// The exit code, if the child exited with one.
    pub code: Option<i32>,
    /// Everything the child wrote to standard output.
    pub stdout: Vec<u8>,
    /// Everything the child wrote to standard error.
    pub stderr: Vec<u8>,
}

/// The one error surfaced to callers of a command.
#[derive(Debug)]
pub enum CommandError {
    /// The program could not be started at all (not found, not permitted).
    LaunchFailure { command: String, args: Vec<String> },
}

/// The text that lossy UTF-8 decoding makes of `bytes`.
pub uninterp spec fn lossy_text(bytes: Seq<u8>) -> Seq<char>;

/// Relies on `String::from_utf8_lossy`: valid UTF-8 is decoded as it stands,
/// and each invalid sequence becomes a replacement character, so the result
/// depends on the bytes alone.
#[verifier::external_body]
fn decode_lossy(bytes: &[u8]) -> (r: String)
    ensures
        r@ == lossy_text(bytes@),
        valid_utf8(bytes@) ==> r@ == decode_utf8(bytes@),
{
    String::from_utf8_lossy(bytes).into_owned()
}

/// The texts of a list of arguments.
pub open spec fn texts(args: Seq<&str>) -> Seq<Seq<char>> {
    args.map_values(|a: &str| a@)
}

/// The texts of a list of owned strings.
pub open spec fn owned_texts(args: Seq<String>) -> Seq<Seq<char>> {
    args.map_values(|a: String| a@)
}

/// Whether `e` reports that `command` with `args` could not be started.
pub open spec fn is_launch_failure_of(e: CommandError, command: Seq<char>, args: Seq<Seq<char>>) -> bool {
    match e {
        CommandError::LaunchFailure { command: c, args: a } => c@ == command && owned_texts(a@) == args,
    }
}

/// Copies the arguments into owned strings for an error report.
fn owned_args(args: &[&str]) -> (r: Vec<String>)
    ensures
        owned_texts(r@) == texts(args@),
{
    let mut r: Vec<String> = Vec::new();
    let mut i: usize = 0;
    while i < args.len()
        invariant
            i <= args@.len(),
            r@.len() == i,
            forall|j: int| 0 <= j < i ==> #[trigger] r@[j]@ == args@[j]@,
        decreases args@.len() - i,
    {
        r.push(String::from_str(args[i]));
        i = i + 1;
    }
    assert(owned_texts(r@) =~= texts(args@));
    r
}

/// What running `command` with `args` returns, given what the launch produced:
/// `None` when the process could not be started, else the finished child's
/// output. A started child's standard output is returned as text whatever its
/// exit status.
pub fn command_result(command: &str, args: &[&str], output: Option<ProcessOutput>) -> (r: Result<
    String,
    CommandError,
>)
    ensures
        output is None <==> r is Err,
        output is None ==> is_launch_failure_of(r->Err_0, command@, texts(args@)),
        output is Some ==> r->Ok_0@ == lossy_text(output->Some_0.stdout@),
        output is Some && valid_utf8(output->Some_0.stdout@) ==> r->Ok_0@ == decode_utf8(
            output->Some_0.stdout@,
        ),
{
    match output {
        None => Err(
            CommandError::LaunchFailure { command: String::from_str(command), args: owned_args(args) },
        ),
        Some(o) => Ok(decode_lossy(o.stdout.as_slice())),
    }
}

} // verus!
