//! From a finished child process to the reply sent over the bridge.
//!
//! Spawning and waiting are the caller's business. What comes back from
//! them, either the captured output of a process that ran or the operating
//! system's description of why none could be started, is turned here into a
//! [`CommandResult`] and then into the `Ok` or `Err` text that the frontend
//! receives.

use vstd::prelude::*;
use vstd::string::StringExecFns;
use vstd::utf8::{decode_utf8, valid_utf8};
use crate::text::{
    decode_lossy, decoded_text, lemma_empty_output_is_empty_text, lemma_valid_output_has_text,
};

verus! {

/// What was captured from a child process that ran to its end.
#[derive(Debug, Clone, PartialEq, Eq)]
pub struct ProcessOutput {
    /// Whether the process reported a success status on exit.
    pub success: bool,
    /// The bytes it wrote to standard output.
    pub stdout: Vec<u8>,
    /// The bytes it wrote to standard error.
    pub stderr: Vec<u8>,
}

/// The outcome of a command that ran.
#[derive(Debug, Clone, PartialEq, Eq)]
pub enum CommandResult {
    /// The command counts as succeeded; `text` is what it has to say.
    Success { text: String },
    /// The command failed; `text` is what it wrote to standard error.
    Failure { text: String },
}

/// A [`CommandResult`] with its text as a sequence of characters.
pub enum CommandResultView {
    Success { text: Seq<char> },
    Failure { text: Seq<char> },
}

impl View for CommandResult {
    type V = CommandResultView;

    open spec fn view(&self) -> CommandResultView {
        match self {
            CommandResult::Success { text } => CommandResultView::Success { text: text@ },
            CommandResult::Failure { text } => CommandResultView::Failure { text: text@ },
        }
    }
}

/// The text reported for a command that exited with a failure status
/// without writing anything to standard error.
pub open spec fn quiet_failure_text() -> Seq<char> {
    "Command executed successfully"@
}

/// The outcome of a command that exited with a failure status, given what
/// it wrote to standard error. Silence counts as success.
pub open spec fn failed_exit_result(stderr_text: Seq<char>) -> CommandResultView {
    if stderr_text.len() == 0 {
        CommandResultView::Success { text: quiet_failure_text() }
    } else {
        CommandResultView::Failure { text: stderr_text }
    }
}

/// The outcome of a command that ran, given its exit status and the bytes
/// captured from it.
pub open spec fn exit_result(success: bool, stdout: Seq<u8>, stderr: Seq<u8>) -> CommandResultView {
    if success {
        CommandResultView::Success { text: decoded_text(stdout) }
    } else {
        failed_exit_result(decoded_text(stderr))
    }
}

/// The error message for a command that could not be started.
pub open spec fn spawn_error_message(description: Seq<char>) -> Seq<char> {
    "Failed to execute command: "@ + description
}

/// The reply for an outcome: its text, unchanged, as `Ok` on success and as
/// `Err` on failure.
pub open spec fn reply_of(result: CommandResultView) -> Result<Seq<char>, Seq<char>> {
    match result {
        CommandResultView::Success { text } => Ok(text),
        CommandResultView::Failure { text } => Err(text),
    }
}

/// A reply with its text as a sequence of characters.
pub open spec fn reply_view(reply: Result<String, String>) -> Result<Seq<char>, Seq<char>> {
    match reply {
        Ok(text) => Ok(text@),
        Err(message) => Err(message@),
    }
}

/// The reply for an attempt to run a command: `spawned` is the captured
/// output, or the description of why the process could not be started.
pub open spec fn command_reply_of(spawned: Result<ProcessOutput, String>) -> Result<
    Seq<char>,
    Seq<char>,
> {
    match spawned {
        Ok(output) => reply_of(exit_result(output.success, output.stdout@, output.stderr@)),
        Err(description) => Err(spawn_error_message(description@)),
    }
}

impl CommandResult {
    /// The outcome of a command that exited with a failure status and wrote
    /// `stderr_text` to standard error.
    pub fn from_failed_exit(stderr_text: String) -> (result: CommandResult)
        ensures
            result@ == failed_exit_result(stderr_text@),
    {
        if stderr_text.as_str().is_empty() {
            CommandResult::Success { text: String::from_str("Command executed successfully") }
        } else {
            CommandResult::Failure { text: stderr_text }
        }
    }

    /// The outcome of a command that ran and left `output` behind. Only a
    /// failure status together with some bytes on standard error makes a
    /// failure.
    pub fn from_output(output: &ProcessOutput) -> (result: CommandResult)
        ensures
            result@ == exit_result(output.success, output.stdout@, output.stderr@),
            result@ is Failure <==> !output.success && output.stderr@.len() > 0,
    {
        if output.success {
            CommandResult::Success { text: decode_lossy(output.stdout.as_slice()) }
        } else {
            CommandResult::from_failed_exit(decode_lossy(output.stderr.as_slice()))
        }
    }

    /// The reply that carries this outcome to the frontend.
    pub fn into_reply(self) -> (reply: Result<String, String>)
        ensures
            reply_view(reply) == reply_of(self@),
    {
        match self {
            CommandResult::Success { text } => Ok(text),
            CommandResult::Failure { text } => Err(text),
        }
    }
}

/// The error message for a command that could not be started, from the
/// operating system's description of what went wrong.
pub fn spawn_error(description: &str) -> (message: String)
    ensures
        message@ == spawn_error_message(description@),
{
    let mut message = String::from_str("Failed to execute command: ");
    message.append(description);
    message
}

/// Whether an attempt to run a command ends in an error: the process could
/// not be started, or it exited with a failure status after writing
/// something to standard error.
pub open spec fn ends_in_error(spawned: Result<ProcessOutput, String>) -> bool {
    match spawned {
        Ok(output) => !output.success && output.stderr@.len() > 0,
        Err(_) => true,
    }
}

/// The reply for an attempt to run a command: `spawned` is the captured
/// output of the process, or the operating system's description of why it
/// could not be started.
pub fn command_reply(spawned: Result<ProcessOutput, String>) -> (reply: Result<String, String>)
    ensures
        reply_view(reply) == command_reply_of(spawned),
        reply is Err <==> ends_in_error(spawned),
{
    match spawned {
        Ok(output) => CommandResult::from_output(&output).into_reply(),
        Err(description) => Err(spawn_error(description.as_str())),
    }
}

/// A command that exits with a success status succeeds with what it wrote
/// to standard output, decoded. Neither malformed bytes nor anything on
/// standard error can turn it into an error.
pub proof fn lemma_success_carries_stdout(output: ProcessOutput)
    requires
        output.success,
    ensures
        exit_result(output.success, output.stdout@, output.stderr@) == (CommandResultView::Success {
            text: decoded_text(output.stdout@),
        }),
        command_reply_of(Ok(output)) == Ok::<Seq<char>, Seq<char>>(decoded_text(output.stdout@)),
{
}

/// A command that exits with a failure status and leaves standard error
/// empty is reported as a success with the fixed text, whatever it wrote
/// to standard output.
pub proof fn lemma_quiet_failure_is_success(output: ProcessOutput)
    requires
        !output.success,
        output.stderr@.len() == 0,
    ensures
        exit_result(output.success, output.stdout@, output.stderr@) == (CommandResultView::Success {
            text: quiet_failure_text(),
        }),
        command_reply_of(Ok(output)) == Ok::<Seq<char>, Seq<char>>(quiet_failure_text()),
{
    lemma_empty_output_is_empty_text();
    assert(output.stderr@ =~= Seq::<u8>::empty());
}

/// A command that exits with a failure status and whose standard error
/// decodes to some text fails with exactly that text, whole and untrimmed,
/// and the reply is an error that carries the same text. Standard output
/// is no part of it.
pub proof fn lemma_failure_carries_stderr(output: ProcessOutput)
    requires
        !output.success,
        decoded_text(output.stderr@).len() > 0,
    ensures
        exit_result(output.success, output.stdout@, output.stderr@) == (CommandResultView::Failure {
            text: decoded_text(output.stderr@),
        }),
        command_reply_of(Ok(output)) == Err::<Seq<char>, Seq<char>>(decoded_text(output.stderr@)),
{
}

/// A command that exits with a failure status after writing well-formed,
/// non-empty text to standard error fails with the characters it wrote,
/// and the reply is an error that carries them.
pub proof fn lemma_failure_carries_valid_stderr(output: ProcessOutput)
    requires
        !output.success,
        valid_utf8(output.stderr@),
        output.stderr@.len() > 0,
    ensures
        exit_result(output.success, output.stdout@, output.stderr@) == (CommandResultView::Failure {
            text: decode_utf8(output.stderr@),
        }),
        command_reply_of(Ok(output)) == Err::<Seq<char>, Seq<char>>(decode_utf8(output.stderr@)),
{
    lemma_valid_output_has_text(output.stderr@);
}

/// The reply for a command that ran is an error exactly when the command
/// exited with a failure status and its standard error decodes to some
/// text. Bytes that are not well-formed UTF-8 never cause an error by
/// themselves.
pub proof fn lemma_error_only_on_failure_with_text(output: ProcessOutput)
    ensures
        command_reply_of(Ok(output)) is Err <==> !output.success && decoded_text(
            output.stderr@,
        ).len() > 0,
{
}

/// A command that could not be started always gives an error, whose
/// message ends with the operating system's description.
pub proof fn lemma_spawn_failure_is_error(description: String)
    ensures
        command_reply_of(Err(description)) == Err::<Seq<char>, Seq<char>>(
            spawn_error_message(description@),
        ),
        spawn_error_message(description@).len() >= description@.len(),
        spawn_error_message(description@).subrange(
            spawn_error_message(description@).len() - description@.len(),
            spawn_error_message(description@).len() as int,
        ) == description@,
{
    let message = spawn_error_message(description@);
    assert(message.subrange(message.len() - description@.len(), message.len() as int)
        =~= description@);
}

} // verus!
