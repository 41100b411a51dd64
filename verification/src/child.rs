//! What became of one child process, and what that amounts to.
//!
//! The caller starts the action, feeds it the request and waits for it. It
//! reports the end of that as a [`Completion`]. The bridge sorts every
//! completion into exactly one of three [`Outcome`]s and words the message
//! that goes with it.

use vstd::prelude::*;
use vstd::string::StringExecFns;
use vstd::utf8::*;

verus! {

/// What `String::from_utf8_lossy` makes of bytes that are not valid UTF-8:
/// the text in which every ill-formed sequence has given way to U+FFFD.
pub uninterp spec fn utf8_replaced(bytes: Seq<u8>) -> Seq<char>;

/// The lossy reading of a byte stream: the text itself where the bytes are
/// valid UTF-8, and the text with replacement characters where they are not.
pub open spec fn lossy_text(bytes: Seq<u8>) -> Seq<char> {
    if valid_utf8(bytes) {
        decode_utf8(bytes)
    } else {
        utf8_replaced(bytes)
    }
}

/// Calls `String::from_utf8_lossy` and takes ownership of the text.
///
/// Trusted: valid UTF-8 comes back as the text it encodes, unchanged; for any
/// other input the result is whatever `utf8_replaced` names.
#[verifier::external_body]
pub(crate) fn read_lossy(bytes: &[u8]) -> (text: String)
    ensures
        valid_utf8(bytes@) ==> text@ == decode_utf8(bytes@),
        !valid_utf8(bytes@) ==> text@ == utf8_replaced(bytes@),
{
    String::from_utf8_lossy(bytes).into_owned()
}

/// The end of one attempt to run the action.
#[derive(Debug, Clone)]
pub enum Completion {
    /// The child ran and was waited for. `code` is its exit code, absent when
    /// the child was ended by a signal; the streams are complete.
    Exited { code: Option<i32>, stdout: Vec<u8>, stderr: Vec<u8> },
    /// The child could not be started.
    SpawnFailed { reason: String },
    /// The child was started, but writing its input or collecting its output
    /// failed.
    PipeFailed { reason: String },
}

/// The mathematical content of a [`Completion`].
pub enum CompletionView {
    Exited { code: Option<i32>, stdout: Seq<u8>, stderr: Seq<u8> },
    SpawnFailed { reason: Seq<char> },
    PipeFailed { reason: Seq<char> },
}

impl View for Completion {
    type V = CompletionView;

    open spec fn view(&self) -> CompletionView {
        match *self {
            Completion::Exited { code, stdout, stderr } => CompletionView::Exited {
                code,
                stdout: stdout@,
                stderr: stderr@,
            },
            Completion::SpawnFailed { reason } => CompletionView::SpawnFailed { reason: reason@ },
            Completion::PipeFailed { reason } => CompletionView::PipeFailed { reason: reason@ },
        }
    }
}

/// The three ways an invocation that reached the child can end.
#[derive(Debug, Clone)]
pub enum Outcome {
    /// The child exited with code zero; `output` is its standard output.
    Success { output: String },
    /// The child ended in any other way; `diagnostics` is its standard error.
    ChildFailure { diagnostics: String },
    /// The bridge could not run the child to its end.
    BridgeFailure { reason: String },
}

/// The mathematical content of an [`Outcome`].
pub enum OutcomeView {
    Success { output: Seq<char> },
    ChildFailure { diagnostics: Seq<char> },
    BridgeFailure { reason: Seq<char> },
}

impl View for Outcome {
    type V = OutcomeView;

    open spec fn view(&self) -> OutcomeView {
        match *self {
            Outcome::Success { output } => OutcomeView::Success { output: output@ },
            Outcome::ChildFailure { diagnostics } => OutcomeView::ChildFailure {
                diagnostics: diagnostics@,
            },
            Outcome::BridgeFailure { reason } => OutcomeView::BridgeFailure { reason: reason@ },
        }
    }
}

/// A child succeeded exactly when it exited with code zero.
pub open spec fn exit_ok(code: Option<i32>) -> bool {
    code == Some(0i32)
}

/// The outcome that a completion amounts to.
pub open spec fn classified(completion: CompletionView) -> OutcomeView {
    match completion {
        CompletionView::Exited { code, stdout, stderr } => if exit_ok(code) {
            OutcomeView::Success { output: lossy_text(stdout) }
        } else {
            OutcomeView::ChildFailure { diagnostics: lossy_text(stderr) }
        },
        CompletionView::SpawnFailed { reason } => OutcomeView::BridgeFailure { reason },
        CompletionView::PipeFailed { reason } => OutcomeView::BridgeFailure { reason },
    }
}

/// The words that introduce the standard error of a failed child.
pub open spec fn child_failure_marker() -> Seq<char> {
    "Binary exited with error: "@
}

/// The words that introduce the reason why the child could not be run.
pub open spec fn bridge_failure_marker() -> Seq<char> {
    "Failed to execute binary: "@
}

/// The message that stands for an outcome: the output itself on success, a
/// marked diagnostic otherwise.
pub open spec fn message_of(outcome: OutcomeView) -> Seq<char> {
    match outcome {
        OutcomeView::Success { output } => output,
        OutcomeView::ChildFailure { diagnostics } => child_failure_marker() + diagnostics,
        OutcomeView::BridgeFailure { reason } => bridge_failure_marker() + reason,
    }
}

/// Tells whether an exit code means success.
pub fn succeeded(code: Option<i32>) -> (ok: bool)
    ensures
        ok == exit_ok(code),
{
    match code {
        Some(value) => value == 0,
        None => false,
    }
}

/// Sorts a completion into its outcome, reading the stream that matters
/// lossily as UTF-8: standard output for a child that succeeded, standard
/// error for one that did not.
pub fn classify(completion: &Completion) -> (outcome: Outcome)
    ensures
        outcome@ == classified(completion@),
{
    match completion {
        Completion::Exited { code, stdout, stderr } => {
            if succeeded(*code) {
                Outcome::Success { output: read_lossy(stdout.as_slice()) }
            } else {
                Outcome::ChildFailure { diagnostics: read_lossy(stderr.as_slice()) }
            }
        },
        Completion::SpawnFailed { reason } => Outcome::BridgeFailure { reason: reason.clone() },
        Completion::PipeFailed { reason } => Outcome::BridgeFailure { reason: reason.clone() },
    }
}

impl Outcome {
    /// Words the outcome: the raw output on success, otherwise the marker of
    /// the failure followed by what is known about it.
    pub fn message(&self) -> (text: String)
        ensures
            text@ == message_of(self@),
    {
        match self {
            Outcome::Success { output } => output.clone(),
            Outcome::ChildFailure { diagnostics } => {
                String::from_str("Binary exited with error: ").concat(diagnostics.as_str())
            },
            Outcome::BridgeFailure { reason } => {
                String::from_str("Failed to execute binary: ").concat(reason.as_str())
            },
        }
    }
}

/// Output that is valid UTF-8 is read without loss: encoding the text that
/// was read gives back the very bytes the child wrote.
pub proof fn lemma_valid_output_survives(bytes: Seq<u8>)
    requires
        valid_utf8(bytes),
    ensures
        lossy_text(bytes) == decode_utf8(bytes),
        encode_utf8(lossy_text(bytes)) == bytes,
{
    decode_utf8_encode_utf8(bytes);
}

} // verus!
