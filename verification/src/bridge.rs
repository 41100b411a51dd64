//! The process bridge: one request in, one envelope out.
//!
//! [`Bridge::invoke`] handles a request from beginning to end. It is made of
//! two decisions with the running of the child in between.
//! [`Bridge::begin`] looks at the request and says what is to be done:
//! answer at once, or run the action on a given input. When the action was
//! run, [`Bridge::finish`] turns the way it ended into the envelope.
//!
//! Nothing here starts a process or waits for one. The caller brings the
//! means to run a child, either as a function handed to `invoke`, or by
//! carrying out the [`Step`] itself.

use crate::child::{
    classified, classify, lemma_valid_output_survives, message_of, Completion, CompletionView,
    Outcome, OutcomeView,
};
use crate::codec::{bool_of, encode, encoded, member, member_of, CodecError};
use crate::envelope::{pong_body, quick_ping, Output};
use serde_json::Value;
use vstd::prelude::*;
use vstd::string::StringExecFns;
use vstd::utf8::*;

verus! {

/// A bridge to one action executable.
#[derive(Debug, Clone)]
pub struct Bridge {
    binary: String,
}

impl View for Bridge {
    type V = Seq<char>;

    /// A bridge is modelled by the path of the executable it wraps.
    closed spec fn view(&self) -> Seq<char> {
        self.binary@
    }
}

/// What the bridge asks of its caller after looking at a request.
#[derive(Debug, Clone)]
pub enum Step {
    /// The invocation is over: hand this envelope to the host. No process is
    /// to be started.
    Reply(Output),
    /// Start `program` with its three standard streams piped, write `input`
    /// to its standard input, close that stream, wait for the child, and
    /// come back with the completion.
    Spawn { program: String, input: String },
}

/// The mathematical content of a [`Step`].
pub enum StepView {
    Reply { body: Seq<char> },
    Spawn { program: Seq<char>, input: Seq<char> },
}

impl View for Step {
    type V = StepView;

    open spec fn view(&self) -> StepView {
        match *self {
            Step::Reply(out) => StepView::Reply { body: out@ },
            Step::Spawn { program, input } => StepView::Spawn { program: program@, input: input@ },
        }
    }
}

/// The fast-path signal of a request: the boolean stored under `ping`, if
/// the request is an object that has such a member and it is a boolean.
pub open spec fn fast_path_signal(request: Value) -> Option<bool> {
    match member_of(request, "ping"@) {
        Some(flag) => bool_of(flag),
        None => None,
    }
}

/// A signal short-circuits the invocation when it is present and true.
pub open spec fn signal_set(signal: Option<bool>) -> bool {
    signal == Some(true)
}

/// A request is a liveness probe when its fast-path signal is set. Nothing
/// else in the request matters.
pub open spec fn ping_signal(request: Value) -> bool {
    signal_set(fast_path_signal(request))
}

/// The words that introduce the reason why a request could not be
/// serialised.
pub open spec fn encode_failure_marker() -> Seq<char> {
    "Failed to serialize input JSON: "@
}

/// The words put before the message of every invocation that got as far as
/// running the child.
pub open spec fn output_prefix() -> Seq<char> {
    "Mobilenet output:\n"@
}

/// The step that follows an attempt to serialise the request: run the
/// action on the text, or reply with the serialiser's complaint.
pub open spec fn dispatched(binary: Seq<char>, encoding: Result<Seq<char>, Seq<char>>) -> StepView {
    match encoding {
        Ok(text) => StepView::Spawn { program: binary, input: text },
        Err(message) => StepView::Reply { body: encode_failure_marker() + message },
    }
}

/// The step for a request that is not answered on the fast path.
pub open spec fn launched(binary: Seq<char>, request: Value) -> StepView {
    dispatched(binary, encoded(request))
}

/// The first step of an invocation.
pub open spec fn first_step(binary: Seq<char>, request: Value) -> StepView {
    if ping_signal(request) {
        StepView::Reply { body: pong_body() }
    } else {
        launched(binary, request)
    }
}

/// The body of the envelope that reports an outcome.
pub open spec fn reported(outcome: OutcomeView) -> Seq<char> {
    output_prefix() + message_of(outcome)
}

/// The body of the envelope that ends an invocation whose child completed
/// as given.
pub open spec fn finished(completion: CompletionView) -> Seq<char> {
    reported(classified(completion))
}

/// The plain content of an encoding attempt.
pub open spec fn encoding_view(encoding: Result<String, CodecError>) -> Result<
    Seq<char>,
    Seq<char>,
> {
    match encoding {
        Ok(text) => Ok(text@),
        Err(error) => Err(error@),
    }
}

/// Tells whether `run_child`, called with a program and an input of the
/// given texts, may come back with `completion`.
pub open spec fn may_complete<F: FnOnce(String, String) -> Completion>(
    run_child: F,
    program: Seq<char>,
    input: Seq<char>,
    completion: Completion,
) -> bool {
    exists|path: String, text: String|
        path@ == program && text@ == input && call_ensures(run_child, (path, text), completion)
}

/// Tells whether `run_child` may be called with every program and input of
/// the given texts.
pub open spec fn may_run<F: FnOnce(String, String) -> Completion>(
    run_child: F,
    program: Seq<char>,
    input: Seq<char>,
) -> bool {
    forall|path: String, text: String|
        path@ == program && text@ == input ==> call_requires(run_child, (path, text))
}

/// What carrying out a step may end in: a reply is handed through, and a
/// spawn ends in the envelope for some completion that `run_child` may come
/// back with.
pub open spec fn carried_out<F: FnOnce(String, String) -> Completion>(
    step: StepView,
    run_child: F,
    body: Seq<char>,
) -> bool {
    match step {
        StepView::Reply { body: reply } => body == reply,
        StepView::Spawn { program, input } => exists|completion: Completion|
            #[trigger] may_complete(run_child, program, input, completion) && body == finished(
                completion@,
            ),
    }
}

/// Reads the fast-path signal of a request.
pub fn fast_path(request: &Value) -> (signal: Option<bool>)
    ensures
        signal == fast_path_signal(*request),
{
    match member(request, "ping") {
        Some(flag) => flag.as_bool(),
        None => None,
    }
}

/// Tells whether a fast-path signal short-circuits the invocation: it does
/// when it is present and true, and in no other case.
pub fn short_circuits(signal: Option<bool>) -> (set: bool)
    ensures
        set == signal_set(signal),
{
    match signal {
        Some(flag) => flag,
        None => false,
    }
}

/// Tells whether a request is a liveness probe.
pub fn is_ping(request: &Value) -> (ping: bool)
    ensures
        ping == ping_signal(*request),
{
    short_circuits(fast_path(request))
}

/// Wraps the report of an outcome in an envelope: the fixed prefix, then
/// the outcome's message, whichever of the three it is.
pub fn report(outcome: &Outcome) -> (out: Output)
    ensures
        out@ == reported(outcome@),
{
    let message = outcome.message();
    Output::new(String::from_str("Mobilenet output:\n").concat(message.as_str()))
}

impl Bridge {
    /// A bridge to the executable at `binary`.
    pub fn new(binary: String) -> (bridge: Bridge)
        ensures
            bridge@ == binary@,
    {
        Bridge { binary }
    }

    /// The path of the executable this bridge wraps.
    pub fn binary(&self) -> (path: &str)
        ensures
            path@ == self@,
    {
        self.binary.as_str()
    }

    /// Decides the step that follows an attempt to serialise the request.
    ///
    /// A serialised request is to be piped into the action. A failure to
    /// serialise ends the invocation with a reply that names it.
    pub fn dispatch(&self, encoding: Result<String, CodecError>) -> (step: Step)
        ensures
            step@ == dispatched(self@, encoding_view(encoding)),
    {
        match encoding {
            Ok(text) => Step::Spawn { program: self.binary.clone(), input: text },
            Err(error) => {
                let body = String::from_str("Failed to serialize input JSON: ").concat(
                    error.message.as_str(),
                );
                Step::Reply(Output::new(body))
            },
        }
    }

    /// Serialises the request and decides the step, without looking for the
    /// fast-path signal.
    pub fn launch(&self, request: &Value) -> (step: Step)
        ensures
            step@ == launched(self@, *request),
    {
        self.dispatch(encode(request))
    }

    /// Decides the first step of an invocation.
    ///
    /// A liveness probe is answered at once with the fixed acknowledgement,
    /// whatever else the request holds, and no process is asked for. Every
    /// other request is serialised for the action.
    pub fn begin(&self, request: &Value) -> (step: Step)
        ensures
            step@ == first_step(self@, *request),
            ping_signal(*request) ==> step@ == (StepView::Reply { body: pong_body() }),
    {
        if is_ping(request) {
            Step::Reply(quick_ping())
        } else {
            self.launch(request)
        }
    }

    /// Turns the completion of the child into the envelope that ends the
    /// invocation. Every completion has one; the envelope depends on nothing
    /// but the completion it is given.
    pub fn finish(&self, completion: &Completion) -> (out: Output)
        ensures
            out@ == finished(completion@),
    {
        let outcome = classify(completion);
        report(&outcome)
    }

    /// Carries out a step: hands a reply through, or has the child run and
    /// turns its completion into the envelope.
    ///
    /// `run_child` is the caller's way of running the action: given the
    /// program and its input, it starts the child, pipes the input in, waits,
    /// and says how that ended. It is called once for a spawn and not at all
    /// for a reply.
    pub fn carry_out<F: FnOnce(String, String) -> Completion>(
        &self,
        step: Step,
        run_child: F,
    ) -> (out: Output)
        requires
            step@ matches StepView::Spawn { program, input } ==> may_run(run_child, program, input),
        ensures
            carried_out(step@, run_child, out@),
    {
        match step {
            Step::Reply(out) => out,
            Step::Spawn { program, input } => {
                let ghost path = program;
                let ghost text = input;
                let completion = run_child(program, input);
                let out = self.finish(&completion);
                proof {
                    assert(call_ensures(run_child, (path, text), completion));
                    assert(may_complete(run_child, path@, text@, completion));
                }
                out
            },
        }
    }

    /// Handles one request from beginning to end: decides the first step and
    /// carries it out.
    ///
    /// A liveness probe is answered with the fixed acknowledgement and
    /// `run_child` is not called. A request that cannot be serialised is
    /// answered with the serialiser's complaint, again without the child.
    /// For every other request the child is run once on the serialised
    /// request, and the envelope reports how it ended. Nothing the child
    /// does makes this function fail.
    pub fn invoke<F: FnOnce(String, String) -> Completion>(
        &self,
        request: &Value,
        run_child: F,
    ) -> (out: Output)
        requires
            first_step(self@, *request) matches StepView::Spawn { program, input } ==> may_run(
                run_child,
                program,
                input,
            ),
        ensures
            carried_out(first_step(self@, *request), run_child, out@),
            ping_signal(*request) ==> out@ == pong_body(),
    {
        let step = self.begin(request);
        self.carry_out(step, run_child)
    }
}

/// The body of the envelope that a whole invocation ends in, for a child
/// whose completion is a function of the program and the input it is given.
pub open spec fn invoked(
    binary: Seq<char>,
    request: Value,
    child: spec_fn(Seq<char>, Seq<char>) -> CompletionView,
) -> Seq<char> {
    match first_step(binary, request) {
        StepView::Reply { body } => body,
        StepView::Spawn { program, input } => finished(child(program, input)),
    }
}

/// Tells whether `run_child` is deterministic in the way `child` describes:
/// whatever it comes back with for a program and an input is the completion
/// that `child` gives for them.
pub open spec fn behaves_as<F: FnOnce(String, String) -> Completion>(
    run_child: F,
    child: spec_fn(Seq<char>, Seq<char>) -> CompletionView,
) -> bool {
    forall|program: Seq<char>, input: Seq<char>, completion: Completion| #[trigger]
        may_complete(run_child, program, input, completion) ==> completion@ == child(
            program,
            input,
        )
}

/// Invoking is idempotent: two invocations of one bridge on the same
/// request, each with a child that ends the same way whenever it is given
/// the same program and input, end in the same envelope.
pub proof fn lemma_invoke_idempotent<
    F: FnOnce(String, String) -> Completion,
    G: FnOnce(String, String) -> Completion,
>(
    binary: Seq<char>,
    request: Value,
    child: spec_fn(Seq<char>, Seq<char>) -> CompletionView,
    first_child: F,
    second_child: G,
    first: Seq<char>,
    second: Seq<char>,
)
    requires
        behaves_as(first_child, child),
        behaves_as(second_child, child),
        carried_out(first_step(binary, request), first_child, first),
        carried_out(first_step(binary, request), second_child, second),
    ensures
        first == second,
        first == invoked(binary, request, child),
{
}

/// A child that exits with code zero and writes valid UTF-8 has its output
/// passed on untouched: the body is the prefix followed by that text, and
/// the bytes of what follows the prefix are the bytes the child wrote.
pub proof fn lemma_success_keeps_output(stdout: Seq<u8>, stderr: Seq<u8>)
    requires
        valid_utf8(stdout),
    ensures
        ({
            let body = finished(CompletionView::Exited { code: Some(0i32), stdout, stderr });
            &&& body == output_prefix() + decode_utf8(stdout)
            &&& encode_utf8(body.skip(output_prefix().len() as int)) == stdout
        }),
{
    lemma_valid_output_survives(stdout);
    let body = finished(CompletionView::Exited { code: Some(0i32), stdout, stderr });
    assert(body.skip(output_prefix().len() as int) =~= decode_utf8(stdout));
}

} // verus!
