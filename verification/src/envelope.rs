//! The response envelope: the only thing the bridge ever hands to the host.

use vstd::prelude::*;
use vstd::string::StringExecFns;

verus! {

/// The body of the acknowledgement that answers a liveness probe.
pub open spec fn pong_body() -> Seq<char> {
    "pong"@
}

/// The envelope returned to the host. Its one field holds the raw output of
/// the action, or a sentence that says what went wrong.
#[derive(Debug, Clone)]
pub struct Output {
    pub body: String,
}

impl View for Output {
    type V = Seq<char>;

    /// An envelope is modelled by the text of its body.
    open spec fn view(&self) -> Seq<char> {
        self.body@
    }
}

impl Output {
    /// Wraps a body text, unchanged, in an envelope.
    pub fn new(body: String) -> (out: Output)
        ensures
            out.body == body,
            out@ == body@,
    {
        Output { body }
    }

    /// The body text.
    pub fn body(&self) -> (text: &str)
        ensures
            text@ == self@,
    {
        self.body.as_str()
    }
}

impl PartialEq for Output {
    /// Two envelopes are equal when their bodies are the same text.
    fn eq(&self, other: &Output) -> (equal: bool) {
        self.body == other.body
    }
}

impl vstd::std_specs::cmp::PartialEqSpecImpl for Output {
    open spec fn obeys_eq_spec() -> bool {
        true
    }

    open spec fn eq_spec(&self, other: &Output) -> bool {
        self@ == other@
    }
}

/// The fixed acknowledgement for a liveness probe.
pub fn quick_ping() -> (out: Output)
    ensures
        out@ == pong_body(),
{
    Output::new(String::from_str("pong"))
}

} // verus!
