use vstd::prelude::*;

verus! {

/// One decoded vocabulary unit. Immutable once constructed.
#[derive(Debug, Clone)]
pub struct Token {
    /// The vocabulary id of the token.
    pub id: usize,
    /// The decoded text form of this single token.
    pub text: String,
    /// Whether this token is the distinguished stop token.
    pub special: bool,
}

/// One generation event, produced once per decoding step.
///
/// `generated_text` is populated only on the step that terminates the run,
/// and then holds the decoded text of all tokens produced so far.
#[derive(Debug, Clone)]
pub struct Generation {
    /// The token sampled at this step.
    pub token: Token,
    /// The full decoded text, present exactly on the terminating step.
    pub generated_text: Option<String>,
    /// Reserved detail flag; never set by the pipeline.
    pub details: Option<bool>,
}

impl Generation {
    /// Whether this event terminates its run: exactly the events that carry
    /// the full generated text do.
    pub fn is_terminal(&self) -> (r: bool)
        ensures
            r <==> self.generated_text is Some,
    {
        self.generated_text.is_some()
    }
}

} // verus!
