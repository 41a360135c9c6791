use vstd::prelude::*;
use vstd::string::StringExecFns;

verus! {

/// The question template this model family expects around a prompt. The
/// wrapping must be reproduced exactly for output parity.
pub open spec fn templated(prompt: Seq<char>) -> Seq<char> {
    "\n\nQuestion: "@ + prompt + "\nAnswer:"@
}

/// Wraps a prompt in the fixed question template before tokenization.
pub fn wrap_prompt(prompt: &str) -> (r: String)
    ensures
        r@ == templated(prompt@),
{
    let head: String = "\n\nQuestion: ".to_owned();
    let with_prompt = head.concat(prompt);
    with_prompt.concat("\nAnswer:")
}

} // verus!
