use vstd::prelude::*;
use crate::errors::PipelineError;
use crate::prompt::wrap_prompt;

verus! {

#[verifier::external_type_specification]
#[verifier::external_body]
pub struct ExTokenizer(tokenizers::Tokenizer);

/// Relies on tokenizers::Tokenizer::encode: on success the encoding's ids are
/// the token ids of the given text. Nothing is assumed of their values; an
/// encoding failure yields None.
#[verifier::external_body]
pub(crate) fn encode_text(t: &tokenizers::Tokenizer, text: &str) -> (r: Option<Vec<u32>>) {
    match t.encode(text, true) {
        Ok(enc) => Some(enc.get_ids().to_vec()),
        Err(_) => None,
    }
}

/// Relies on tokenizers::Tokenizer::decode: on success the result is the text
/// form of the given id sequence. Nothing is assumed of its content; a decode
/// failure yields None.
#[verifier::external_body]
pub(crate) fn decode_ids(
    t: &tokenizers::Tokenizer,
    ids: &Vec<u32>,
    skip_special: bool,
) -> (r: Option<String>) {
    match t.decode(ids.as_slice(), skip_special) {
        Ok(s) => Some(s),
        Err(_) => None,
    }
}

/// Relies on tokenizers::Tokenizer::token_to_id: the result is the vocabulary
/// id of the given token text, or None when the vocabulary lacks it.
#[verifier::external_body]
pub(crate) fn lookup_token(t: &tokenizers::Tokenizer, token: &str) -> (r: Option<u32>) {
    t.token_to_id(token)
}

/// Rejects an empty token sequence, which arises from a prompt that
/// tokenizes to zero tokens; any other sequence is passed on unchanged.
pub fn require_nonempty(tokens: Vec<u32>) -> (r: Result<Vec<u32>, PipelineError>)
    ensures
        r is Err <==> tokens@.len() == 0,
        r matches Err(e) ==> e == PipelineError::Input,
        r matches Ok(v) ==> v@ == tokens@ && tokens@.len() > 0,
{
    if tokens.len() == 0 {
        Err(PipelineError::Input)
    } else {
        Ok(tokens)
    }
}

/// Wraps a prompt in the question template, tokenizes it, and rejects a
/// prompt that tokenized to zero tokens. The ids themselves come from the
/// tokenizer and are not pinned here; emptiness is decided exactly.
pub fn tokenize_prompt(t: &tokenizers::Tokenizer, prompt: &str) -> (r: Result<Vec<u32>, PipelineError>)
    ensures
        r matches Err(e) ==> e == PipelineError::Tokenizer || e == PipelineError::Input,
        r matches Ok(v) ==> v@.len() > 0,
{
    let text = wrap_prompt(prompt);
    match encode_text(t, text.as_str()) {
        None => Err(PipelineError::Tokenizer),
        Some(ids) => require_nonempty(ids),
    }
}

/// Turns the outcome of a stop-token vocabulary lookup into the pipeline's
/// result: a found id passes through unchanged, and an absent one is the
/// tokenizer/model mismatch.
pub fn require_stop_token(found: Option<u32>) -> (out: Result<u32, PipelineError>)
    ensures
        found matches Some(id) ==> out == Ok::<u32, PipelineError>(id),
        found is None ==> out == Err::<u32, PipelineError>(
            PipelineError::SpecialTokenNotFound,
        ),
{
    match found {
        Some(id) => Ok(id),
        None => Err(PipelineError::SpecialTokenNotFound),
    }
}

/// Resolves the shared begin/end-of-sequence token id of this model family's
/// tokenizer. Its absence indicates a tokenizer/model mismatch. The id
/// itself comes from the tokenizer's vocabulary and is not pinned here;
/// presence is decided exactly by `require_stop_token`.
pub fn resolve_stop_token(t: &tokenizers::Tokenizer) -> (r: Result<u32, PipelineError>)
    ensures
        r matches Err(e) ==> e == PipelineError::SpecialTokenNotFound,
{
    require_stop_token(lookup_token(t, "<|endoftext|>"))
}

} // verus!
