use vstd::prelude::*;

verus! {

/// The failure taxonomy of the pipeline.
///
/// Construction and per-step failures are surfaced to the event stream as the
/// terminal item of a run; none of them is retried inside the pipeline.
#[derive(Clone, Copy, Debug, PartialEq, Eq, Structural)]
pub enum PipelineError {
    /// A file could not be read.
    Io,
    /// The image bytes were not a recognizable raster image.
    Decode,
    /// The model weights were not present in the local cache.
    ModelNotFound,
    /// The weight file did not match the expected architecture.
    ModelLoad,
    /// The tokenizer's vocabulary lacks the shared begin/end-of-sequence
    /// token, which indicates a tokenizer/model mismatch.
    SpecialTokenNotFound,
    /// The prompt tokenized to zero tokens.
    Input,
    /// A tensor operation failed during a forward pass or sampling.
    Tensor,
    /// The tokenizer failed to encode or decode.
    Tokenizer,
    /// The cancellation slot was unavailable.
    Lock,
}

impl PipelineError {
    /// A short human-readable description of the failure.
    pub fn describe(&self) -> (r: &'static str)
        ensures
            r@.len() > 0,
    {
        proof {
            reveal_strlit("could not read the file");
            reveal_strlit("could not decode the image");
            reveal_strlit("model weights were not found");
            reveal_strlit("model weights did not load");
            reveal_strlit("special token was not found");
            reveal_strlit("prompt tokenized to zero tokens");
            reveal_strlit("tensor operation failed");
            reveal_strlit("tokenizer failed");
            reveal_strlit("cancellation slot was unavailable");
        }
        match self {
            PipelineError::Io => "could not read the file",
            PipelineError::Decode => "could not decode the image",
            PipelineError::ModelNotFound => "model weights were not found",
            PipelineError::ModelLoad => "model weights did not load",
            PipelineError::SpecialTokenNotFound => "special token was not found",
            PipelineError::Input => "prompt tokenized to zero tokens",
            PipelineError::Tensor => "tensor operation failed",
            PipelineError::Tokenizer => "tokenizer failed",
            PipelineError::Lock => "cancellation slot was unavailable",
        }
    }
}

} // verus!
