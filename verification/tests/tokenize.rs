use moondream_pipeline::errors::PipelineError;
use moondream_pipeline::prompt::wrap_prompt;
use moondream_pipeline::tokenize::require_nonempty;
use moondream_pipeline::tokenize::require_stop_token;
use moondream_pipeline::tokenize::resolve_stop_token;
use moondream_pipeline::tokenize::tokenize_prompt;

/// A tiny word-level tokenizer; any unknown text maps to the <unk> id.
fn tiny_tokenizer(with_stop_token: bool) -> tokenizers::Tokenizer {
    let mut vocab: Vec<(String, u32)> = vec![("<unk>".to_string(), 0)];
    if with_stop_token {
        vocab.push(("<|endoftext|>".to_string(), 1));
    }
    let model = tokenizers::models::wordlevel::WordLevel::builder()
        .vocab(vocab.into_iter().collect())
        .unk_token("<unk>".to_string())
        .build()
        .unwrap();
    tokenizers::Tokenizer::new(model)
}

#[test]
fn prompt_is_wrapped_in_question_template() {
    assert_eq!(
        wrap_prompt("What is in the image?"),
        "\n\nQuestion: What is in the image?\nAnswer:"
    );
    assert_eq!(wrap_prompt(""), "\n\nQuestion: \nAnswer:");
}

#[test]
fn zero_tokens_are_rejected_as_input_error() {
    let r = require_nonempty(Vec::new());
    assert!(matches!(r, Err(PipelineError::Input)));
}

#[test]
fn nonempty_tokens_pass_through_unchanged() {
    let r = require_nonempty(vec![4, 5, 6]).unwrap();
    assert_eq!(r, vec![4, 5, 6]);
}

#[test]
fn tokenize_prompt_yields_ids() {
    let t = tiny_tokenizer(true);
    let ids = tokenize_prompt(&t, "hello").unwrap();
    assert!(!ids.is_empty());
    // The whole wrapped prompt is unknown to the tiny vocabulary.
    assert_eq!(ids, vec![0]);
}

#[test]
fn found_stop_token_passes_through_unchanged() {
    assert_eq!(require_stop_token(Some(50256)).unwrap(), 50256);
    assert!(matches!(
        require_stop_token(None),
        Err(PipelineError::SpecialTokenNotFound)
    ));
}

#[test]
fn stop_token_is_resolved_from_vocabulary() {
    let t = tiny_tokenizer(true);
    assert_eq!(resolve_stop_token(&t).unwrap(), 1);
}

#[test]
fn missing_stop_token_is_a_mismatch() {
    let t = tiny_tokenizer(false);
    let r = resolve_stop_token(&t);
    assert!(matches!(r, Err(PipelineError::SpecialTokenNotFound)));
}

#[test]
fn error_descriptions_are_nonempty() {
    for e in [
        PipelineError::Io,
        PipelineError::Decode,
        PipelineError::ModelNotFound,
        PipelineError::ModelLoad,
        PipelineError::SpecialTokenNotFound,
        PipelineError::Input,
        PipelineError::Tensor,
        PipelineError::Tokenizer,
        PipelineError::Lock,
    ] {
        assert!(!e.describe().is_empty());
    }
}
