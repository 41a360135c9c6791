use moondream_pipeline::events::Generation;
use moondream_pipeline::events::Token;
use moondream_pipeline::pipeline::uses_image_now;
use moondream_pipeline::pipeline::PipelineIter;

fn fresh_iter(prompt: Vec<u32>) -> PipelineIter {
    PipelineIter { tokens: prompt, generated: Vec::new(), step: 0, terminated: false }
}

#[test]
fn advance_records_one_token_per_step() {
    let mut it = fresh_iter(vec![5, 6, 7]);
    let g = it.advance(42, 99, "hi".to_string(), None);
    assert_eq!(g.token.id, 42);
    assert_eq!(g.token.text, "hi");
    assert!(!g.token.special);
    assert!(g.generated_text.is_none());
    assert!(g.details.is_none());
    assert_eq!(it.generated, vec![42]);
    assert_eq!(it.tokens, vec![42]);
    assert_eq!(it.step, 1);
    assert!(!it.terminated);
}

#[test]
fn advance_accumulates_in_order() {
    let mut it = fresh_iter(vec![1]);
    it.advance(10, 99, "a".to_string(), None);
    it.advance(11, 99, "b".to_string(), None);
    let g = it.advance(99, 99, "<end>".to_string(), Some("ab".to_string()));
    assert_eq!(it.generated, vec![10, 11, 99]);
    assert_eq!(it.step, 3);
    assert!(it.terminated);
    assert!(g.token.special);
    assert_eq!(g.generated_text.as_deref(), Some("ab"));
}

#[test]
fn stop_token_on_first_step_terminates_after_one_event() {
    // A model double that always samples the resolved stop token id on the
    // first call: the run terminates after exactly one emitted event, and
    // that event's token is marked special.
    let stop: u32 = 50256;
    let mut it = fresh_iter(vec![3, 4]);
    let g = it.advance(stop, stop, "<|endoftext|>".to_string(), Some(String::new()));
    assert!(it.terminated);
    assert_eq!(it.generated.len(), 1);
    assert!(g.token.special);
    assert!(g.generated_text.is_some());
}

#[test]
fn image_embedding_consumed_only_on_step_zero() {
    // A double that records which steps would consume the image embedding
    // tensor: only the very first step does; afterwards the forward pass is
    // text-only.
    let mut it = fresh_iter(vec![8, 9]);
    let mut consumed: Vec<bool> = Vec::new();
    for sampled in [21u32, 22, 23] {
        consumed.push(uses_image_now(&it));
        it.advance(sampled, 99, String::new(), None);
    }
    assert_eq!(consumed, vec![true, false, false]);
}

#[test]
fn terminal_flag_mirrors_generated_text() {
    let token = Token { id: 7, text: "x".to_string(), special: false };
    let running = Generation { token: token.clone(), generated_text: None, details: None };
    assert!(!running.is_terminal());
    let done = Generation { token, generated_text: Some("x".to_string()), details: None };
    assert!(done.is_terminal());
}
