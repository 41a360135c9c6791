use vstd::prelude::*;
use crate::errors::PipelineError;
use crate::events::Generation;
use crate::events::Token;
use crate::tokenize::decode_ids;
use crate::tokenize::resolve_stop_token;
use crate::tokenize::tokenize_prompt;

verus! {

/// Relies on candle_transformers::generation::LogitsProcessor::new: with no
/// temperature and no top-p it samples greedily by argmax.
#[verifier::external_body]
fn new_sampler(seed: u64) -> (r: candle_transformers::generation::LogitsProcessor) {
    candle_transformers::generation::LogitsProcessor::new(seed, None, None)
}

/// Relies on candle_core::Tensor::new and Tensor::unsqueeze: builds a rank-1
/// tensor holding the given token ids on the given device and adds a leading
/// batch dimension.
#[verifier::external_body]
fn tensor_from_ids(ids: &Vec<u32>, dev: &candle_core::Device) -> (r: Option<
    candle_core::Tensor,
>) {
    let build = || -> Result<candle_core::Tensor, candle_core::Error> {
        candle_core::Tensor::new(ids.as_slice(), dev)?.unsqueeze(0)
    };
    build().ok()
}

/// Relies on candle_core::Tensor::to_dtype, to_device and unsqueeze: casts
/// the image tensor to half precision, places it on the compute device and
/// adds a leading batch dimension.
#[verifier::external_body]
fn prepare_image(t: &candle_core::Tensor, dev: &candle_core::Device) -> (r: Option<
    candle_core::Tensor,
>) {
    let build = || -> Result<candle_core::Tensor, candle_core::Error> {
        t.to_dtype(candle_core::DType::F16)?.to_device(dev)?.unsqueeze(0)
    };
    build().ok()
}

/// Relies on candle_core::Tensor::apply and the model's vision encoder: runs
/// the prepared image through the vision-encoding submodel, producing the
/// image embedding vectors.
#[verifier::external_body]
fn encode_image(
    m: &candle_transformers::models::moondream::Model,
    img: &candle_core::Tensor,
) -> (r: Option<candle_core::Tensor>) {
    img.apply(m.vision_encoder()).ok()
}

/// Relies on the text decoder's forward_with_img: a single fused forward pass
/// conditioned on the beginning-of-sequence token, the prompt tokens and the
/// image embeddings. The model carries attention state between calls.
#[verifier::external_body]
fn forward_with_image(
    m: &mut candle_transformers::models::moondream::Model,
    bos: &candle_core::Tensor,
    input: &candle_core::Tensor,
    img_embeds: &candle_core::Tensor,
) -> (r: Option<candle_core::Tensor>) {
    m.text_model.forward_with_img(bos, input, img_embeds).ok()
}

/// Relies on the text decoder's forward: a text-only incremental forward pass
/// over the given tokens, extending the cached attention state.
#[verifier::external_body]
fn forward_text(
    m: &mut candle_transformers::models::moondream::Model,
    input: &candle_core::Tensor,
) -> (r: Option<candle_core::Tensor>) {
    m.text_model.forward(input).ok()
}

/// Relies on candle_core::Tensor::squeeze and to_dtype: drops the batch
/// dimension of the logits and casts them to the sampler's half precision.
#[verifier::external_body]
fn logits_to_half(t: &candle_core::Tensor) -> (r: Option<candle_core::Tensor>) {
    let build = || -> Result<candle_core::Tensor, candle_core::Error> {
        t.squeeze(0)?.to_dtype(candle_core::DType::F16)
    };
    build().ok()
}

/// Relies on candle_transformers::generation::LogitsProcessor::sample: draws
/// the next token id from the logits. Nothing is assumed of the sampled id.
#[verifier::external_body]
fn sample_token(
    s: &mut candle_transformers::generation::LogitsProcessor,
    logits: &candle_core::Tensor,
) -> (r: Option<u32>) {
    s.sample(logits).ok()
}

/// Maps a failed tensor or sampling operation to the pipeline's tensor
/// error; a success passes through unchanged.
fn map_tensor_err<T>(r: Option<T>) -> (out: Result<T, PipelineError>)
    ensures
        r matches Some(v) ==> out == Ok::<T, PipelineError>(v),
        r is None ==> out == Err::<T, PipelineError>(PipelineError::Tensor),
{
    match r {
        Some(v) => Ok(v),
        None => Err(PipelineError::Tensor),
    }
}

/// Whether the decode step with the given index consumes the image
/// embedding tensor: only the very first one does; every later step runs a
/// text-only forward pass.
pub open spec fn step_consumes_image(step_index: int) -> bool {
    step_index == 0
}

/// Whether the coming decode step of this run consumes the image embedding
/// tensor: exactly the first one does.
pub fn uses_image_now(it: &PipelineIter) -> (b: bool)
    ensures
        b <==> step_consumes_image(it.step as int),
{
    it.step == 0
}

/// The per-request generation pipeline: the loaded model, tokenizer, compute
/// device, stateful sampler, resolved stop-token id, and the encoded image
/// embeddings. It holds the canonical prompt tokens unmutated, so every
/// fresh iteration state replays from the same starting tokens.
pub struct Pipeline {
    model: candle_transformers::models::moondream::Model,
    device: candle_core::Device,
    tokenizer: tokenizers::Tokenizer,
    sampler: candle_transformers::generation::LogitsProcessor,
    tokens: Vec<u32>,
    image_embeds: candle_core::Tensor,
    special_token: u32,
}

/// The iteration state of one run: the input tokens for the next step, the
/// ids generated so far in order, the step index, and whether the run has
/// terminated.
pub struct PipelineIter {
    /// Input token ids for the next forward pass; the whole prompt before the
    /// first step, the single last generated id afterwards.
    pub tokens: Vec<u32>,
    /// All generated token ids so far, in generation order.
    pub generated: Vec<u32>,
    /// Number of completed decode steps.
    pub step: usize,
    /// Whether the run has terminated; a terminated run produces nothing.
    pub terminated: bool,
}

impl PipelineIter {
    /// One token id is generated per completed step, and after the first
    /// step the input shrinks to the single last generated id.
    pub open spec fn wf(&self) -> bool {
        &&& self.step == self.generated@.len()
        &&& (self.step > 0 ==> self.tokens@.len() == 1)
    }

    /// The pure decode-step transition, applied once the next token id has
    /// been sampled: records the id, narrows the next input to that single
    /// id, terminates exactly on the stop token, and emits the step's event.
    /// `full_text` must be the decoded full text exactly on the stop step.
    pub fn advance(
        &mut self,
        sampled: u32,
        stop: u32,
        text: String,
        full_text: Option<String>,
    ) -> (g: Generation)
        requires
            old(self).wf(),
            !old(self).terminated,
            old(self).step < usize::MAX,
            full_text is Some <==> sampled == stop,
        ensures
            final(self).wf(),
            final(self).generated@ == old(self).generated@.push(sampled),
            final(self).tokens@ == seq![sampled],
            final(self).step == old(self).step + 1,
            final(self).terminated <==> sampled == stop,
            g.token.id == sampled as usize,
            g.token.text == text,
            g.token.special <==> sampled == stop,
            g.generated_text == full_text,
            g.details is None,
    {
        let is_stop = sampled == stop;
        self.generated.push(sampled);
        let mut single: Vec<u32> = Vec::new();
        single.push(sampled);
        self.tokens = single;
        self.step = self.step + 1;
        if is_stop {
            self.terminated = true;
        }
        Generation {
            token: Token { id: sampled as usize, text, special: is_stop },
            generated_text: full_text,
            details: None,
        }
    }
}

impl Pipeline {
    /// The canonical prompt token ids this pipeline was built from.
    pub closed spec fn prompt_tokens(&self) -> Seq<u32> {
        self.tokens@
    }

    /// The resolved stop-token id, shared as beginning and end of sequence.
    pub closed spec fn stop_token(&self) -> u32 {
        self.special_token
    }

    /// The encoded image embedding tensor, computed once at construction.
    pub closed spec fn embeds(&self) -> candle_core::Tensor {
        self.image_embeds
    }

    /// A pipeline always holds at least one prompt token.
    pub open spec fn wf(&self) -> bool {
        self.prompt_tokens().len() > 0
    }

    /// Assembles a pipeline from already-loaded parts and the stop-token id
    /// resolved once from the tokenizer's vocabulary (`resolve_stop_token`,
    /// which `build_pipeline` calls eagerly). The stored prompt tokens,
    /// stop-token id and image embeddings are exactly the given ones. The
    /// sampler is pluggable here: the caller hands in any configured
    /// sampler (temperature, top-k, top-p), while `build_pipeline` uses the
    /// default greedy one.
    pub fn new(
        model: candle_transformers::models::moondream::Model,
        tokenizer: tokenizers::Tokenizer,
        device: candle_core::Device,
        tokens: Vec<u32>,
        image_embeds: candle_core::Tensor,
        sampler: candle_transformers::generation::LogitsProcessor,
        stop: u32,
    ) -> (p: Pipeline)
        requires
            tokens@.len() > 0,
        ensures
            p.wf(),
            p.prompt_tokens() == tokens@,
            p.stop_token() == stop,
            p.embeds() == image_embeds,
    {
        Pipeline {
            model,
            device,
            tokenizer,
            sampler,
            tokens,
            image_embeds,
            special_token: stop,
        }
    }

    /// A fresh, independent iteration state bound to this pipeline's prompt
    /// tokens and already-computed image embeddings; repeated calls replay
    /// from the same starting tokens, since no step mutates either.
    pub fn iter(&self) -> (it: PipelineIter)
        ensures
            it.tokens@ == self.prompt_tokens(),
            it.generated@ == Seq::<u32>::empty(),
            it.step == 0,
            !it.terminated,
            it.wf(),
    {
        PipelineIter { tokens: self.tokens.clone(), generated: Vec::new(), step: 0, terminated: false }
    }

    /// One decode step. A terminated state produces nothing. Otherwise the
    /// step runs the visual-prefixed forward pass on the first step and a
    /// text-only forward pass afterwards, samples the next id, decodes its
    /// text, and emits one event; the event carries the full decoded text of
    /// all generated ids exactly when the sampled id is the stop token, and
    /// the run then terminates. A failed step is the run's last item.
    pub fn next(&mut self, it: &mut PipelineIter) -> (r: Option<Result<Generation, PipelineError>>)
        requires
            old(it).wf(),
            old(it).step < usize::MAX,
        ensures
            final(self).prompt_tokens() == old(self).prompt_tokens(),
            final(self).stop_token() == old(self).stop_token(),
            final(self).embeds() == old(self).embeds(),
            final(self).wf() == old(self).wf(),
            final(it).wf(),
            r is None <==> old(it).terminated,
            r is None ==> *final(it) == *old(it),
            r matches Some(Ok(g)) ==> {
                &&& final(it).step == old(it).step + 1
                &&& g.token.id == (g.token.id as u32) as usize
                &&& final(it).generated@ == old(it).generated@.push(g.token.id as u32)
                &&& final(it).tokens@ == seq![g.token.id as u32]
                &&& (g.token.special <==> g.token.id as u32 == old(self).stop_token())
                &&& (final(it).terminated <==> g.token.special)
                &&& (g.generated_text is Some <==> g.token.special)
                &&& g.details is None
            },
            r matches Some(Err(e)) ==> {
                &&& final(it).terminated
                &&& final(it).generated@ == old(it).generated@
                &&& final(it).tokens@ == old(it).tokens@
                &&& final(it).step == old(it).step
                &&& (e == PipelineError::Tensor || e == PipelineError::Tokenizer)
            },
    {
        if it.terminated {
            return None;
        }
        let input = match map_tensor_err(tensor_from_ids(&it.tokens, &self.device)) {
            Ok(t) => t,
            Err(e) => {
                it.terminated = true;
                return Some(Err(e));
            },
        };
        let logits_full = if it.step == 0 {
            let mut bos_ids: Vec<u32> = Vec::new();
            bos_ids.push(self.special_token);
            let bos = match map_tensor_err(tensor_from_ids(&bos_ids, &self.device)) {
                Ok(t) => t,
                Err(e) => {
                    it.terminated = true;
                    return Some(Err(e));
                },
            };
            map_tensor_err(
                forward_with_image(&mut self.model, &bos, &input, &self.image_embeds),
            )
        } else {
            map_tensor_err(forward_text(&mut self.model, &input))
        };
        let logits = match logits_full {
            Ok(l) => l,
            Err(e) => {
                it.terminated = true;
                return Some(Err(e));
            },
        };
        let halves = match map_tensor_err(logits_to_half(&logits)) {
            Ok(l) => l,
            Err(e) => {
                it.terminated = true;
                return Some(Err(e));
            },
        };
        let sampled = match map_tensor_err(sample_token(&mut self.sampler, &halves)) {
            Ok(id) => id,
            Err(e) => {
                it.terminated = true;
                return Some(Err(e));
            },
        };
        let mut single: Vec<u32> = Vec::new();
        single.push(sampled);
        let text = match decode_ids(&self.tokenizer, &single, true) {
            Some(s) => s,
            None => {
                it.terminated = true;
                return Some(Err(PipelineError::Tokenizer));
            },
        };
        let is_stop = sampled == self.special_token;
        let full_text = if is_stop {
            let mut all = it.generated.clone();
            all.push(sampled);
            match decode_ids(&self.tokenizer, &all, true) {
                Some(s) => Some(s),
                None => {
                    it.terminated = true;
                    return Some(Err(PipelineError::Tokenizer));
                },
            }
        } else {
            None
        };
        let g = it.advance(sampled, self.special_token, text, full_text);
        Some(Ok(g))
    }
}

/// Builds the whole pipeline for one request: wraps and tokenizes the
/// prompt, rejecting one that tokenized to zero tokens before anything else
/// is constructed; prepares the image tensor and encodes it into embedding
/// vectors; initializes the greedy sampler; and resolves the stop token
/// once, storing exactly the resolved id.
pub fn build_pipeline(
    prompt: &str,
    image: candle_core::Tensor,
    device: candle_core::Device,
    model: candle_transformers::models::moondream::Model,
    tokenizer: tokenizers::Tokenizer,
) -> (r: Result<Pipeline, PipelineError>)
    ensures
        r matches Ok(p) ==> p.wf(),
        r matches Err(e) ==> (e == PipelineError::Input || e == PipelineError::Tokenizer || e == PipelineError::Tensor
            || e == PipelineError::SpecialTokenNotFound),
{
    let tokens = match tokenize_prompt(&tokenizer, prompt) {
        Ok(t) => t,
        Err(e) => {
            return Err(e);
        },
    };
    let prepared = match map_tensor_err(prepare_image(&image, &device)) {
        Ok(t) => t,
        Err(e) => {
            return Err(e);
        },
    };
    let embeds = match map_tensor_err(encode_image(&model, &prepared)) {
        Ok(t) => t,
        Err(e) => {
            return Err(e);
        },
    };
    let stop = match resolve_stop_token(&tokenizer) {
        Ok(id) => id,
        Err(e) => {
            return Err(e);
        },
    };
    let sampler = new_sampler(0);
    Ok(Pipeline::new(model, tokenizer, device, tokens, embeds, sampler, stop))
}

/// Step-index asymmetry: the image embedding tensor is consumed exactly on
/// the first decode step, that is, exactly while no token has been generated
/// yet; every later step runs text-only.
pub proof fn lemma_step_asymmetry(it: PipelineIter)
    requires
        it.wf(),
    ensures
        step_consumes_image(it.step as int) <==> it.generated@.len() == 0,
{
}

/// The observable state of a fresh run after the sampler has produced
/// `ids`, one per step, stepping only while the run is live: the generated
/// ids so far and whether the run has terminated. This mirrors the
/// decode-step transition of `advance`, which records each sampled id and
/// terminates exactly on the stop token.
pub open spec fn run_state(ids: Seq<u32>, stop: u32) -> (Seq<u32>, bool)
    decreases ids.len(),
{
    if ids.len() == 0 {
        (Seq::<u32>::empty(), false)
    } else {
        let prior = run_state(ids.drop_last(), stop);
        if prior.1 {
            prior
        } else {
            (prior.0.push(ids.last()), ids.last() == stop)
        }
    }
}

/// A run that has sampled no stop token so far is still live and has
/// recorded exactly the sampled ids, in order.
pub proof fn lemma_run_live_without_stop(ids: Seq<u32>, stop: u32)
    requires
        forall|i: int| 0 <= i < ids.len() ==> ids[i] != stop,
    ensures
        run_state(ids, stop).0 =~= ids,
        !run_state(ids, stop).1,
    decreases ids.len(),
{
    if ids.len() > 0 {
        lemma_run_live_without_stop(ids.drop_last(), stop);
    }
}

/// A run whose sampled ids contain the stop token exactly once, at the end,
/// terminates exactly there: every earlier state is still live (so exactly
/// one event is terminal and carries the generated text), and the run has
/// recorded every sampled id, in order.
pub proof fn lemma_run_terminates_once(ids: Seq<u32>, stop: u32)
    requires
        ids.len() > 0,
        forall|i: int| 0 <= i < ids.len() - 1 ==> ids[i] != stop,
        ids.last() == stop,
    ensures
        run_state(ids, stop).0 =~= ids,
        run_state(ids, stop).1,
        forall|k: int| 0 <= k < ids.len() ==> !run_state(#[trigger] ids.take(k), stop).1,
{
    lemma_run_live_without_stop(ids.drop_last(), stop);
    assert(run_state(ids, stop).0 =~= ids);
    assert forall|k: int| 0 <= k < ids.len() implies !run_state(#[trigger] ids.take(k), stop).1 by {
        assert(forall|i: int| 0 <= i < ids.take(k).len() ==> ids.take(k)[i] != stop);
        lemma_run_live_without_stop(ids.take(k), stop);
    }
}

/// Stop-token detection: when the first sampled token of a fresh run is the
/// stop token, the run terminates with exactly one generated id, and that
/// step's event is marked special and carries the full generated text. The
/// hypotheses are the decode-step transition as `advance` establishes it.
pub proof fn lemma_stop_token_terminates(
    before: PipelineIter,
    after: PipelineIter,
    g: Generation,
    sampled: u32,
    stop: u32,
)
    requires
        before.wf(),
        !before.terminated,
        before.step == 0,
        sampled == stop,
        after.generated@ == before.generated@.push(sampled),
        after.step == before.step + 1,
        after.terminated <==> sampled == stop,
        g.token.special <==> sampled == stop,
        g.generated_text is Some <==> sampled == stop,
    ensures
        after.terminated,
        after.generated@.len() == 1,
        g.token.special,
        g.generated_text is Some,
{
}

} // verus!
