//! A cancellable streaming generation pipeline for a vision-language model:
//! an image is preprocessed into a normalized channel-first tensor, a prompt
//! is wrapped in the model's question template and tokenized, and a decoder
//! then emits one generation event per step until the stop token is sampled
//! or the run is preempted by a newer request.

pub mod candle_api;
pub mod control;
pub mod errors;
pub mod events;
pub mod pipeline;
pub mod preprocess;
pub mod prompt;
pub mod tokenize;
