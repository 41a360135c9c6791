use vstd::prelude::*;

verus! {

#[verifier::external_type_specification]
#[verifier::external_body]
pub struct ExTensor(candle_core::Tensor);

#[verifier::external_type_specification]
#[verifier::external_body]
pub struct ExDevice(candle_core::Device);

#[verifier::external_type_specification]
#[verifier::external_body]
pub struct ExCandleError(candle_core::Error);

#[verifier::external_type_specification]
#[verifier::external_body]
pub struct ExModel(candle_transformers::models::moondream::Model);

#[verifier::external_type_specification]
#[verifier::external_body]
pub struct ExLogitsProcessor(candle_transformers::generation::LogitsProcessor);

} // verus!
