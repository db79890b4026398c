use vstd::prelude::*;

verus! {

/// Everything that can go wrong on the way from text to embedding.
///
/// Failures of the two outside collaborators propagate unchanged in meaning:
/// a tokenizer failure becomes `Tokenization`, an engine failure becomes
/// `Inference`. `ShapeContract` marks a broken internal shape agreement
/// (mask length differing from sequence length, or an output tensor whose
/// shape does not match the inputs); it signals a programming error, not a
/// recoverable input condition.
#[derive(Debug, Clone)]
pub enum EmbedError {
    /// The tokenizer could not encode the input text.
    Tokenization(String),
    /// The inference engine rejected the input tensors or faulted.
    Inference(String),
    /// An internal shape agreement was broken.
    ShapeContract(String),
}

} // verus!
