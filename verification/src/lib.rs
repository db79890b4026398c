//! Turning raw text into a fixed-length sentence embedding is mostly the job
//! of two outside collaborators: a tokenizer, which splits the text into token
//! ids with an attention mask, and an inference engine, which maps those ids to
//! per-token hidden-state vectors. What this crate owns and verifies is the
//! glue between them: validating and widening the tokenizer's output, the
//! integer side of attention-masked mean pooling (mask broadcast, valid-token
//! counting, shape checks), and the error taxonomy of the whole pipeline.
//! The floating-point evaluation of the pooled vector itself lives with the
//! driver that also owns the inference engine, since it is numeric work Verus
//! does not reason about.

pub mod error;
pub mod inputs;
pub mod pooling;
pub mod tokenize;
