use vstd::prelude::*;

use crate::error::EmbedError;

verus! {

#[verifier::external_type_specification]
#[verifier::external_body]
pub struct ExTokenizer(tokenizers::Tokenizer);

/// One text, encoded: the three parallel integer sequences the inference
/// engine expects, exactly as the tokenizer produced them.
pub struct TokenizedText {
    /// Token ids, special tokens included when they were requested.
    pub ids: Vec<u32>,
    /// 1 for a real token, 0 for padding; parallel to `ids`.
    pub attention_mask: Vec<u32>,
    /// Token-type ids; parallel to `ids`.
    pub type_ids: Vec<u32>,
}

impl TokenizedText {
    /// Number of token positions in this encoding.
    pub open spec fn seq_len(self) -> nat {
        self.ids@.len()
    }

    /// The three sequences are parallel and the attention mask is 0/1-valued.
    pub open spec fn wf(self) -> bool {
        &&& self.attention_mask@.len() == self.ids@.len()
        &&& self.type_ids@.len() == self.ids@.len()
        &&& forall|i: int|
            0 <= i < self.attention_mask@.len() ==> (self.attention_mask@[i] == 0
                || self.attention_mask@[i] == 1)
    }
}

/// Relies on tokenizers' `post_process` and `Encoding::truncate`: with
/// truncation parameters set, encoding subtracts the post-processor's
/// added-token count from the max length on `usize`, and truncation asserts
/// that the stride stay strictly below any positive remainder; loading a
/// tokenizer validates neither. Returns true exactly when those parameters
/// could make `Tokenizer::encode` fault.
#[verifier::external_body]
fn truncation_would_fault(tokenizer: &tokenizers::Tokenizer, add_special_tokens: bool) -> (r:
    bool)
{
    let added = match (tokenizer.get_post_processor(), add_special_tokens) {
        (Some(p), true) => tokenizers::PostProcessor::added_tokens(p, false),
        _ => 0,
    };
    tokenizer.get_truncation().is_some_and(|t| {
        t.max_length.checked_sub(added).map_or(true, |eff| eff > 0 && t.stride >= eff)
    })
}

/// Relies on tokenizers' `TemplateProcessing`: its deserializer skips the
/// builder's validation, and on a single text `apply_template` indexes the
/// encodings by the sequence a template piece names and (when special tokens
/// are added) the special-tokens map by a piece's id, so a single-sequence
/// template naming sequence B, or naming a special token absent from the
/// map, panics inside `Tokenizer::encode`. The derived debug form of a
/// template prints a second-sequence piece as `id: B`, and rebuilding the
/// single template through the crate's own builder re-runs the skipped
/// special-token validation; sequence post-processors are walked into. The
/// screen may reject a sound template whose special-token name contains that
/// same text, never the reverse.
#[verifier::external_body]
fn template_would_fault(tokenizer: &tokenizers::Tokenizer, add_special_tokens: bool) -> (r:
    bool)
{
    let mut work: Vec<&tokenizers::PostProcessorWrapper> =
        tokenizer.get_post_processor().into_iter().collect();
    loop {
        let p = match work.pop() { Some(p) => p, None => return false };
        if let tokenizers::PostProcessorWrapper::Sequence(s) = p {
            let mut i: usize = 0;
            loop { match s.get(i) { Some(q) => { work.push(q); i += 1; } None => break } }
        } else if let tokenizers::PostProcessorWrapper::Template(t) = p {
            let rebuilt = tokenizers::processors::template::TemplateProcessing::builder()
                .single(t.single.clone()).special_tokens(t.get_special_tokens().clone()).build();
            if t.get_single().contains("id: B") || (add_special_tokens && rebuilt.is_err()) {
                return true;
            }
        }
    }
}

/// Relies on tokenizers' `Tokenizer::encode` and the `Encoding` getters
/// `get_ids`, `get_attention_mask` and `get_type_ids`: an encoding keeps its
/// id, attention-mask and type-id arrays parallel (always equal in length),
/// and every attention-mask entry is 1 for a real token or 0 for padding.
/// The two screens above reject, as a tokenization error, every loadable
/// tokenizer configuration on which the call would panic (unvalidated
/// truncation parameters or template post-processors), so the call itself
/// cannot panic.
#[verifier::external_body]
pub(crate) fn encode_text(tokenizer: &tokenizers::Tokenizer, text: &str, add_special_tokens: bool) -> (r:
    Result<TokenizedText, EmbedError>)
    ensures
        r matches Ok(t) ==> t.wf(),
        r matches Err(e) ==> e is Tokenization,
{
    if truncation_would_fault(tokenizer, add_special_tokens)
        || template_would_fault(tokenizer, add_special_tokens) {
        let msg = "tokenizer truncation or template configuration would fault during encoding";
        return Err(EmbedError::Tokenization(String::from(msg)));
    }
    match tokenizer.encode(text, add_special_tokens) {
        Ok(e) => Ok(TokenizedText { ids: e.get_ids().to_vec(), attention_mask: e.get_attention_mask().to_vec(), type_ids: e.get_type_ids().to_vec() }),
        Err(e) => Err(EmbedError::Tokenization(format!("{}", e))),
    }
}

} // verus!
