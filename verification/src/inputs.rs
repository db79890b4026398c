use vstd::prelude::*;

use crate::error::EmbedError;
use crate::pooling::is_binary_mask;
use crate::tokenize::{encode_text, TokenizedText};

verus! {

/// A `u32` sequence widened element by element to the `i64` the engine wants.
pub open spec fn widened(s: Seq<u32>) -> Seq<i64> {
    s.map(|i: int, x: u32| x as i64)
}

/// The three rank-2 `(1, seq_len)` input tensors for one inference call,
/// held as flat buffers of their single row.
pub struct ModelInputs {
    /// Token ids, widened to the engine's element type.
    pub input_ids: Vec<i64>,
    /// 1 for a real token, 0 for padding; parallel to `input_ids`.
    pub attention_mask: Vec<i64>,
    /// Token-type ids; parallel to `input_ids`.
    pub token_type_ids: Vec<i64>,
}

impl ModelInputs {
    /// Number of token positions, the shared length of the three buffers.
    pub open spec fn seq_len(self) -> nat {
        self.input_ids@.len()
    }

    /// The three buffers are parallel and the attention mask is 0/1-valued.
    pub open spec fn wf(self) -> bool {
        &&& self.attention_mask@.len() == self.input_ids@.len()
        &&& self.token_type_ids@.len() == self.input_ids@.len()
        &&& is_binary_mask(self.attention_mask@)
    }

    /// Widen a tokenizer encoding into the engine's input element type,
    /// keeping every value and every position.
    pub fn from_tokens(t: &TokenizedText) -> (m: ModelInputs)
        requires
            t.wf(),
        ensures
            m.input_ids@ == widened(t.ids@),
            m.attention_mask@ == widened(t.attention_mask@),
            m.token_type_ids@ == widened(t.type_ids@),
            m.seq_len() == t.seq_len(),
            m.wf(),
    {
        let m = ModelInputs {
            input_ids: widen_u32s(&t.ids),
            attention_mask: widen_u32s(&t.attention_mask),
            token_type_ids: widen_u32s(&t.type_ids),
        };
        proof {
            assert forall|i: int| 0 <= i < m.attention_mask@.len() implies (m.attention_mask@[i]
                == 0 || m.attention_mask@[i] == 1) by {
                assert(m.attention_mask@[i] == t.attention_mask@[i] as i64);
            }
        }
        m
    }
}

/// Copy a `u32` buffer into an `i64` buffer, value for value.
fn widen_u32s(v: &Vec<u32>) -> (r: Vec<i64>)
    ensures
        r@ == widened(v@),
{
    let mut r: Vec<i64> = Vec::new();
    let mut i: usize = 0;
    while i < v.len()
        invariant
            i <= v@.len(),
            r@.len() == i,
            forall|k: int| 0 <= k < i ==> r@[k] == v@[k] as i64,
        decreases v@.len() - i,
    {
        r.push(v[i] as i64);
        i = i + 1;
    }
    proof {
        assert(r@ =~= widened(v@));
    }
    r
}

/// Tokenize one text with special tokens enabled and widen the result into
/// the engine's three equal-length input buffers. A tokenizer failure
/// propagates as a tokenization error; nothing else can fail.
pub fn prepare_inputs(tokenizer: &tokenizers::Tokenizer, text: &str) -> (r: Result<
    ModelInputs,
    EmbedError,
>)
    ensures
        r matches Ok(m) ==> m.wf(),
        r matches Err(e) ==> e is Tokenization,
{
    match encode_text(tokenizer, text, true) {
        Ok(t) => Ok(ModelInputs::from_tokens(&t)),
        Err(e) => Err(e),
    }
}

} // verus!
