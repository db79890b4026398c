use vstd::prelude::*;

use vstd::arithmetic::div_mod::{lemma_div_multiples_vanish_fancy, lemma_multiply_divide_lt};
use vstd::string::StringExecFns;

use crate::error::EmbedError;

verus! {

/// An attention mask is 0/1-valued: 1 marks a real token, 0 marks padding.
pub open spec fn is_binary_mask(m: Seq<i64>) -> bool {
    forall|i: int| 0 <= i < m.len() ==> (m[i] == 0 || m[i] == 1)
}

/// The attention mask summed over the sequence axis: the value mean pooling
/// divides by (after the degenerate-input clamp).
pub open spec fn mask_sum(m: Seq<i64>) -> int
    decreases m.len(),
{
    if m.len() == 0 {
        0
    } else {
        mask_sum(m.drop_last()) + m.last()
    }
}

/// How many positions of an attention mask are marked valid: the number of
/// tokens an attention-masked mean averages over.
pub open spec fn valid_count(m: Seq<i64>) -> int
    decreases m.len(),
{
    if m.len() == 0 {
        0
    } else {
        valid_count(m.drop_last()) + (if m.last() == 1 {
            1int
        } else {
            0int
        })
    }
}

/// For a 0/1 attention mask, summing the mask over the sequence axis counts
/// exactly the positions marked valid: the divisor of mean pooling is the
/// number of real tokens.
pub proof fn lemma_mask_sum_counts_valid_positions(m: Seq<i64>)
    requires
        is_binary_mask(m),
    ensures
        mask_sum(m) == valid_count(m),
    decreases m.len(),
{
    if m.len() > 0 {
        assert(is_binary_mask(m.drop_last()));
        lemma_mask_sum_counts_valid_positions(m.drop_last());
        assert(m[m.len() - 1] == 0 || m[m.len() - 1] == 1);
    }
}

/// For a 0/1 attention mask, the mask sum counts the valid tokens: it never
/// falls below zero nor rises above the sequence length.
pub proof fn lemma_mask_sum_bounds(m: Seq<i64>)
    requires
        is_binary_mask(m),
    ensures
        0 <= mask_sum(m) <= m.len(),
    decreases m.len(),
{
    if m.len() > 0 {
        assert(is_binary_mask(m.drop_last()));
        lemma_mask_sum_bounds(m.drop_last());
    }
}

/// The mask-count clamp of mean pooling matters exactly for degenerate
/// all-padding input: with a 0/1 attention mask, the divisor `mask_sum` is
/// zero precisely when every position is padding, and is at least 1 as soon
/// as a single real token is present.
pub proof fn lemma_mask_sum_zero_iff_all_padding(m: Seq<i64>)
    requires
        is_binary_mask(m),
    ensures
        mask_sum(m) == 0 <==> (forall|i: int| 0 <= i < m.len() ==> m[i] == 0),
        mask_sum(m) >= 1 <==> (exists|i: int| 0 <= i < m.len() && m[i] == 1),
    decreases m.len(),
{
    lemma_mask_sum_bounds(m);
    if m.len() > 0 {
        let prefix = m.drop_last();
        assert(is_binary_mask(prefix));
        lemma_mask_sum_bounds(prefix);
        lemma_mask_sum_zero_iff_all_padding(prefix);
        if m.last() == 1 {
            assert(m[m.len() - 1] == 1);
        } else {
            assert(forall|i: int| 0 <= i < prefix.len() ==> prefix[i] == m[i]);
            if exists|i: int| 0 <= i < m.len() && m[i] == 1 {
                let w = choose|i: int| 0 <= i < m.len() && m[i] == 1;
                assert(w < prefix.len() && prefix[w] == 1);
            }
        }
    }
}

/// Count the valid tokens of an attention mask: the sequence-axis mask sum,
/// which is zero exactly when the whole sequence is padding.
pub fn valid_token_count(mask: &Vec<i64>) -> (n: usize)
    requires
        is_binary_mask(mask@),
    ensures
        n == mask_sum(mask@),
        n == valid_count(mask@),
        n <= mask@.len(),
        n == 0 <==> (forall|i: int| 0 <= i < mask@.len() ==> mask@[i] == 0),
{
    let mut n: usize = 0;
    let mut i: usize = 0;
    while i < mask.len()
        invariant
            i <= mask@.len(),
            is_binary_mask(mask@),
            n == mask_sum(mask@.take(i as int)),
            n <= i,
        decreases mask@.len() - i,
    {
        proof {
            assert(mask@[i as int] == 0 || mask@[i as int] == 1);
            assert(mask@.take(i as int + 1).drop_last() =~= mask@.take(i as int));
            assert(mask@.take(i as int + 1).last() == mask@[i as int]);
        }
        if mask[i] == 1 {
            n = n + 1;
        }
        i = i + 1;
    }
    proof {
        assert(mask@.take(mask@.len() as int) =~= mask@);
        lemma_mask_sum_zero_iff_all_padding(mask@);
        lemma_mask_sum_counts_valid_positions(mask@);
    }
    n
}

/// Decide whether a buffer is a well-formed 0/1 attention mask. Callers use
/// this to test the precondition of the mask operations before relying on it.
pub fn mask_is_binary(mask: &Vec<i64>) -> (b: bool)
    ensures
        b == is_binary_mask(mask@),
{
    let mut i: usize = 0;
    while i < mask.len()
        invariant
            i <= mask@.len(),
            forall|k: int| 0 <= k < i ==> (mask@[k] == 0 || mask@[k] == 1),
        decreases mask@.len() - i,
    {
        if mask[i] != 0 && mask[i] != 1 {
            return false;
        }
        i = i + 1;
    }
    true
}

/// The attention mask broadcast from shape `(1, seq_len)` to a flat
/// `(1, seq_len, hidden_dim)` buffer: entry `k` holds the mask value of
/// token position `k / hidden_dim`.
pub open spec fn broadcast_mask(m: Seq<i64>, hidden_dim: nat) -> Seq<i64> {
    Seq::new(m.len() * hidden_dim, |k: int| m[k / hidden_dim as int])
}

/// Broadcasting repeats each mask value across the whole hidden dimension:
/// entry `(i, j)` of the broadcast mask, at flat index `i * hidden_dim + j`,
/// is the mask value of token position `i`.
pub proof fn lemma_broadcast_mask_entry(m: Seq<i64>, hidden_dim: nat, i: int, j: int)
    requires
        0 <= i < m.len(),
        0 <= j < hidden_dim,
    ensures
        0 <= i * hidden_dim + j < m.len() * hidden_dim,
        broadcast_mask(m, hidden_dim)[i * hidden_dim + j] == m[i],
{
    let h = hidden_dim as int;
    lemma_div_multiples_vanish_fancy(i, j, h);
    assert(h * i == i * h) by (nonlinear_arith);
    assert(0 <= i * h + j < m.len() * h) by (nonlinear_arith)
        requires
            0 <= i < m.len(),
            0 <= j < h,
    ;
}

/// Expand the attention mask across the hidden dimension, the broadcast step
/// of masked mean pooling: the result is the flat `(1, seq_len, hidden_dim)`
/// buffer whose entry `i * hidden_dim + j` repeats the mask value of token
/// position `i`.
pub fn expand_mask(mask: &Vec<i64>, hidden_dim: usize) -> (r: Vec<i64>)
    requires
        mask@.len() * hidden_dim <= usize::MAX,
    ensures
        r@ == broadcast_mask(mask@, hidden_dim as nat),
        r@.len() == mask@.len() * hidden_dim,
{
    let total: usize = mask.len() * hidden_dim;
    let mut r: Vec<i64> = Vec::new();
    let mut k: usize = 0;
    while k < total
        invariant
            total == mask@.len() * hidden_dim,
            k <= total,
            r@.len() == k,
            forall|t: int| 0 <= t < k ==> r@[t] == mask@[t / hidden_dim as int],
        decreases total - k,
    {
        proof {
            if hidden_dim == 0 {
                assert(mask@.len() * 0 == 0) by (nonlinear_arith);
            }
            assert(total == hidden_dim * mask@.len()) by (nonlinear_arith)
                requires
                    total == mask@.len() * hidden_dim,
            ;
            lemma_multiply_divide_lt(k as int, hidden_dim as int, mask@.len() as int);
        }
        let pos: usize = k / hidden_dim;
        r.push(mask[pos]);
        k = k + 1;
    }
    proof {
        assert(r@ =~= broadcast_mask(mask@, hidden_dim as nat));
    }
    r
}

/// Check the engine's output tensor shape `(d0, d1, d2)` against the
/// `(1, seq_len, hidden_dim)` contract: one batch row, one hidden-state
/// vector per token position. On success the hidden dimension `d2` comes
/// back; any mismatch is a shape-contract error.
pub fn check_output_shape(d0: usize, d1: usize, d2: usize, seq_len: usize) -> (r: Result<
    usize,
    EmbedError,
>)
    ensures
        r is Ok <==> (d0 == 1 && d1 == seq_len),
        r matches Ok(h) ==> h == d2,
        r matches Err(e) ==> e is ShapeContract,
{
    if d0 == 1 && d1 == seq_len {
        Ok(d2)
    } else {
        Err(EmbedError::ShapeContract(String::from_str(
            "output tensor shape does not match (1, seq_len, hidden_dim)",
        )))
    }
}

/// The values of one hidden dimension weighted by the attention mask and
/// summed over the sequence axis: the masked-sum step of mean pooling,
/// stated over the integer model of the mask and one column of values.
pub open spec fn weighted_sum(values: Seq<int>, m: Seq<i64>) -> int
    decreases values.len(),
{
    if values.len() == 0 || m.len() != values.len() {
        0
    } else {
        weighted_sum(values.drop_last(), m.drop_last()) + values.last() * m.last()
    }
}

/// The values of one hidden dimension summed over just the positions the
/// attention mask marks valid, ignoring every padding position.
pub open spec fn valid_sum(values: Seq<int>, m: Seq<i64>) -> int
    decreases values.len(),
{
    if values.len() == 0 || m.len() != values.len() {
        0
    } else {
        valid_sum(values.drop_last(), m.drop_last()) + (if m.last() == 1 {
            values.last()
        } else {
            0
        })
    }
}

/// Mean pooling excludes padding: with a 0/1 attention mask, the
/// mask-weighted sum over all positions equals the plain sum over just the
/// positions the mask marks valid, whatever values the padding positions
/// hold.
pub proof fn lemma_weighted_sum_excludes_padding(values: Seq<int>, m: Seq<i64>)
    requires
        m.len() == values.len(),
        is_binary_mask(m),
    ensures
        weighted_sum(values, m) == valid_sum(values, m),
    decreases values.len(),
{
    if values.len() > 0 {
        assert(is_binary_mask(m.drop_last()));
        lemma_weighted_sum_excludes_padding(values.drop_last(), m.drop_last());
        assert(m[m.len() - 1] == 0 || m[m.len() - 1] == 1);
        if m.last() == 1 {
            assert(values.last() * 1 == values.last());
        } else {
            assert(values.last() * 0 == 0);
        }
    }
}

} // verus!
