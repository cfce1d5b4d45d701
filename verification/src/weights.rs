use vstd::prelude::*;

verus! {

/// 2^64: wrapping arithmetic on `u64` is arithmetic modulo this.
pub open spec fn two_pow_64() -> int {
    0x1_0000_0000_0000_0000
}

/// Hash in `0..1000` behind the deterministic weight of GRU weight `index`:
/// `index * 2654435761` modulo 2^64, then modulo 1000.
pub open spec fn gru_weight_hash_spec(index: int) -> int {
    ((index * 2654435761) % two_pow_64()) % 1000
}

/// Hash in `0..1000` behind the deterministic weight of dense-layer weight
/// `index`: `index * 1664525 + 1013904223` modulo 2^64, then modulo 1000.
pub open spec fn dense_weight_hash_spec(index: int) -> int {
    (((index * 1664525) % two_pow_64() + 1013904223) % two_pow_64()) % 1000
}

/// The integer hash from which a GRU layer derives the initial weight at
/// `index` (the weight is `hash / 10000 - 0.05`).
pub fn gru_weight_hash(index: usize) -> (h: u64)
    ensures
        h == gru_weight_hash_spec(index as int),
        h < 1000,
{
    (index as u64).wrapping_mul(2654435761) % 1000
}

/// The integer hash from which a dense layer derives the initial weight at
/// `index` (the weight is `hash / 10000 - 0.05`).
pub fn dense_weight_hash(index: usize) -> (h: u64)
    ensures
        h == dense_weight_hash_spec(index as int),
        h < 1000,
{
    let m = (index as u64).wrapping_mul(1664525);
    let a = m.wrapping_add(1013904223);
    proof {
        assert(m as int == (index as int * 1664525) % two_pow_64());
        assert(a as int == (m as int + 1013904223) % two_pow_64()) by {
            if m as int + 1013904223 >= two_pow_64() {
                vstd::arithmetic::div_mod::lemma_mod_sub_multiples_vanish(
                    m as int + 1013904223,
                    two_pow_64(),
                );
                vstd::arithmetic::div_mod::lemma_small_mod(
                    (m as int + 1013904223 - two_pow_64()) as nat,
                    two_pow_64() as nat,
                );
            } else {
                vstd::arithmetic::div_mod::lemma_small_mod(
                    (m as int + 1013904223) as nat,
                    two_pow_64() as nat,
                );
            }
        }
    }
    a % 1000
}


/// Where the six weight matrices of a GRU layer start in the sequence of
/// weight indices: `W_z`, `W_r`, `W_h` (each `hidden * input` long), then
/// `U_z`, `U_r`, `U_h` (each `hidden * hidden` long), one after the other.
pub open spec fn gru_offsets_spec(input_size: int, hidden_size: int) -> Seq<int> {
    let wi = hidden_size * input_size;
    let wh = hidden_size * hidden_size;
    seq![0, wi, 2 * wi, 3 * wi, 3 * wi + wh, 3 * wi + 2 * wh]
}

/// Length of the `k`-th weight matrix of a GRU layer.
pub open spec fn gru_matrix_len(input_size: int, hidden_size: int, k: int) -> int {
    if k < 3 {
        hidden_size * input_size
    } else {
        hidden_size * hidden_size
    }
}

/// Offsets of the six weight matrices of a GRU layer with `input_size`
/// inputs and `hidden_size` units in the sequence of weight indices.
pub fn gru_weight_offsets(input_size: usize, hidden_size: usize) -> (r: [usize; 6])
    requires
        3 * (hidden_size * input_size) + 3 * (hidden_size * hidden_size) <= usize::MAX,
    ensures
        r@.len() == 6,
        forall|k: int| 0 <= k < 6 ==> r@[k] == gru_offsets_spec(input_size as int, hidden_size as int)[k],
{
    assert(hidden_size * input_size >= 0 && hidden_size * hidden_size >= 0) by (nonlinear_arith);
    let wi_len = hidden_size * input_size;
    let wh_len = hidden_size * hidden_size;
    [0, wi_len, 2 * wi_len, 3 * wi_len, 3 * wi_len + wh_len, 3 * wi_len + 2 * wh_len]
}

/// The six weight matrices of a GRU layer draw their weights from
/// consecutive, disjoint ranges of indices, so no two of them share an index
/// (and the last one ends at `3 * hidden * input + 3 * hidden * hidden`).
pub proof fn lemma_gru_offsets_disjoint(input_size: nat, hidden_size: nat)
    ensures
        forall|k: int|
            0 <= k < 5 ==> #[trigger] gru_offsets_spec(input_size as int, hidden_size as int)[k]
                + gru_matrix_len(input_size as int, hidden_size as int, k) == gru_offsets_spec(
                input_size as int,
                hidden_size as int,
            )[k + 1],
        gru_offsets_spec(input_size as int, hidden_size as int)[5] + gru_matrix_len(
            input_size as int,
            hidden_size as int,
            5,
        ) == 3 * (hidden_size * input_size) + 3 * (hidden_size * hidden_size),
{
}

} // verus!
