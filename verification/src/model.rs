//! What the permutation and the hash compute, over natural numbers below the field's order.
//! A state is a sequence of three such numbers.

use crate::constants::MDS;
use crate::constants::ROUND_CONSTANTS;
use crate::field::fadd;
use crate::field::limbs_value;
use crate::field::modulus;
use crate::field::pow5;
use vstd::prelude::*;

verus! {

/// Slots of the state.
pub const WIDTH: usize = 3;

/// Full rounds at each end of the permutation.
pub const HALF_FULL_ROUNDS: usize = 4;

/// Partial rounds in the middle of the permutation.
pub const PARTIAL_ROUNDS: usize = 56;

/// Rounds of the permutation.
pub const ROUNDS: usize = 64;

/// What the third slot holds when two elements are hashed: 2 shifted left by 64 bits.
pub const CAPACITY: u128 = 0x2_0000_0000_0000_0000;

/// The constant added to slot `slot` in round `round`.
pub open spec fn round_constant(round: int, slot: int) -> nat
    recommends
        0 <= round < ROUNDS,
        0 <= slot < WIDTH,
{
    limbs_value(ROUND_CONSTANTS[round][slot]@)
}

/// The three constants of round `round`.
pub open spec fn round_constants(round: int) -> Seq<nat>
    recommends
        0 <= round < ROUNDS,
{
    Seq::new(WIDTH as nat, |slot: int| round_constant(round, slot))
}

/// The entry of the mixing matrix in row `row` and column `col`.
pub open spec fn mds_entry(row: int, col: int) -> nat
    recommends
        0 <= row < WIDTH,
        0 <= col < WIDTH,
{
    limbs_value(MDS[row][col]@)
}

/// Whether round `round` raises every slot to the fifth power, or the first slot only.
pub open spec fn is_full_round(round: int) -> bool {
    round < HALF_FULL_ROUNDS || round >= HALF_FULL_ROUNDS + PARTIAL_ROUNDS
}

/// The state with `constants` added slot by slot.
pub open spec fn add_constants(state: Seq<nat>, constants: Seq<nat>) -> Seq<nat> {
    Seq::new(WIDTH as nat, |slot: int| fadd(state[slot], constants[slot]))
}

/// The state with every slot (`full`), or the first slot only, raised to the fifth power.
pub open spec fn sbox_layer(state: Seq<nat>, full: bool) -> Seq<nat> {
    Seq::new(
        WIDTH as nat,
        |slot: int|
            if full || slot == 0 {
                pow5(state[slot])
            } else {
                state[slot]
            },
    )
}

/// The sum of the first `n` products of row `row` of the matrix with the state, not reduced.
pub open spec fn row_sum(state: Seq<nat>, row: int, n: nat) -> nat
    decreases n,
{
    if n == 0 {
        0
    } else {
        row_sum(state, row, (n - 1) as nat) + mds_entry(row, n - 1) * state[n - 1]
    }
}

/// The product of the mixing matrix with the state.
pub open spec fn mix(state: Seq<nat>) -> Seq<nat> {
    Seq::new(WIDTH as nat, |row: int| row_sum(state, row, WIDTH as nat) % modulus())
}

/// One round: add the round's constants, raise to the fifth power, mix.
pub open spec fn round(state: Seq<nat>, round: int) -> Seq<nat> {
    mix(sbox_layer(add_constants(state, round_constants(round)), is_full_round(round)))
}

/// The state after the first `n` rounds.
pub open spec fn rounds(state: Seq<nat>, n: nat) -> Seq<nat>
    decreases n,
{
    if n == 0 {
        state
    } else {
        round(rounds(state, (n - 1) as nat), n - 1)
    }
}

/// The permutation: all 64 rounds, in order.
pub open spec fn permutation(state: Seq<nat>) -> Seq<nat> {
    rounds(state, ROUNDS as nat)
}

/// The hash of two elements: the first slot of the permuted state `(x, y, CAPACITY)`.
pub open spec fn digest(x: nat, y: nat) -> nat {
    permutation(seq![x, y, CAPACITY as nat])[0]
}

/// Every entry of the two tables is a field element: a number below the field's order.
pub proof fn lemma_tables_hold_elements()
    ensures
        forall|round: int, slot: int|
            0 <= round < 64 && 0 <= slot < 3 ==> #[trigger] round_constant(round, slot) < modulus(),
        forall|row: int, col: int|
            0 <= row < 3 && 0 <= col < 3 ==> #[trigger] mds_entry(row, col) < modulus(),
{
}

/// The permutation is exactly 64 rounds, each made of the same three steps in the same
/// order; rounds 0 to 3 and 60 to 63 raise every slot to the fifth power, rounds 4 to 59
/// the first slot only, whatever the state holds.
pub proof fn lemma_round_schedule(state: Seq<nat>, r: nat)
    requires
        r < 64,
    ensures
        rounds(state, 0) == state,
        rounds(state, r + 1) == mix(
            sbox_layer(add_constants(rounds(state, r), round_constants(r as int)), r < 4 || r >= 60),
        ),
        permutation(state) == rounds(state, 64),
{
}

/// Each slot after mixing is a row of the matrix times the state before mixing: no slot
/// is computed from a slot that the same step has already replaced.
pub proof fn lemma_mix_is_matrix_product(state: Seq<nat>, row: int)
    requires
        0 <= row < 3,
    ensures
        mix(state).len() == 3,
        mix(state)[row] == (mds_entry(row, 0) * state[0] + mds_entry(row, 1) * state[1] + mds_entry(
            row,
            2,
        ) * state[2]) % modulus(),
{
    reveal_with_fuel(row_sum, 4);
}

/// No round changes the width of the state, and every slot it leaves is below the
/// field's order.
pub proof fn lemma_rounds_keep_state(state: Seq<nat>, n: nat)
    requires
        n > 0,
    ensures
        rounds(state, n).len() == 3,
        forall|slot: int| 0 <= slot < 3 ==> #[trigger] rounds(state, n)[slot] < modulus(),
{
}

} // verus!
