//! Poseidon hash over the Pallas base field: two field elements in, one out.
//!
//! The permutation works on a state of three elements and runs 64 rounds; each round
//! adds constants, raises to the fifth power and multiplies by a fixed matrix.

pub mod constants;
pub mod field;
pub mod model;

use crate::constants::MDS;
use crate::constants::ROUND_CONSTANTS;
use crate::field::field_from_raw;
use crate::field::field_from_u128;
use crate::field::field_zero;
use crate::field::lemma_value_determines_element;
use crate::field::modulus;
use crate::field::pow5;
use crate::field::FieldElement;
use crate::model::lemma_tables_hold_elements;
use crate::model::CAPACITY;
use crate::model::HALF_FULL_ROUNDS;
use crate::model::PARTIAL_ROUNDS;
use crate::model::ROUNDS;
use crate::model::WIDTH;
use vstd::arithmetic::div_mod::lemma_add_mod_noop;
use vstd::prelude::*;

verus! {

/// The type used to hold permutation state.
pub type State = [FieldElement; 3];

/// The numbers that the slots of a state hold.
pub open spec fn values(state: State) -> Seq<nat> {
    Seq::new(WIDTH as nat, |slot: int| state[slot]@)
}

/// The constants of one round, as field elements.
fn round_constants(round: usize) -> (rcs: State)
    requires
        round < ROUNDS,
    ensures
        values(rcs) == model::round_constants(round as int),
{
    proof {
        lemma_tables_hold_elements();
    }
    let limbs = ROUND_CONSTANTS[round];
    let rcs = [field_from_raw(limbs[0]), field_from_raw(limbs[1]), field_from_raw(limbs[2])];
    assert(values(rcs) =~= model::round_constants(round as int));
    rcs
}

/// One entry of the mixing matrix, as a field element.
fn mds_entry(row: usize, col: usize) -> (entry: FieldElement)
    requires
        row < WIDTH,
        col < WIDTH,
    ensures
        entry@ == model::mds_entry(row as int, col as int),
{
    proof {
        lemma_tables_hold_elements();
    }
    field_from_raw(MDS[row][col])
}

/// The S-box: the fifth power of an element.
pub fn sbox(x: FieldElement) -> (y: FieldElement)
    ensures
        y@ == pow5(x@),
{
    x.pow5()
}

/// The S-box layer of a full round: every slot is replaced by its fifth power.
pub fn full_round_sbox_layer(state: &mut State)
    ensures
        values(*final(state)) == model::sbox_layer(values(*old(state)), true),
{
    state[0] = sbox(state[0]);
    state[1] = sbox(state[1]);
    state[2] = sbox(state[2]);
    assert(values(*state) =~= model::sbox_layer(values(*old(state)), true));
}

/// The S-box layer of a partial round: the first slot is replaced by its fifth power,
/// the other two stay as they are.
pub fn half_round_sbox_layer(state: &mut State)
    ensures
        values(*final(state)) == model::sbox_layer(values(*old(state)), false),
{
    state[0] = sbox(state[0]);
    assert(values(*state) =~= model::sbox_layer(values(*old(state)), false));
}

/// Adds a triple of constants to the state, slot by slot.
pub fn add_round_constants(state: &mut State, rcs: &State)
    ensures
        values(*final(state)) == model::add_constants(values(*old(state)), values(*rcs)),
{
    state[0] = state[0].add(&rcs[0]);
    state[1] = state[1].add(&rcs[1]);
    state[2] = state[2].add(&rcs[2]);
    assert(values(*state) =~= model::add_constants(values(*old(state)), values(*rcs)));
}

/// Replaces the state by the product of the mixing matrix with it. Every slot of the
/// product is computed from the state as it was before the call.
pub fn apply_mds(state: &mut State)
    ensures
        values(*final(state)) == model::mix(values(*old(state))),
{
    let ghost before = values(*state);
    let mut new_state = [field_zero(); 3];
    let mut i: usize = 0;
    while i < 3
        invariant
            i <= 3,
            values(*state) == before,
            forall|k: int|
                0 <= k < i ==> (#[trigger] new_state[k])@ == model::row_sum(before, k, 3)
                    % modulus(),
            forall|k: int| i <= k < 3 ==> (#[trigger] new_state[k])@ == 0,
        decreases 3 - i,
    {
        let mut j: usize = 0;
        while j < 3
            invariant
                i < 3,
                j <= 3,
                values(*state) == before,
                new_state[i as int]@ == model::row_sum(before, i as int, j as nat) % modulus(),
                forall|k: int|
                    0 <= k < i ==> (#[trigger] new_state[k])@ == model::row_sum(before, k, 3)
                        % modulus(),
                forall|k: int| i < k < 3 ==> (#[trigger] new_state[k])@ == 0,
            decreases 3 - j,
        {
            let entry = mds_entry(i, j);
            let term = entry.mul(&state[j]);
            proof {
                assert(before[j as int] == state[j as int]@);
                lemma_add_mod_noop(
                    model::row_sum(before, i as int, j as nat) as int,
                    (model::mds_entry(i as int, j as int) * before[j as int]) as int,
                    modulus() as int,
                );
            }
            new_state[i] = new_state[i].add(&term);
            j += 1;
        }
        i += 1;
    }
    *state = new_state;
    assert(values(*state) =~= model::mix(before));
}

/// Runs the Poseidon permutation on the given state.
pub fn permute(state: &mut State)
    ensures
        values(*final(state)) == model::permutation(values(*old(state))),
{
    let ghost before = values(*state);
    let mut round: usize = 0;
    while round < ROUNDS
        invariant
            round <= ROUNDS,
            values(*state) == model::rounds(before, round as nat),
        decreases ROUNDS - round,
    {
        let rcs = round_constants(round);
        add_round_constants(state, &rcs);
        if round < HALF_FULL_ROUNDS || round >= HALF_FULL_ROUNDS + PARTIAL_ROUNDS {
            full_round_sbox_layer(state);
        } else {
            half_round_sbox_layer(state);
        }
        apply_mds(state);
        round += 1;
    }
}

/// Poseidon hash of two field elements: the first slot of the state `(x, y, 2 << 64)`
/// after the permutation.
pub fn hash(x: FieldElement, y: FieldElement) -> (digest: FieldElement)
    ensures
        digest@ == model::digest(x@, y@),
{
    let mut state = [x, y, field_from_u128(CAPACITY)];
    assert(values(state) =~= seq![x@, y@, CAPACITY as nat]);
    permute(&mut state);
    state[0]
}

/// The permutation is a function of the state it is given: whatever two runs on the same
/// state leave is the same state, byte for byte.
pub proof fn lemma_permute_deterministic(input: State, first: State, second: State)
    requires
        values(first) == model::permutation(values(input)),
        values(second) == model::permutation(values(input)),
    ensures
        first == second,
{
    assert forall|slot: int| 0 <= slot < 3 implies first[slot] == second[slot] by {
        assert(values(first)[slot] == first[slot]@);
        assert(values(second)[slot] == second[slot]@);
        lemma_value_determines_element(first[slot], second[slot]);
    }
    assert(first =~= second);
}

/// The hash is a function of its two inputs: whatever two calls on the same inputs return
/// is the same element, byte for byte.
pub proof fn lemma_hash_deterministic(
    x: FieldElement,
    y: FieldElement,
    first: FieldElement,
    second: FieldElement,
)
    requires
        first@ == model::digest(x@, y@),
        second@ == model::digest(x@, y@),
    ensures
        first == second,
        first.encoding() == second.encoding(),
{
    lemma_value_determines_element(first, second);
}

} // verus!
