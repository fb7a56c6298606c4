//! Exact values and general behaviour of the field encoding, the round steps, the
//! permutation and the hash.

use pasta_curves::group::ff::PrimeField;
use pasta_curves::pallas::Base;
use poseidon_hash::add_round_constants;
use poseidon_hash::apply_mds;
use poseidon_hash::constants::MDS;
use poseidon_hash::constants::ROUND_CONSTANTS;
use poseidon_hash::field::FieldElement;
use poseidon_hash::full_round_sbox_layer;
use poseidon_hash::half_round_sbox_layer;
use poseidon_hash::hash;
use poseidon_hash::permute;
use poseidon_hash::sbox;

const MODULUS_HEX: &str = "40000000000000000000000000000000224698fc094cf91b992d30ed00000001";
const MODULUS_MINUS_ONE_HEX: &str =
    "40000000000000000000000000000000224698fc094cf91b992d30ed00000000";

/// The 32 little-endian bytes of a number written as 64 hex digits, most significant first.
fn bytes_of_hex(hex: &str) -> [u8; 32] {
    assert_eq!(hex.len(), 64);
    let mut bytes = [0u8; 32];
    for i in 0..32 {
        bytes[31 - i] = u8::from_str_radix(&hex[2 * i..2 * i + 2], 16).unwrap();
    }
    bytes
}

fn bytes_of_u128(v: u128) -> [u8; 32] {
    let mut bytes = [0u8; 32];
    bytes[..16].copy_from_slice(&v.to_le_bytes());
    bytes
}

fn bytes_of_limbs(limbs: [u64; 4]) -> [u8; 32] {
    let mut bytes = [0u8; 32];
    for i in 0..4 {
        bytes[8 * i..8 * i + 8].copy_from_slice(&limbs[i].to_le_bytes());
    }
    bytes
}

fn fe_hex(hex: &str) -> FieldElement {
    FieldElement::from_repr(bytes_of_hex(hex)).unwrap()
}

fn fe(v: u128) -> FieldElement {
    FieldElement::from_repr(bytes_of_u128(v)).unwrap()
}

fn fe_limbs(limbs: [u64; 4]) -> FieldElement {
    FieldElement::from_repr(bytes_of_limbs(limbs)).unwrap()
}

fn reprs(state: &[FieldElement; 3]) -> [[u8; 32]; 3] {
    [state[0].to_repr(), state[1].to_repr(), state[2].to_repr()]
}

#[test]
fn from_repr_accepts_exactly_the_numbers_below_the_modulus() {
    assert!(FieldElement::from_repr([0u8; 32]).is_some());
    assert!(FieldElement::from_repr(bytes_of_u128(1)).is_some());
    assert!(FieldElement::from_repr(bytes_of_u128(u128::MAX)).is_some());
    assert!(FieldElement::from_repr(bytes_of_hex(MODULUS_MINUS_ONE_HEX)).is_some());
    assert!(FieldElement::from_repr(bytes_of_hex(MODULUS_HEX)).is_none());
    assert!(FieldElement::from_repr(bytes_of_hex(
        "40000000000000000000000000000000224698fc094cf91b992d30ed00000002"
    ))
    .is_none());
    assert!(FieldElement::from_repr(bytes_of_hex(
        "40000000000000000000000000000000224698fc094cf91b992d30ee00000000"
    ))
    .is_none());
    assert!(FieldElement::from_repr(bytes_of_hex(
        "4000000000000000000000000000000100000000000000000000000000000000"
    ))
    .is_none());
    assert!(FieldElement::from_repr(bytes_of_hex(
        "3fffffffffffffffffffffffffffffffffffffffffffffffffffffffffffffff"
    ))
    .is_some());
    assert!(FieldElement::from_repr(bytes_of_hex(
        "40000000000000000000000000000000224698fc094cf91a992d30ed00000002"
    ))
    .is_some());
    assert!(FieldElement::from_repr([0xffu8; 32]).is_none());
    let mut high_bit = [0u8; 32];
    high_bit[31] = 0x80;
    assert!(FieldElement::from_repr(high_bit).is_none());
}

#[test]
fn from_repr_agrees_with_the_field_library() {
    let samples = [
        bytes_of_u128(0),
        bytes_of_u128(7),
        bytes_of_hex(MODULUS_MINUS_ONE_HEX),
        bytes_of_hex(MODULUS_HEX),
        bytes_of_hex("40000000000000000000000000000000224698fc094cf91b992d30ed00000100"),
        bytes_of_hex("123456789abcdef0123456789abcdef0123456789abcdef0123456789abcdef0"),
        [0xffu8; 32],
    ];
    for bytes in samples.iter() {
        let theirs: bool = Base::from_repr(*bytes).is_some().into();
        assert_eq!(FieldElement::from_repr(*bytes).is_some(), theirs);
    }
}

#[test]
fn to_repr_gives_back_the_bytes_decoded() {
    let bytes = bytes_of_hex("123456789abcdef0123456789abcdef0123456789abcdef0123456789abcdef0");
    assert_eq!(FieldElement::from_repr(bytes).unwrap().to_repr(), bytes);
    assert_eq!(fe(0).to_repr(), [0u8; 32]);
    assert_eq!(fe(5), fe(5));
    assert_ne!(fe(5), fe(6));
}

#[test]
fn add_is_addition_modulo_the_order() {
    assert_eq!(fe(2).add(&fe(3)), fe(5));
    assert_eq!(fe(0).add(&fe(0)), fe(0));
    assert_eq!(fe_hex(MODULUS_MINUS_ONE_HEX).add(&fe(1)), fe(0));
    assert_eq!(
        fe_hex(MODULUS_MINUS_ONE_HEX).add(&fe_hex(MODULUS_MINUS_ONE_HEX)),
        fe_hex("40000000000000000000000000000000224698fc094cf91b992d30ecffffffff")
    );
    assert_eq!(
        fe(u128::MAX).add(&fe(1)),
        fe_hex("0000000000000000000000000000000100000000000000000000000000000000")
    );
}

#[test]
fn mul_is_multiplication_modulo_the_order() {
    assert_eq!(fe(6).mul(&fe(7)), fe(42));
    assert_eq!(fe(0).mul(&fe_hex(MODULUS_MINUS_ONE_HEX)), fe(0));
    assert_eq!(fe(1 << 64).mul(&fe(1 << 64)), fe_hex(
        "0000000000000000000000000000000100000000000000000000000000000000"
    ));
    // (p - 1) * (p - 1) = 1 and (p - 1) * 2 = p - 2
    assert_eq!(fe_hex(MODULUS_MINUS_ONE_HEX).mul(&fe_hex(MODULUS_MINUS_ONE_HEX)), fe(1));
    assert_eq!(
        fe_hex(MODULUS_MINUS_ONE_HEX).mul(&fe(2)),
        fe_hex("40000000000000000000000000000000224698fc094cf91b992d30ecffffffff")
    );
}

#[test]
fn pow5_agrees_with_repeated_multiplication() {
    let x = fe_hex("123456789abcdef0123456789abcdef0123456789abcdef0123456789abcdef0");
    let by_hand = x.mul(&x).mul(&x).mul(&x).mul(&x);
    assert_eq!(x.pow5(), by_hand);
    assert_eq!(sbox(x), by_hand);
    assert_ne!(x.pow5(), x);
}

#[test]
fn sbox_is_the_fifth_power() {
    assert_eq!(sbox(fe(0)), fe(0));
    assert_eq!(sbox(fe(1)), fe(1));
    assert_eq!(sbox(fe(2)), fe(32));
    assert_eq!(sbox(fe(3)), fe(243));
    assert_eq!(sbox(fe(1 << 25)), fe(1 << 125));
    // (p - 1)^5 = p - 1 and (p - 2)^5 = p - 32
    assert_eq!(sbox(fe_hex(MODULUS_MINUS_ONE_HEX)), fe_hex(MODULUS_MINUS_ONE_HEX));
    assert_eq!(
        sbox(fe_hex("40000000000000000000000000000000224698fc094cf91b992d30ecffffffff")),
        fe_hex("40000000000000000000000000000000224698fc094cf91b992d30ecffffffe1")
    );
    // (3 * 2^200)^5 is reduced
    assert_eq!(
        sbox(fe_hex("0000000000000300000000000000000000000000000000000000000000000000")),
        fe_hex("2a31559580b9b6526a303d4fbe49b887ebec819a535e2d7002eede375923443c")
    );
}

#[test]
fn full_round_sbox_layer_raises_every_slot() {
    let mut state = [fe(2), fe(3), fe_hex(MODULUS_MINUS_ONE_HEX)];
    full_round_sbox_layer(&mut state);
    assert_eq!(state, [fe(32), fe(243), fe_hex(MODULUS_MINUS_ONE_HEX)]);
}

#[test]
fn half_round_sbox_layer_raises_the_first_slot_only() {
    let mut state = [fe(2), fe(3), fe(4)];
    half_round_sbox_layer(&mut state);
    assert_eq!(state, [fe(32), fe(3), fe(4)]);
}

#[test]
fn add_round_constants_adds_slot_by_slot_and_wraps() {
    let mut state = [fe_hex(MODULUS_MINUS_ONE_HEX), fe(2), fe(0)];
    let rcs = [fe(1), fe(3), fe_hex(MODULUS_MINUS_ONE_HEX)];
    add_round_constants(&mut state, &rcs);
    assert_eq!(state, [fe(0), fe(5), fe_hex(MODULUS_MINUS_ONE_HEX)]);
    // the constants are left as they were
    assert_eq!(rcs, [fe(1), fe(3), fe_hex(MODULUS_MINUS_ONE_HEX)]);

    let mut state = [fe_hex(MODULUS_MINUS_ONE_HEX), fe(u128::MAX), fe(10)];
    let rcs = [fe(5), fe(1), fe(20)];
    add_round_constants(&mut state, &rcs);
    assert_eq!(
        state,
        [
            fe(4),
            fe_hex("0000000000000000000000000000000100000000000000000000000000000000"),
            fe(30)
        ]
    );
}

#[test]
fn apply_mds_known_product() {
    let mut state = [fe(1), fe(2), fe(3)];
    apply_mds(&mut state);
    assert_eq!(
        state,
        [
            fe_hex("0519838c2178f4528e5e7d5c0b45cd1b7d5028fbaee5cd2b6aeedb4c35c70f34"),
            fe_hex("17a848bbf1fd45ffbd69ad5666bba4a0952ea08c611d6a866def9c7285ac6843"),
            fe_hex("1c455d10882f99760e78cb4de460a55b90b9187f3512bc5969418216ba8a657b"),
        ]
    );
}

#[test]
fn apply_mds_of_zero_is_zero() {
    let mut state = [fe(0), fe(0), fe(0)];
    apply_mds(&mut state);
    assert_eq!(state, [fe(0), fe(0), fe(0)]);
}

#[test]
fn apply_mds_of_unit_vectors_gives_the_columns_of_the_matrix() {
    for col in 0..3 {
        let mut state = [fe(0), fe(0), fe(0)];
        state[col] = fe(1);
        apply_mds(&mut state);
        assert_eq!(
            state,
            [fe_limbs(MDS[0][col]), fe_limbs(MDS[1][col]), fe_limbs(MDS[2][col])]
        );
    }
}

#[test]
fn apply_mds_reads_only_the_state_before_the_step() {
    let before = [
        fe_hex("123456789abcdef0123456789abcdef0123456789abcdef0123456789abcdef0"),
        fe(u128::MAX),
        fe_hex(MODULUS_MINUS_ONE_HEX),
    ];
    let old: Vec<Base> = before.iter().map(|e| Base::from_repr(e.to_repr()).unwrap()).collect();
    let mut fresh = [Base::zero(); 3];
    for i in 0..3 {
        for j in 0..3 {
            fresh[i] += Base::from_raw(MDS[i][j]) * old[j];
        }
    }
    // what comes of overwriting slot by slot
    let mut in_place = [old[0], old[1], old[2]];
    for i in 0..3 {
        let mut acc = Base::zero();
        for j in 0..3 {
            acc += Base::from_raw(MDS[i][j]) * in_place[j];
        }
        in_place[i] = acc;
    }
    let mut state = before;
    apply_mds(&mut state);
    assert_eq!(reprs(&state), [fresh[0].to_repr(), fresh[1].to_repr(), fresh[2].to_repr()]);
    assert_eq!(state[0].to_repr(), in_place[0].to_repr());
    assert_ne!(state[1].to_repr(), in_place[1].to_repr());
    assert_ne!(state[2].to_repr(), in_place[2].to_repr());
}

#[test]
fn the_tables_hold_canonical_elements() {
    assert_eq!(ROUND_CONSTANTS.len(), 64);
    for round in ROUND_CONSTANTS.iter() {
        for limbs in round.iter() {
            assert!(FieldElement::from_repr(bytes_of_limbs(*limbs)).is_some());
        }
    }
    for row in MDS.iter() {
        for limbs in row.iter() {
            assert!(FieldElement::from_repr(bytes_of_limbs(*limbs)).is_some());
        }
    }
    assert_eq!(
        fe_limbs(ROUND_CONSTANTS[63][2]),
        fe_hex("3a8a628295121d5c5c1e3e9e27a571c3a004abe8e01528c41211b9e2190d6852")
    );
}

/// The rounds written out with the steps of the library, under a given schedule.
fn rounds_by_hand(state: &mut [FieldElement; 3], rounds: usize, full: fn(usize) -> bool) {
    for r in 0..rounds {
        let rcs = [
            fe_limbs(ROUND_CONSTANTS[r][0]),
            fe_limbs(ROUND_CONSTANTS[r][1]),
            fe_limbs(ROUND_CONSTANTS[r][2]),
        ];
        add_round_constants(state, &rcs);
        if full(r) {
            full_round_sbox_layer(state);
        } else {
            half_round_sbox_layer(state);
        }
        apply_mds(state);
    }
}

fn reference_schedule(r: usize) -> bool {
    r < 4 || r >= 60
}

#[test]
fn first_round_known_answer() {
    let mut state = [fe(0), fe(0), fe(0)];
    rounds_by_hand(&mut state, 1, reference_schedule);
    assert_eq!(
        state,
        [
            fe_hex("01589e67fcb7e4991eed9f9d8851b53ba3dd0226e42ec58d33128cb0c499be76"),
            fe_hex("0cd59df1adcb0578a34e3cfda2b77d1b5f5cb87045b42bf7112152e3bcd150da"),
            fe_hex("37e591250dc13a5a467befb6c904f114882da3ae084dd3dcc77ab52475c6eb1f"),
        ]
    );
}

#[test]
fn permute_runs_64_rounds_with_four_full_rounds_at_each_end() {
    let inputs = [
        [fe(0), fe(0), fe(0)],
        [fe(1), fe(2), fe(3)],
        [fe_hex(MODULUS_MINUS_ONE_HEX), fe(u128::MAX), fe(2 << 64)],
    ];
    for input in inputs.iter() {
        let mut permuted = *input;
        permute(&mut permuted);

        let mut by_hand = *input;
        rounds_by_hand(&mut by_hand, 64, reference_schedule);
        assert_eq!(permuted, by_hand);

        let mut short = *input;
        rounds_by_hand(&mut short, 63, reference_schedule);
        assert_ne!(permuted, short);

        let mut all_full = *input;
        rounds_by_hand(&mut all_full, 64, |_| true);
        assert_ne!(permuted, all_full);

        let mut all_partial = *input;
        rounds_by_hand(&mut all_partial, 64, |_| false);
        assert_ne!(permuted, all_partial);

        let mut shifted = *input;
        rounds_by_hand(&mut shifted, 64, |r| r < 5 || r >= 61);
        assert_ne!(permuted, shifted);

        let mut ends_early = *input;
        rounds_by_hand(&mut ends_early, 64, |r| r < 4 || r >= 61);
        assert_ne!(permuted, ends_early);
    }
}

#[test]
fn hash_known_answers() {
    assert_eq!(
        hash(fe(0), fe(0)),
        fe_hex("0394521bb77c67f4c7eb0033d30084694dc531bc4ff2c2271ec2c6ce8359517a")
    );
    assert_eq!(
        hash(fe(1), fe(2)),
        fe_hex("3555a5ecb43c9998030ad4b06e7982eb3b4600ce9023c6838975dc0794bde34c")
    );
    assert_eq!(
        hash(fe(2), fe(1)),
        fe_hex("04d8738b915c77f51a4b7a07660b08eaf47777a5f319642c02efb5f1c752275e")
    );
    assert_eq!(
        hash(fe_hex(MODULUS_MINUS_ONE_HEX), fe_hex(MODULUS_MINUS_ONE_HEX)),
        fe_hex("296560dc980c78c983ae9642902ae66032c128c42088d3b04f0fb16c3e4fcb68")
    );
}

#[test]
fn hash_is_deterministic() {
    let x = fe_hex("123456789abcdef0123456789abcdef0123456789abcdef0123456789abcdef0");
    let y = fe(u128::MAX);
    let first = hash(x, y);
    let second = hash(x, y);
    assert_eq!(first, second);
    assert_eq!(first.to_repr(), second.to_repr());
    // the inputs are taken by value and not changed
    assert_eq!(y, fe(u128::MAX));
}

#[test]
fn hash_is_the_first_slot_of_the_permuted_state_with_the_capacity_constant() {
    let x = fe(1);
    let y = fe(2);
    let mut state = [x, y, fe(2 << 64)];
    permute(&mut state);
    assert_eq!(hash(x, y), state[0]);
    assert_ne!(hash(x, y), state[1]);
    assert_ne!(hash(x, y), state[2]);
}

#[test]
fn another_capacity_constant_changes_the_digest() {
    let x = fe(1);
    let y = fe(2);
    let digest = hash(x, y);
    for capacity in [0u128, 1, 2, 1 << 64, 3 << 64, (2 << 64) + 1, 2 << 63, 2 << 65] {
        let mut state = [x, y, fe(capacity)];
        permute(&mut state);
        if capacity == 2 << 64 {
            assert_eq!(state[0], digest);
        } else {
            assert_ne!(state[0], digest);
        }
    }
    let mut state = [x, y, fe(0)];
    permute(&mut state);
    assert_eq!(
        state[0],
        fe_hex("0f46262391a0cb952fd453c82e6d9903f9f257b80ce2ba3eea6cf0660ab7e7e7")
    );
}

#[test]
fn distinct_inputs_give_distinct_digests() {
    assert_ne!(hash(fe(0), fe(0)), hash(fe(0), fe(1)));
    assert_ne!(hash(fe(0), fe(1)), hash(fe(1), fe(0)));
    assert_ne!(hash(fe(1), fe(2)), hash(fe(2), fe(1)));
    assert_ne!(hash(fe(0), fe(0)), fe(0));
}
