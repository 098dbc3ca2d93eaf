use ark_bls12_381::Fr;
use ark_ff::{Field, One, Zero};

use plonk_core::gates::{
    arithmetic_term, curve_add_term, delta_quad, fixed_base_term, logic_term, lookup_term,
    range_term, CurveParams, WitnessValues,
};

fn wires(a: u64, b: u64, c: u64, d: u64) -> WitnessValues {
    WitnessValues { a: Fr::from(a), b: Fr::from(b), c: Fr::from(c), d: Fr::from(d) }
}

fn curve() -> CurveParams {
    CurveParams { coeff_a: -Fr::one(), coeff_d: Fr::from(5u64) }
}

#[test]
fn delta_quad_vanishes_exactly_on_quads() {
    for v in 0u64..4 {
        assert_eq!(delta_quad(Fr::from(v)), Fr::zero());
    }
    assert_eq!(delta_quad(Fr::from(4u64)), Fr::from(24u64));
    assert_eq!(delta_quad(Fr::from(5u64)), Fr::from(120u64));
}

#[test]
fn arithmetic_term_matches_the_selector_combination() {
    let w = wires(2, 3, 5, 7);
    let (q_m, q_l, q_r, q_o, q_4, q_c) = (
        Fr::from(11u64),
        Fr::from(13u64),
        Fr::from(17u64),
        Fr::from(19u64),
        Fr::from(23u64),
        Fr::from(29u64),
    );
    let expected = q_m * w.a * w.b + q_l * w.a + q_r * w.b + q_o * w.c + q_4 * w.d + q_c;
    assert_eq!(arithmetic_term(q_m, q_l, q_r, q_o, q_4, q_c, w), expected);
    // 11*6 + 13*2 + 17*3 + 19*5 + 23*7 + 29 = 66+26+51+95+161+29 = 428
    assert_eq!(expected, Fr::from(428u64));
}

#[test]
fn range_term_vanishes_on_a_valid_digit_chain() {
    // accumulator grows by one base-4 digit per wire: d=1, c=4*1+2,
    // b=4*c+1, a=4*b+3, next row's d=4*a+0
    let d = 1u64;
    let c = 4 * d + 2;
    let b = 4 * c + 1;
    let a = 4 * b + 3;
    let d_next = 4 * a;
    let w = wires(a, b, c, d);
    let sel = Fr::from(3u64);
    let ch = Fr::from(7u64);
    assert_eq!(range_term(sel, ch, w, Fr::from(d_next)), Fr::zero());
    // a digit out of range breaks it
    let w_bad = wires(a + 1, b, c, d);
    assert_ne!(range_term(sel, ch, w_bad, Fr::from(d_next)), Fr::zero());
    // an inactive selector silences it
    assert_eq!(range_term(Fr::zero(), ch, w_bad, Fr::from(d_next)), Fr::zero());
}

#[test]
fn logic_term_vanishes_on_the_trivial_step() {
    let w = wires(0, 0, 0, 0);
    let sel = Fr::from(5u64);
    let ch = Fr::from(9u64);
    let zero = Fr::zero();
    assert_eq!(logic_term(sel, ch, w, zero, zero, zero, zero), Fr::zero());
    // a nonzero product wire without matching operands breaks it
    let w_bad = wires(0, 0, 1, 0);
    assert_ne!(logic_term(sel, ch, w_bad, zero, zero, zero, zero), Fr::zero());
}

#[test]
fn fixed_base_term_vanishes_when_the_accumulator_rests() {
    // a zero scalar bit keeps the accumulator: the added point degenerates
    // to the identity and the next row must repeat (a, b)
    let w = WitnessValues { a: Fr::from(6u64), b: Fr::from(10u64), c: Fr::zero(), d: Fr::zero() };
    let sel = Fr::from(2u64);
    let ch = Fr::from(3u64);
    let (q_l, q_r, q_c) = (Fr::from(21u64), Fr::from(22u64), Fr::from(23u64));
    let r = fixed_base_term(sel, ch, w, w.a, w.b, Fr::zero(), q_l, q_r, q_c, curve());
    assert_eq!(r, Fr::zero());
    let r_bad = fixed_base_term(sel, ch, w, w.a + Fr::one(), w.b, Fr::zero(), q_l, q_r, q_c, curve());
    assert_ne!(r_bad, Fr::zero());
}

#[test]
fn curve_add_term_vanishes_on_adding_the_identity() {
    // (0, 1) + (0, 1) = (0, 1) on every twisted-Edwards curve
    let w = WitnessValues { a: Fr::zero(), b: Fr::one(), c: Fr::zero(), d: Fr::one() };
    let sel = Fr::from(4u64);
    let ch = Fr::from(6u64);
    let r = curve_add_term(sel, ch, w, Fr::zero(), Fr::one(), Fr::zero(), curve());
    assert_eq!(r, Fr::zero());
    let r_bad = curve_add_term(sel, ch, w, Fr::zero(), Fr::from(2u64), Fr::zero(), curve());
    assert_ne!(r_bad, Fr::zero());
}

#[test]
fn lookup_term_compares_the_compressed_wires_to_the_query() {
    let w = wires(0, 0, 0, 0);
    let zeta = Fr::from(8u64);
    assert_eq!(lookup_term(Fr::one(), Fr::one(), w, Fr::zero(), zeta), Fr::zero());
    assert_eq!(lookup_term(Fr::one(), Fr::one(), w, Fr::one(), zeta), -Fr::one());
    let w2 = wires(1, 2, 3, 4);
    let compressed = w2.a + zeta * (w2.b + zeta * (w2.c + zeta * w2.d));
    assert_eq!(
        lookup_term(Fr::from(3u64), Fr::from(5u64), w2, Fr::zero(), zeta),
        Fr::from(3u64) * compressed * Fr::from(5u64)
    );
}
