use ark_bls12_381::Fr;
use ark_ff::{FftField, Zero};
use ark_poly::{EvaluationDomain, GeneralEvaluationDomain};

use plonk_core::domain::{
    coset_transform_round_trip, padded_circuit_size, transform_round_trip, Domain,
};
use plonk_core::quotient::compute_first_lagrange_poly_scaled;
use plonk_core::Error;

fn eval_poly(coeffs: &[Fr], x: Fr) -> Fr {
    let mut acc = Fr::zero();
    for c in coeffs.iter().rev() {
        acc = acc * x + c;
    }
    acc
}

fn sample_coeffs(n: usize) -> Vec<Fr> {
    (0..n).map(|k| Fr::from((k * k + 3 * k + 1) as u64)).collect()
}

#[test]
fn padded_circuit_size_is_next_power_of_two_strictly_above() {
    assert_eq!(padded_circuit_size(0), 1);
    assert_eq!(padded_circuit_size(1), 2);
    assert_eq!(padded_circuit_size(2), 4);
    assert_eq!(padded_circuit_size(3), 4);
    assert_eq!(padded_circuit_size(4), 8);
    assert_eq!(padded_circuit_size((1 << 17) - 1), 1 << 17);
    assert_eq!(padded_circuit_size(1 << 17), 1 << 18);
}

#[test]
fn domain_new_rounds_up_to_power_of_two() {
    assert_eq!(Domain::new(0).unwrap().size, 1);
    assert_eq!(Domain::new(1).unwrap().size, 1);
    assert_eq!(Domain::new(3).unwrap().size, 4);
    assert_eq!(Domain::new(4).unwrap().size, 4);
    let d = Domain::new(1000).unwrap();
    assert_eq!(d.size, 1024);
    assert_eq!(d.log_size, 10);
}

#[test]
fn domain_new_rejects_sizes_beyond_two_adicity() {
    let e = Domain::new((1usize << 32) + 1).unwrap_err();
    assert_eq!(
        e,
        Error::InvalidEvalDomainSize { log_size_of_group: 33, adicity: 32 }
    );
}

#[test]
fn extend_4x_rejects_domains_near_the_adicity_limit() {
    let d = Domain::new(1usize << 31).unwrap();
    let e = d.extend_4x().unwrap_err();
    assert_eq!(
        e,
        Error::InvalidEvalDomainSize { log_size_of_group: 33, adicity: 32 }
    );
}

#[test]
fn transform_evaluates_at_the_domain_points() {
    let d = Domain::new(8).unwrap();
    let coeffs = sample_coeffs(8);
    let evals = d.transform(&coeffs);
    let ark = GeneralEvaluationDomain::<Fr>::new(8).unwrap();
    for i in 0..8 {
        assert_eq!(evals[i], eval_poly(&coeffs, ark.element(i)));
    }
}

#[test]
fn coset_transform_evaluates_at_the_shifted_points() {
    let d = Domain::new(8).unwrap();
    let coeffs = sample_coeffs(8);
    let evals = d.coset_transform(&coeffs);
    let ark = GeneralEvaluationDomain::<Fr>::new(8).unwrap();
    let g = Fr::multiplicative_generator();
    for i in 0..8 {
        assert_eq!(evals[i], eval_poly(&coeffs, g * ark.element(i)));
    }
}

#[test]
fn transform_round_trip_is_identity() {
    let d = Domain::new(16).unwrap();
    let coeffs = sample_coeffs(16);
    assert_eq!(transform_round_trip(&d, &coeffs), coeffs);
    let evals = d.transform(&coeffs);
    assert_eq!(d.inverse_transform(&evals), coeffs);
}

#[test]
fn coset_transform_round_trip_is_identity() {
    let d = Domain::new(16).unwrap();
    let coeffs = sample_coeffs(16);
    assert_eq!(coset_transform_round_trip(&d, &coeffs), coeffs);
    let evals = d.coset_transform(&coeffs);
    assert_eq!(d.coset_inverse_transform(&evals), coeffs);
}

#[test]
fn first_lagrange_poly_scaled_hits_scale_then_zero() {
    let d = Domain::new(8).unwrap();
    let s = Fr::from(42u64);
    let poly = compute_first_lagrange_poly_scaled(&d, s);
    let ark = GeneralEvaluationDomain::<Fr>::new(8).unwrap();
    assert_eq!(eval_poly(&poly, ark.element(0)), s);
    for i in 1..8 {
        assert_eq!(eval_poly(&poly, ark.element(i)), Fr::zero());
    }
    assert!(poly.iter().any(|c| !c.is_zero()));
}
