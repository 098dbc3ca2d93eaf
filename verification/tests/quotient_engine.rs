use ark_bls12_381::Fr;
use ark_ff::{Field, One, Zero};
use ark_poly::{EvaluationDomain, GeneralEvaluationDomain};

use plonk_core::domain::Domain;
use plonk_core::gates::CurveParams;
use plonk_core::permutation::{permutation_term, K1, K2, K3};
use plonk_core::proving_key::{
    ArithmeticSelectors, GateSelectors, ProverKey, SigmaPolynomials,
};
use plonk_core::quotient::compute;

const N: usize = 4;

fn eval_poly(coeffs: &[Fr], x: Fr) -> Fr {
    let mut acc = Fr::zero();
    for c in coeffs.iter().rev() {
        acc = acc * x + c;
    }
    acc
}

fn constant_poly(v: Fr) -> Vec<Fr> {
    let mut p = vec![Fr::zero(); N];
    p[0] = v;
    p
}

fn zeros() -> Vec<Fr> {
    vec![Fr::zero(); N]
}

/// Selectors of a circuit of `N` multiplication rows: `a * b - c = 0`.
fn multiplication_key(domain: &Domain) -> ProverKey {
    let arithmetic = ArithmeticSelectors {
        q_m: constant_poly(Fr::one()),
        q_l: zeros(),
        q_r: zeros(),
        q_o: constant_poly(-Fr::one()),
        q_4: zeros(),
        q_c: zeros(),
    };
    let gates = GateSelectors {
        range: zeros(),
        logic: zeros(),
        fixed_base: zeros(),
        variable_base: zeros(),
        lookup: zeros(),
    };
    // identity permutation: sigma is X on the left wires and k*X on the
    // other columns, so the copy side cancels the identity side exactly
    let mut left = zeros();
    left[1] = Fr::one();
    let mut right = zeros();
    right[1] = Fr::from(K1);
    let mut out = zeros();
    out[1] = Fr::from(K2);
    let mut fourth = zeros();
    fourth[1] = Fr::from(K3);
    let sigmas = SigmaPolynomials { left, right, out, fourth };
    let curve = CurveParams { coeff_a: -Fr::one(), coeff_d: Fr::from(5u64) };
    ProverKey::compile(domain, arithmetic, gates, sigmas, curve, false).unwrap()
}

struct Challenges {
    alpha: Fr,
    beta: Fr,
    gamma: Fr,
    delta: Fr,
    epsilon: Fr,
    zeta: Fr,
    range: Fr,
    logic: Fr,
    fixed_base: Fr,
    var_base: Fr,
    lookup: Fr,
}

fn challenges() -> Challenges {
    Challenges {
        alpha: Fr::from(3u64),
        beta: Fr::from(5u64),
        gamma: Fr::from(7u64),
        delta: Fr::from(11u64),
        epsilon: Fr::from(13u64),
        zeta: Fr::from(17u64),
        range: Fr::from(19u64),
        logic: Fr::from(23u64),
        fixed_base: Fr::from(29u64),
        var_base: Fr::from(31u64),
        lookup: Fr::from(37u64),
    }
}

fn run_compute(
    domain: &Domain,
    pk: &ProverKey,
    wl: &Vec<Fr>,
    wr: &Vec<Fr>,
    wo: &Vec<Fr>,
    w4: &Vec<Fr>,
    z: &Vec<Fr>,
) -> Vec<Fr> {
    let ch = challenges();
    let zero_poly = zeros();
    compute(
        domain,
        pk,
        z,
        &constant_poly(Fr::one()),
        wl,
        wr,
        wo,
        w4,
        &zero_poly,
        &zero_poly,
        &zero_poly,
        &zero_poly,
        &zero_poly,
        &ch.alpha,
        &ch.beta,
        &ch.gamma,
        &ch.delta,
        &ch.epsilon,
        &ch.zeta,
        &ch.range,
        &ch.logic,
        &ch.fixed_base,
        &ch.var_base,
        &ch.lookup,
    )
    .unwrap()
}

fn witness_columns() -> (Vec<Fr>, Vec<Fr>, Vec<Fr>, Vec<Fr>) {
    let a: Vec<Fr> = [2u64, 3, 4, 5].iter().map(|v| Fr::from(*v)).collect();
    let b: Vec<Fr> = [3u64, 4, 5, 6].iter().map(|v| Fr::from(*v)).collect();
    let c: Vec<Fr> = a.iter().zip(b.iter()).map(|(x, y)| *x * y).collect();
    let d = zeros();
    (a, b, c, d)
}

#[test]
fn satisfied_circuit_divides_exactly() {
    let domain = Domain::new(N).unwrap();
    let pk = multiplication_key(&domain);
    let (a, b, c, d) = witness_columns();
    let wl = domain.inverse_transform(&a);
    let wr = domain.inverse_transform(&b);
    let wo = domain.inverse_transform(&c);
    let w4 = domain.inverse_transform(&d);
    let z = constant_poly(Fr::one());
    let t = run_compute(&domain, &pk, &wl, &wr, &wo, &w4, &z);

    // with the identity permutation and z = 1 the permutation part is zero,
    // so the numerator is q_m*wl*wr - wo and the quotient must satisfy
    // numerator(x) == t(x) * (x^N - 1) at every point
    assert!(t.iter().any(|v| !v.is_zero()));
    for x in [Fr::from(11u64), Fr::from(97u64), Fr::from(12345u64)] {
        let numerator = eval_poly(&wl, x) * eval_poly(&wr, x) - eval_poly(&wo, x);
        let vanishing = x.pow([N as u64]) - Fr::one();
        assert_eq!(numerator, eval_poly(&t, x) * vanishing);
    }
}

#[test]
fn violated_gate_leaves_a_nonzero_remainder() {
    let domain = Domain::new(N).unwrap();
    let pk = multiplication_key(&domain);
    let (a, b, mut c, d) = witness_columns();
    // break exactly one multiplication row
    c[2] += Fr::one();
    let wl = domain.inverse_transform(&a);
    let wr = domain.inverse_transform(&b);
    let wo = domain.inverse_transform(&c);
    let w4 = domain.inverse_transform(&d);
    let z = constant_poly(Fr::one());
    let t = run_compute(&domain, &pk, &wl, &wr, &wo, &w4, &z);

    // the numerator no longer vanishes on the domain, so no polynomial
    // times the vanishing polynomial can match it there: at the broken row's
    // domain point the claimed identity fails
    let ark = GeneralEvaluationDomain::<Fr>::new(N).unwrap();
    let x = ark.element(2);
    let numerator = eval_poly(&wl, x) * eval_poly(&wr, x) - eval_poly(&wo, x);
    assert_ne!(numerator, Fr::zero());
    let vanishing = x.pow([N as u64]) - Fr::one();
    assert_eq!(vanishing, Fr::zero());
    assert_ne!(numerator, eval_poly(&t, x) * vanishing);
}

#[test]
fn accumulator_boundary_shows_in_the_quotient() {
    let domain = Domain::new(N).unwrap();
    let pk = multiplication_key(&domain);
    let (a, b, c, d) = witness_columns();
    let wl = domain.inverse_transform(&a);
    let wr = domain.inverse_transform(&b);
    let wo = domain.inverse_transform(&c);
    let w4 = domain.inverse_transform(&d);
    // an accumulator that does not start at one trips the scaled
    // first-Lagrange boundary term
    let z_good = constant_poly(Fr::one());
    let z_bad = constant_poly(Fr::from(2u64));
    let t_good = run_compute(&domain, &pk, &wl, &wr, &wo, &w4, &z_good);
    let t_bad = run_compute(&domain, &pk, &wl, &wr, &wo, &w4, &z_bad);
    assert_ne!(t_good, t_bad);
}

#[test]
fn quotient_computation_is_deterministic() {
    let domain = Domain::new(N).unwrap();
    let pk = multiplication_key(&domain);
    let (a, b, c, d) = witness_columns();
    let wl = domain.inverse_transform(&a);
    let wr = domain.inverse_transform(&b);
    let wo = domain.inverse_transform(&c);
    let w4 = domain.inverse_transform(&d);
    let z = constant_poly(Fr::one());
    let t1 = run_compute(&domain, &pk, &wl, &wr, &wo, &w4, &z);
    let t2 = run_compute(&domain, &pk, &wl, &wr, &wo, &w4, &z);
    assert_eq!(t1, t2);
}

#[test]
fn permutation_term_cancels_on_the_identity_permutation() {
    let (a, b, c, d) = (Fr::from(2u64), Fr::from(3u64), Fr::from(5u64), Fr::from(7u64));
    let x = Fr::from(9u64);
    let (alpha, beta, gamma) = (Fr::from(3u64), Fr::from(5u64), Fr::from(7u64));
    let l1_alpha_sq = Fr::from(41u64);
    let z = Fr::one();
    // sigma equal to the identity position makes both products cancel, and
    // z = 1 silences the boundary: the whole term vanishes
    let r = permutation_term(
        a,
        b,
        c,
        d,
        z,
        z,
        x,
        Fr::from(K1) * x,
        Fr::from(K2) * x,
        Fr::from(K3) * x,
        x,
        alpha,
        l1_alpha_sq,
        beta,
        gamma,
    );
    assert_eq!(r, Fr::zero());
    // an accumulator away from one leaves exactly the boundary term
    let z2 = Fr::from(2u64);
    let r2 = permutation_term(
        a,
        b,
        c,
        d,
        z2,
        z2,
        x,
        Fr::from(K1) * x,
        Fr::from(K2) * x,
        Fr::from(K3) * x,
        x,
        alpha,
        l1_alpha_sq,
        beta,
        gamma,
    );
    assert_eq!(r2, (z2 - Fr::one()) * l1_alpha_sq);
}

#[test]
fn compiled_key_holds_the_vanishing_evaluations_and_inverses() {
    let domain = Domain::new(N).unwrap();
    let pk = multiplication_key(&domain);
    let ark4n = GeneralEvaluationDomain::<Fr>::new(4 * N).unwrap();
    let mut v_h = vec![Fr::zero(); N + 1];
    v_h[0] = -Fr::one();
    v_h[N] = Fr::one();
    let expected = ark4n.coset_fft(&v_h);
    assert_eq!(pk.v_h_evals, expected);
    assert_eq!(pk.v_h_evals.len(), 4 * N);
    for i in 0..4 * N {
        assert_eq!(pk.v_h_evals[i] * pk.v_h_inv_evals[i], Fr::one());
    }
}

#[test]
fn lookup_flag_changes_the_quotient_only_when_enabled() {
    let domain = Domain::new(N).unwrap();
    let pk = multiplication_key(&domain);
    let arithmetic = ArithmeticSelectors {
        q_m: constant_poly(Fr::one()),
        q_l: zeros(),
        q_r: zeros(),
        q_o: constant_poly(-Fr::one()),
        q_4: zeros(),
        q_c: zeros(),
    };
    let gates = GateSelectors {
        range: zeros(),
        logic: zeros(),
        fixed_base: zeros(),
        variable_base: zeros(),
        lookup: constant_poly(Fr::one()),
    };
    let mut left = zeros();
    left[1] = Fr::one();
    let mut right = zeros();
    right[1] = Fr::from(K1);
    let mut out = zeros();
    out[1] = Fr::from(K2);
    let mut fourth = zeros();
    fourth[1] = Fr::from(K3);
    let sigmas = SigmaPolynomials { left, right, out, fourth };
    let curve = CurveParams { coeff_a: -Fr::one(), coeff_d: Fr::from(5u64) };
    let pk_lookup = ProverKey::compile(&domain, arithmetic, gates, sigmas, curve, true).unwrap();

    let (a, b, c, d) = witness_columns();
    let wl = domain.inverse_transform(&a);
    let wr = domain.inverse_transform(&b);
    let wo = domain.inverse_transform(&c);
    let w4 = domain.inverse_transform(&d);
    let z = constant_poly(Fr::one());
    let t_off = run_compute(&domain, &pk, &wl, &wr, &wo, &w4, &z);
    let t_on = run_compute(&domain, &pk_lookup, &wl, &wr, &wo, &w4, &z);
    assert_ne!(t_off, t_on);
}
