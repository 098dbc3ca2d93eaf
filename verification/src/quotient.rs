//! The quotient-polynomial engine.
//!
//! Over the coset of the four-fold extended domain it sums, pointwise, the
//! gate-constraint total of every family and the permutation-argument total,
//! divides by the vanishing polynomial's evaluation at the same point, and
//! transforms the result back to coefficient form.  Rotation by one base
//! domain step is emulated by wrapping the first four extended evaluations
//! to the end of each array that a "next row" gate reads.

use vstd::prelude::*;

use ark_bls12_381::Fr;

use crate::domain::{
    pad_zeros, spec_coset_fft, spec_coset_ifft, spec_fft, spec_ifft, Domain, TWO_ADICITY,
};
use crate::field::{fr_add, fr_mul, fr_of, fr_square, spec_fr_add, spec_fr_from, spec_fr_mul};
use crate::gates::{
    arithmetic_term, curve_add_term, fixed_base_term, logic_term, lookup_term, range_term,
    spec_arithmetic_term, spec_curve_add_term, spec_fixed_base_term, spec_logic_term,
    spec_lookup_term, spec_range_term, WitnessValues,
};
use crate::permutation::{
    lookup_permutation_term, permutation_term, spec_lookup_permutation_term, spec_permutation_term,
};
use crate::proving_key::ProverKey;
use crate::Error;

verus! {

/// Evaluations of the scaled first Lagrange polynomial: `s` at the first
/// domain point, zero at every other.
pub open spec fn spec_first_lagrange_evals(n: nat, s: Fr) -> Seq<Fr> {
    Seq::new(
        n,
        |i: int|
            if i == 0 {
                s
            } else {
                spec_fr_from(0)
            },
    )
}

/// Coefficients of the first Lagrange polynomial of `domain`, scaled by
/// `scale`.  The last clause pins its values over the domain itself: `scale`
/// at the first point and zero at every other point.
#[verifier::loop_isolation(false)]
pub fn compute_first_lagrange_poly_scaled(domain: &Domain, scale: Fr) -> (r: Vec<Fr>)
    requires
        domain.wf(),
    ensures
        r@ == spec_ifft(domain.size as nat, spec_first_lagrange_evals(domain.size as nat, scale)),
        r@.len() == domain.size,
        spec_fft(domain.size as nat, r@) == spec_first_lagrange_evals(domain.size as nat, scale),
{
    proof {
        vstd::arithmetic::power2::lemma_pow2_pos(domain.log_size as nat);
    }
    let n = domain.size;
    let mut evals: Vec<Fr> = Vec::new();
    evals.push(scale);
    let mut i: usize = 1;
    while i < n
        invariant
            1 <= i <= n,
            evals@.len() == i,
            evals@[0] == scale,
            forall|j: int| 1 <= j < i ==> #[trigger] evals@[j] == spec_fr_from(0),
        decreases n - i,
    {
        evals.push(fr_of(0));
        i = i + 1;
    }
    proof {
        assert(evals@ =~= spec_first_lagrange_evals(n as nat, scale));
    }
    let r = domain.inverse_transform(&evals);
    proof {
        assert(pad_zeros(evals@, n as nat) =~= evals@);
    }
    r
}

/// `s` followed by its own first four entries.
pub open spec fn spec_rotated(s: Seq<Fr>) -> Seq<Fr> {
    s + s.subrange(0, 4)
}

/// Coset evaluations of `poly` over the extended domain, wrapped by four
/// entries: one step of the base domain is four extended steps, so index
/// `i + 4` reads the next row's value at extended point `i` without a
/// second transform.
pub fn coset_evals_rotated(ext: &Domain, poly: &Vec<Fr>) -> (r: Vec<Fr>)
    requires
        ext.wf(),
        poly@.len() <= ext.size,
        ext.size >= 4,
    ensures
        r@ == spec_rotated(spec_coset_fft(ext.size as nat, poly@)),
        r@.len() == ext.size + 4,
{
    let mut evals = ext.coset_transform(poly);
    let e0 = evals[0];
    let e1 = evals[1];
    let e2 = evals[2];
    let e3 = evals[3];
    evals.push(e0);
    evals.push(e1);
    evals.push(e2);
    evals.push(e3);
    proof {
        assert(evals@ =~= spec_rotated(spec_coset_fft(ext.size as nat, poly@)));
    }
    evals
}

/// The total gate-constraint value at extended point `i`: the arithmetic
/// gate plus the public-input value, then each special family weighted by
/// its own challenge; the lookup query term joins only when the key enables
/// the lookup argument.
pub open spec fn spec_gate_total(
    pk: ProverKey,
    wl: Seq<Fr>,
    wr: Seq<Fr>,
    wo: Seq<Fr>,
    w4: Seq<Fr>,
    pi_ext: Seq<Fr>,
    f: Seq<Fr>,
    range_challenge: Fr,
    logic_challenge: Fr,
    fixed_base_challenge: Fr,
    var_base_challenge: Fr,
    lookup_challenge: Fr,
    zeta: Fr,
    i: int,
) -> Fr {
    let wv = WitnessValues { a: wl[i], b: wr[i], c: wo[i], d: w4[i] };
    let arith = spec_arithmetic_term(
        pk.q_m_evals@[i],
        pk.q_l_evals@[i],
        pk.q_r_evals@[i],
        pk.q_o_evals@[i],
        pk.q_4_evals@[i],
        pk.q_c_evals@[i],
        wv,
    );
    let range = spec_range_term(pk.range_evals@[i], range_challenge, wv, w4[i + 4]);
    let logic = spec_logic_term(
        pk.logic_evals@[i],
        logic_challenge,
        wv,
        wl[i + 4],
        wr[i + 4],
        w4[i + 4],
        pk.q_c_evals@[i],
    );
    let fixed = spec_fixed_base_term(
        pk.fixed_base_evals@[i],
        fixed_base_challenge,
        wv,
        wl[i + 4],
        wr[i + 4],
        w4[i + 4],
        pk.q_l_evals@[i],
        pk.q_r_evals@[i],
        pk.q_c_evals@[i],
        pk.curve,
    );
    let curve_add = spec_curve_add_term(
        pk.variable_base_evals@[i],
        var_base_challenge,
        wv,
        wl[i + 4],
        wr[i + 4],
        w4[i + 4],
        pk.curve,
    );
    let base = spec_fr_add(
        spec_fr_add(
            spec_fr_add(spec_fr_add(spec_fr_add(arith, pi_ext[i]), range), logic),
            fixed,
        ),
        curve_add,
    );
    if pk.lookup_enabled {
        spec_fr_add(base, spec_lookup_term(pk.lookup_evals@[i], lookup_challenge, wv, f[i], zeta))
    } else {
        base
    }
}

/// Pointwise gate-constraint totals over the extended coset.
#[verifier::loop_isolation(false)]
pub fn compute_gate_constraint_satisfiability(
    domain: &Domain,
    range_challenge: Fr,
    logic_challenge: Fr,
    fixed_base_challenge: Fr,
    var_base_challenge: Fr,
    lookup_challenge: Fr,
    prover_key: &ProverKey,
    wl_eval_4n: &Vec<Fr>,
    wr_eval_4n: &Vec<Fr>,
    wo_eval_4n: &Vec<Fr>,
    w4_eval_4n: &Vec<Fr>,
    pi_poly: &Vec<Fr>,
    f_eval_4n: &Vec<Fr>,
    zeta: Fr,
) -> (r: Result<Vec<Fr>, Error>)
    requires
        domain.wf(),
        prover_key.wf(),
        prover_key.n == domain.size,
        wl_eval_4n@.len() == 4 * domain.size as nat + 4,
        wr_eval_4n@.len() == 4 * domain.size as nat + 4,
        wo_eval_4n@.len() == 4 * domain.size as nat,
        w4_eval_4n@.len() == 4 * domain.size as nat + 4,
        pi_poly@.len() <= 4 * domain.size as nat,
        f_eval_4n@.len() == 4 * domain.size as nat,
    ensures
        r matches Ok(v) ==> v@.len() == 4 * domain.size as nat && (forall|i: int|
            0 <= i < 4 * domain.size as nat ==> #[trigger] v@[i] == spec_gate_total(
                *prover_key,
                wl_eval_4n@,
                wr_eval_4n@,
                wo_eval_4n@,
                w4_eval_4n@,
                spec_coset_fft(4 * domain.size as nat, pi_poly@),
                f_eval_4n@,
                range_challenge,
                logic_challenge,
                fixed_base_challenge,
                var_base_challenge,
                lookup_challenge,
                zeta,
                i,
            )),
        r is Ok <==> domain.spec_extendable_4x(),
        r matches Err(e) ==> e == (Error::InvalidEvalDomainSize {
            log_size_of_group: (domain.log_size + 2) as u32,
            adicity: TWO_ADICITY,
        }),
{
    let ext = match domain.extend_4x() {
        Ok(d) => d,
        Err(e) => {
            return Err(e);
        },
    };
    let pi_eval_4n = ext.coset_transform(pi_poly);
    let n4 = ext.size;
    let mut out: Vec<Fr> = Vec::new();
    let mut i: usize = 0;
    while i < n4
        invariant
            0 <= i <= n4,
            out@.len() == i,
            forall|j: int|
                0 <= j < i ==> #[trigger] out@[j] == spec_gate_total(
                    *prover_key,
                    wl_eval_4n@,
                    wr_eval_4n@,
                    wo_eval_4n@,
                    w4_eval_4n@,
                    pi_eval_4n@,
                    f_eval_4n@,
                    range_challenge,
                    logic_challenge,
                    fixed_base_challenge,
                    var_base_challenge,
                    lookup_challenge,
                    zeta,
                    j,
                ),
        decreases n4 - i,
    {
        let wv = WitnessValues {
            a: wl_eval_4n[i],
            b: wr_eval_4n[i],
            c: wo_eval_4n[i],
            d: w4_eval_4n[i],
        };
        let arith = arithmetic_term(
            prover_key.q_m_evals[i],
            prover_key.q_l_evals[i],
            prover_key.q_r_evals[i],
            prover_key.q_o_evals[i],
            prover_key.q_4_evals[i],
            prover_key.q_c_evals[i],
            wv,
        );
        let range = range_term(prover_key.range_evals[i], range_challenge, wv, w4_eval_4n[i + 4]);
        let logic = logic_term(
            prover_key.logic_evals[i],
            logic_challenge,
            wv,
            wl_eval_4n[i + 4],
            wr_eval_4n[i + 4],
            w4_eval_4n[i + 4],
            prover_key.q_c_evals[i],
        );
        let fixed = fixed_base_term(
            prover_key.fixed_base_evals[i],
            fixed_base_challenge,
            wv,
            wl_eval_4n[i + 4],
            wr_eval_4n[i + 4],
            w4_eval_4n[i + 4],
            prover_key.q_l_evals[i],
            prover_key.q_r_evals[i],
            prover_key.q_c_evals[i],
            prover_key.curve,
        );
        let curve_add = curve_add_term(
            prover_key.variable_base_evals[i],
            var_base_challenge,
            wv,
            wl_eval_4n[i + 4],
            wr_eval_4n[i + 4],
            w4_eval_4n[i + 4],
            prover_key.curve,
        );
        let base = fr_add(fr_add(fr_add(fr_add(fr_add(arith, pi_eval_4n[i]), range), logic), fixed), curve_add);
        let total = if prover_key.lookup_enabled {
            fr_add(
                base,
                lookup_term(prover_key.lookup_evals[i], lookup_challenge, wv, f_eval_4n[i], zeta),
            )
        } else {
            base
        };
        out.push(total);
        i = i + 1;
    }
    Ok(out)
}

/// The permutation-argument value at extended point `i`: the copy-constraint
/// grand-product difference with its boundary term, and — when the lookup
/// argument is enabled — the second accumulator's difference and boundary,
/// each boundary pinned by the scaled first Lagrange polynomial.
pub open spec fn spec_perm_total(
    pk: ProverKey,
    wl: Seq<Fr>,
    wr: Seq<Fr>,
    wo: Seq<Fr>,
    w4: Seq<Fr>,
    z: Seq<Fr>,
    z2: Seq<Fr>,
    f: Seq<Fr>,
    t: Seq<Fr>,
    h1: Seq<Fr>,
    h2: Seq<Fr>,
    alpha: Fr,
    beta: Fr,
    gamma: Fr,
    delta: Fr,
    epsilon: Fr,
    i: int,
) -> Fr {
    let n = pk.n as nat;
    let alpha_sq = spec_fr_mul(alpha, alpha);
    let l1_sq = spec_coset_fft(4 * n, spec_ifft(n, spec_first_lagrange_evals(n, alpha_sq)));
    let base = spec_permutation_term(
        wl[i],
        wr[i],
        wo[i],
        w4[i],
        z[i],
        z[i + 4],
        pk.sigma_l_evals@[i],
        pk.sigma_r_evals@[i],
        pk.sigma_o_evals@[i],
        pk.sigma_4_evals@[i],
        pk.linear_evals@[i],
        alpha,
        l1_sq[i],
        beta,
        gamma,
    );
    if pk.lookup_enabled {
        let alpha_4 = spec_fr_mul(alpha_sq, alpha_sq);
        let alpha_5 = spec_fr_mul(alpha_4, alpha);
        let l1_5 = spec_coset_fft(4 * n, spec_ifft(n, spec_first_lagrange_evals(n, alpha_5)));
        spec_fr_add(
            base,
            spec_lookup_permutation_term(
                z2[i],
                z2[i + 4],
                f[i],
                t[i],
                t[i + 4],
                h1[i],
                h1[i + 4],
                h2[i],
                delta,
                epsilon,
                alpha_4,
                l1_5[i],
            ),
        )
    } else {
        base
    }
}

/// Pointwise permutation-argument totals over the extended coset.
#[verifier::loop_isolation(false)]
pub fn compute_permutation_checks(
    domain: &Domain,
    prover_key: &ProverKey,
    wl_eval_4n: &Vec<Fr>,
    wr_eval_4n: &Vec<Fr>,
    wo_eval_4n: &Vec<Fr>,
    w4_eval_4n: &Vec<Fr>,
    z_eval_4n: &Vec<Fr>,
    z2_eval_4n: &Vec<Fr>,
    f_eval_4n: &Vec<Fr>,
    t_eval_4n: &Vec<Fr>,
    h1_eval_4n: &Vec<Fr>,
    h2_eval_4n: &Vec<Fr>,
    alpha: Fr,
    beta: Fr,
    gamma: Fr,
    delta: Fr,
    epsilon: Fr,
) -> (r: Result<Vec<Fr>, Error>)
    requires
        domain.wf(),
        prover_key.wf(),
        prover_key.n == domain.size,
        wl_eval_4n@.len() == 4 * domain.size as nat + 4,
        wr_eval_4n@.len() == 4 * domain.size as nat + 4,
        wo_eval_4n@.len() == 4 * domain.size as nat,
        w4_eval_4n@.len() == 4 * domain.size as nat + 4,
        z_eval_4n@.len() == 4 * domain.size as nat + 4,
        z2_eval_4n@.len() == 4 * domain.size as nat + 4,
        f_eval_4n@.len() == 4 * domain.size as nat,
        t_eval_4n@.len() == 4 * domain.size as nat + 4,
        h1_eval_4n@.len() == 4 * domain.size as nat + 4,
        h2_eval_4n@.len() == 4 * domain.size as nat,
    ensures
        r matches Ok(v) ==> v@.len() == 4 * domain.size as nat && (forall|i: int|
            0 <= i < 4 * domain.size as nat ==> #[trigger] v@[i] == spec_perm_total(
                *prover_key,
                wl_eval_4n@,
                wr_eval_4n@,
                wo_eval_4n@,
                w4_eval_4n@,
                z_eval_4n@,
                z2_eval_4n@,
                f_eval_4n@,
                t_eval_4n@,
                h1_eval_4n@,
                h2_eval_4n@,
                alpha,
                beta,
                gamma,
                delta,
                epsilon,
                i,
            )),
        r is Ok <==> domain.spec_extendable_4x(),
        r matches Err(e) ==> e == (Error::InvalidEvalDomainSize {
            log_size_of_group: (domain.log_size + 2) as u32,
            adicity: TWO_ADICITY,
        }),
{
    let ext = match domain.extend_4x() {
        Ok(d) => d,
        Err(e) => {
            return Err(e);
        },
    };
    proof {
        vstd::arithmetic::power2::lemma_pow2_pos(domain.log_size as nat);
    }
    let alpha_sq = fr_square(alpha);
    let l1_poly = compute_first_lagrange_poly_scaled(domain, alpha_sq);
    let l1_sq_evals = ext.coset_transform(&l1_poly);
    let lookup_data: Option<(Fr, Vec<Fr>)> = if prover_key.lookup_enabled {
        let alpha_4 = fr_square(alpha_sq);
        let alpha_5 = fr_mul(alpha_4, alpha);
        let l1_5_poly = compute_first_lagrange_poly_scaled(domain, alpha_5);
        Some((alpha_4, ext.coset_transform(&l1_5_poly)))
    } else {
        None
    };
    let n4 = ext.size;
    let mut out: Vec<Fr> = Vec::new();
    let mut i: usize = 0;
    while i < n4
        invariant
            0 <= i <= n4,
            out@.len() == i,
            forall|j: int|
                0 <= j < i ==> #[trigger] out@[j] == spec_perm_total(
                    *prover_key,
                    wl_eval_4n@,
                    wr_eval_4n@,
                    wo_eval_4n@,
                    w4_eval_4n@,
                    z_eval_4n@,
                    z2_eval_4n@,
                    f_eval_4n@,
                    t_eval_4n@,
                    h1_eval_4n@,
                    h2_eval_4n@,
                    alpha,
                    beta,
                    gamma,
                    delta,
                    epsilon,
                    j,
                ),
        decreases n4 - i,
    {
        let base = permutation_term(
            wl_eval_4n[i],
            wr_eval_4n[i],
            wo_eval_4n[i],
            w4_eval_4n[i],
            z_eval_4n[i],
            z_eval_4n[i + 4],
            prover_key.sigma_l_evals[i],
            prover_key.sigma_r_evals[i],
            prover_key.sigma_o_evals[i],
            prover_key.sigma_4_evals[i],
            prover_key.linear_evals[i],
            alpha,
            l1_sq_evals[i],
            beta,
            gamma,
        );
        let total = match &lookup_data {
            Some((alpha_4, l1_5_evals)) => fr_add(
                base,
                lookup_permutation_term(
                    z2_eval_4n[i],
                    z2_eval_4n[i + 4],
                    f_eval_4n[i],
                    t_eval_4n[i],
                    t_eval_4n[i + 4],
                    h1_eval_4n[i],
                    h1_eval_4n[i + 4],
                    h2_eval_4n[i],
                    delta,
                    epsilon,
                    *alpha_4,
                    l1_5_evals[i],
                ),
            ),
            None => base,
        };
        out.push(total);
        i = i + 1;
    }
    Ok(out)
}

/// The quotient's evaluations over the extended coset: gate total plus
/// permutation total, divided by the vanishing polynomial's value there.
pub open spec fn spec_quotient_evals(
    pk: ProverKey,
    wl: Seq<Fr>,
    wr: Seq<Fr>,
    wo: Seq<Fr>,
    w4: Seq<Fr>,
    z: Seq<Fr>,
    z2: Seq<Fr>,
    pi_ext: Seq<Fr>,
    f: Seq<Fr>,
    t: Seq<Fr>,
    h1: Seq<Fr>,
    h2: Seq<Fr>,
    alpha: Fr,
    beta: Fr,
    gamma: Fr,
    delta: Fr,
    epsilon: Fr,
    zeta: Fr,
    range_challenge: Fr,
    logic_challenge: Fr,
    fixed_base_challenge: Fr,
    var_base_challenge: Fr,
    lookup_challenge: Fr,
) -> Seq<Fr> {
    Seq::new(
        4 * pk.n as nat,
        |i: int|
            spec_fr_mul(
                spec_fr_add(
                    spec_gate_total(
                        pk,
                        wl,
                        wr,
                        wo,
                        w4,
                        pi_ext,
                        f,
                        range_challenge,
                        logic_challenge,
                        fixed_base_challenge,
                        var_base_challenge,
                        lookup_challenge,
                        zeta,
                        i,
                    ),
                    spec_perm_total(
                        pk,
                        wl,
                        wr,
                        wo,
                        w4,
                        z,
                        z2,
                        f,
                        t,
                        h1,
                        h2,
                        alpha,
                        beta,
                        gamma,
                        delta,
                        epsilon,
                        i,
                    ),
                ),
                pk.v_h_inv_evals@[i],
            ),
    )
}

/// Computes the quotient polynomial, in coefficient form, from the witness,
/// accumulator and lookup polynomials and the round challenges.
///
/// Every input polynomial is extended to the coset of the four-fold domain;
/// the ones whose constraints read the next row are wrapped by four entries;
/// the pointwise constraint totals are divided by the vanishing polynomial's
/// coset evaluations (through the key's precomputed inverses) and the result
/// transformed back.  The returned coefficients are a function of the inputs
/// alone: two calls on the same inputs return the same polynomial.
#[verifier::loop_isolation(false)]
pub fn compute(
    domain: &Domain,
    prover_key: &ProverKey,
    z_poly: &Vec<Fr>,
    z_2_poly: &Vec<Fr>,
    w_l_poly: &Vec<Fr>,
    w_r_poly: &Vec<Fr>,
    w_o_poly: &Vec<Fr>,
    w_4_poly: &Vec<Fr>,
    public_inputs_poly: &Vec<Fr>,
    f_poly: &Vec<Fr>,
    t_poly: &Vec<Fr>,
    h_1_poly: &Vec<Fr>,
    h_2_poly: &Vec<Fr>,
    alpha: &Fr,
    beta: &Fr,
    gamma: &Fr,
    delta: &Fr,
    epsilon: &Fr,
    zeta: &Fr,
    range_challenge: &Fr,
    logic_challenge: &Fr,
    fixed_base_challenge: &Fr,
    var_base_challenge: &Fr,
    lookup_challenge: &Fr,
) -> (r: Result<Vec<Fr>, Error>)
    requires
        domain.wf(),
        prover_key.wf(),
        prover_key.n == domain.size,
        z_poly@.len() <= 4 * domain.size as nat,
        z_2_poly@.len() <= 4 * domain.size as nat,
        w_l_poly@.len() <= 4 * domain.size as nat,
        w_r_poly@.len() <= 4 * domain.size as nat,
        w_o_poly@.len() <= 4 * domain.size as nat,
        w_4_poly@.len() <= 4 * domain.size as nat,
        public_inputs_poly@.len() <= 4 * domain.size as nat,
        f_poly@.len() <= 4 * domain.size as nat,
        t_poly@.len() <= 4 * domain.size as nat,
        h_1_poly@.len() <= 4 * domain.size as nat,
        h_2_poly@.len() <= 4 * domain.size as nat,
    ensures
        r matches Ok(q) ==> ({
            let n4 = 4 * domain.size as nat;
            let wl = spec_rotated(spec_coset_fft(n4, w_l_poly@));
            let wr = spec_rotated(spec_coset_fft(n4, w_r_poly@));
            let wo = spec_coset_fft(n4, w_o_poly@);
            let w4 = spec_rotated(spec_coset_fft(n4, w_4_poly@));
            let z = spec_rotated(spec_coset_fft(n4, z_poly@));
            let z2 = spec_rotated(spec_coset_fft(n4, z_2_poly@));
            let pi_ext = spec_coset_fft(n4, public_inputs_poly@);
            let f = spec_coset_fft(n4, f_poly@);
            let t = spec_rotated(spec_coset_fft(n4, t_poly@));
            let h1 = spec_rotated(spec_coset_fft(n4, h_1_poly@));
            let h2 = spec_coset_fft(n4, h_2_poly@);
            q@ == spec_coset_ifft(
                n4,
                spec_quotient_evals(
                    *prover_key,
                    wl,
                    wr,
                    wo,
                    w4,
                    z,
                    z2,
                    pi_ext,
                    f,
                    t,
                    h1,
                    h2,
                    *alpha,
                    *beta,
                    *gamma,
                    *delta,
                    *epsilon,
                    *zeta,
                    *range_challenge,
                    *logic_challenge,
                    *fixed_base_challenge,
                    *var_base_challenge,
                    *lookup_challenge,
                ),
            ) && q@.len() == n4
        }),
        r is Ok <==> domain.spec_extendable_4x(),
        r matches Err(e) ==> e == (Error::InvalidEvalDomainSize {
            log_size_of_group: (domain.log_size + 2) as u32,
            adicity: TWO_ADICITY,
        }),
{
    let ext = match domain.extend_4x() {
        Ok(d) => d,
        Err(e) => {
            return Err(e);
        },
    };
    proof {
        vstd::arithmetic::power2::lemma_pow2_pos(domain.log_size as nat);
    }
    let z_eval_4n = coset_evals_rotated(&ext, z_poly);
    let z2_eval_4n = coset_evals_rotated(&ext, z_2_poly);
    let wl_eval_4n = coset_evals_rotated(&ext, w_l_poly);
    let wr_eval_4n = coset_evals_rotated(&ext, w_r_poly);
    let wo_eval_4n = ext.coset_transform(w_o_poly);
    let w4_eval_4n = coset_evals_rotated(&ext, w_4_poly);
    let f_eval_4n = ext.coset_transform(f_poly);
    let t_eval_4n = coset_evals_rotated(&ext, t_poly);
    let h1_eval_4n = coset_evals_rotated(&ext, h_1_poly);
    let h2_eval_4n = ext.coset_transform(h_2_poly);

    let gate_constraints = match compute_gate_constraint_satisfiability(
        domain,
        *range_challenge,
        *logic_challenge,
        *fixed_base_challenge,
        *var_base_challenge,
        *lookup_challenge,
        prover_key,
        &wl_eval_4n,
        &wr_eval_4n,
        &wo_eval_4n,
        &w4_eval_4n,
        public_inputs_poly,
        &f_eval_4n,
        *zeta,
    ) {
        Ok(v) => v,
        Err(e) => {
            return Err(e);
        },
    };
    let permutation = match compute_permutation_checks(
        domain,
        prover_key,
        &wl_eval_4n,
        &wr_eval_4n,
        &wo_eval_4n,
        &w4_eval_4n,
        &z_eval_4n,
        &z2_eval_4n,
        &f_eval_4n,
        &t_eval_4n,
        &h1_eval_4n,
        &h2_eval_4n,
        *alpha,
        *beta,
        *gamma,
        *delta,
        *epsilon,
    ) {
        Ok(v) => v,
        Err(e) => {
            return Err(e);
        },
    };

    let n4 = ext.size;
    let mut quotient: Vec<Fr> = Vec::new();
    let mut i: usize = 0;
    while i < n4
        invariant
            0 <= i <= n4,
            quotient@.len() == i,
            forall|j: int|
                0 <= j < i ==> #[trigger] quotient@[j] == spec_fr_mul(
                    spec_fr_add(gate_constraints@[j], permutation@[j]),
                    prover_key.v_h_inv_evals@[j],
                ),
        decreases n4 - i,
    {
        let numerator = fr_add(gate_constraints[i], permutation[i]);
        quotient.push(fr_mul(numerator, prover_key.v_h_inv_evals[i]));
        i = i + 1;
    }
    proof {
        assert(quotient@ =~= spec_quotient_evals(
            *prover_key,
            wl_eval_4n@,
            wr_eval_4n@,
            wo_eval_4n@,
            w4_eval_4n@,
            z_eval_4n@,
            z2_eval_4n@,
            spec_coset_fft(4 * domain.size as nat, public_inputs_poly@),
            f_eval_4n@,
            t_eval_4n@,
            h1_eval_4n@,
            h2_eval_4n@,
            *alpha,
            *beta,
            *gamma,
            *delta,
            *epsilon,
            *zeta,
            *range_challenge,
            *logic_challenge,
            *fixed_base_challenge,
            *var_base_challenge,
            *lookup_challenge,
        ));
    }
    Ok(ext.coset_inverse_transform(&quotient))
}

} // verus!
