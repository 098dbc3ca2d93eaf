//! The grand-product permutation argument.
//!
//! Copy constraints — equalities between wire cells across the circuit —
//! are enforced by a running product: at each domain point the accumulator
//! `z` picks up the ratio of the "identity" factors `w + beta*k*x + gamma`
//! and the "copied" factors `w + beta*sigma(x) + gamma`.  The product
//! telescopes to one exactly when every claimed copy holds; the boundary is
//! pinned by a scaled first-Lagrange term.  A second accumulator `z2` plays
//! the same role for the lookup argument's sorted concatenation.

use vstd::prelude::*;

use ark_bls12_381::Fr;

use crate::field::{fr_add, fr_mul, fr_of, fr_sub, spec_fr_add, spec_fr_from, spec_fr_mul, spec_fr_sub};

verus! {

/// First coset multiplier: keeps the right-wire index range disjoint from
/// the left wires' inside one algebraic identity.
pub const K1: u64 = 7;

/// Second coset multiplier, for the output wires.
pub const K2: u64 = 13;

/// Third coset multiplier, for the fourth wires.
pub const K3: u64 = 17;

/// One factor of the grand product: `w + beta*v + gamma`, where `v` is the
/// cell's position (identity side) or its image under sigma (copy side).
pub open spec fn spec_factor(w: Fr, v: Fr, beta: Fr, gamma: Fr) -> Fr {
    spec_fr_add(spec_fr_add(w, spec_fr_mul(beta, v)), gamma)
}

pub fn factor(w: Fr, v: Fr, beta: Fr, gamma: Fr) -> (r: Fr)
    ensures
        r == spec_factor(w, v, beta, gamma),
{
    fr_add(fr_add(w, fr_mul(beta, v)), gamma)
}

/// The copy-constraint contribution at one extended-domain point:
/// `alpha * (z * identity-factors - z_next * sigma-factors)
///  + l1_alpha_sq * (z - 1)`,
/// where `x` is the point itself and `l1_alpha_sq` the first Lagrange
/// polynomial's value there scaled by `alpha^2`.
pub open spec fn spec_permutation_term(
    a: Fr,
    b: Fr,
    c: Fr,
    d: Fr,
    z: Fr,
    z_next: Fr,
    sigma_l: Fr,
    sigma_r: Fr,
    sigma_o: Fr,
    sigma_4: Fr,
    x: Fr,
    alpha: Fr,
    l1_alpha_sq: Fr,
    beta: Fr,
    gamma: Fr,
) -> Fr {
    let identity = spec_fr_mul(
        spec_fr_mul(
            spec_fr_mul(
                spec_fr_mul(
                    spec_fr_mul(z, spec_factor(a, x, beta, gamma)),
                    spec_factor(b, spec_fr_mul(spec_fr_from(K1), x), beta, gamma),
                ),
                spec_factor(c, spec_fr_mul(spec_fr_from(K2), x), beta, gamma),
            ),
            spec_factor(d, spec_fr_mul(spec_fr_from(K3), x), beta, gamma),
        ),
        alpha,
    );
    let copied = spec_fr_mul(
        spec_fr_mul(
            spec_fr_mul(
                spec_fr_mul(
                    spec_fr_mul(z_next, spec_factor(a, sigma_l, beta, gamma)),
                    spec_factor(b, sigma_r, beta, gamma),
                ),
                spec_factor(c, sigma_o, beta, gamma),
            ),
            spec_factor(d, sigma_4, beta, gamma),
        ),
        alpha,
    );
    let boundary = spec_fr_mul(spec_fr_sub(z, spec_fr_from(1)), l1_alpha_sq);
    spec_fr_add(spec_fr_sub(identity, copied), boundary)
}

pub fn permutation_term(
    a: Fr,
    b: Fr,
    c: Fr,
    d: Fr,
    z: Fr,
    z_next: Fr,
    sigma_l: Fr,
    sigma_r: Fr,
    sigma_o: Fr,
    sigma_4: Fr,
    x: Fr,
    alpha: Fr,
    l1_alpha_sq: Fr,
    beta: Fr,
    gamma: Fr,
) -> (r: Fr)
    ensures
        r == spec_permutation_term(
            a,
            b,
            c,
            d,
            z,
            z_next,
            sigma_l,
            sigma_r,
            sigma_o,
            sigma_4,
            x,
            alpha,
            l1_alpha_sq,
            beta,
            gamma,
        ),
{
    let identity = fr_mul(z, factor(a, x, beta, gamma));
    let identity = fr_mul(identity, factor(b, fr_mul(fr_of(K1), x), beta, gamma));
    let identity = fr_mul(identity, factor(c, fr_mul(fr_of(K2), x), beta, gamma));
    let identity = fr_mul(identity, factor(d, fr_mul(fr_of(K3), x), beta, gamma));
    let identity = fr_mul(identity, alpha);
    let copied = fr_mul(z_next, factor(a, sigma_l, beta, gamma));
    let copied = fr_mul(copied, factor(b, sigma_r, beta, gamma));
    let copied = fr_mul(copied, factor(c, sigma_o, beta, gamma));
    let copied = fr_mul(copied, factor(d, sigma_4, beta, gamma));
    let copied = fr_mul(copied, alpha);
    let boundary = fr_mul(fr_sub(z, fr_of(1)), l1_alpha_sq);
    fr_add(fr_sub(identity, copied), boundary)
}

/// The lookup accumulator's contribution at one extended-domain point:
/// `alpha_4 * (z2 * (1+delta) * (epsilon+f) * (epsilon*(1+delta) + t + delta*t_next)
///            - z2_next * (epsilon*(1+delta) + h1 + delta*h2)
///                      * (epsilon*(1+delta) + h2 + delta*h1_next))
///  + l1_alpha_5 * (z2 - 1)`,
/// with `f` the query column, `t` the table column and `h1`, `h2` the two
/// halves of the sorted concatenation.
pub open spec fn spec_lookup_permutation_term(
    z2: Fr,
    z2_next: Fr,
    f: Fr,
    t: Fr,
    t_next: Fr,
    h1: Fr,
    h1_next: Fr,
    h2: Fr,
    delta: Fr,
    epsilon: Fr,
    alpha_4: Fr,
    l1_alpha_5: Fr,
) -> Fr {
    let one_plus_delta = spec_fr_add(spec_fr_from(1), delta);
    let eps_od = spec_fr_mul(epsilon, one_plus_delta);
    let lhs = spec_fr_mul(
        spec_fr_mul(spec_fr_mul(z2, one_plus_delta), spec_fr_add(epsilon, f)),
        spec_fr_add(spec_fr_add(eps_od, t), spec_fr_mul(delta, t_next)),
    );
    let rhs = spec_fr_mul(
        spec_fr_mul(z2_next, spec_fr_add(spec_fr_add(eps_od, h1), spec_fr_mul(delta, h2))),
        spec_fr_add(spec_fr_add(eps_od, h2), spec_fr_mul(delta, h1_next)),
    );
    let boundary = spec_fr_mul(spec_fr_sub(z2, spec_fr_from(1)), l1_alpha_5);
    spec_fr_add(spec_fr_mul(spec_fr_sub(lhs, rhs), alpha_4), boundary)
}

pub fn lookup_permutation_term(
    z2: Fr,
    z2_next: Fr,
    f: Fr,
    t: Fr,
    t_next: Fr,
    h1: Fr,
    h1_next: Fr,
    h2: Fr,
    delta: Fr,
    epsilon: Fr,
    alpha_4: Fr,
    l1_alpha_5: Fr,
) -> (r: Fr)
    ensures
        r == spec_lookup_permutation_term(
            z2,
            z2_next,
            f,
            t,
            t_next,
            h1,
            h1_next,
            h2,
            delta,
            epsilon,
            alpha_4,
            l1_alpha_5,
        ),
{
    let one_plus_delta = fr_add(fr_of(1), delta);
    let eps_od = fr_mul(epsilon, one_plus_delta);
    let lhs = fr_mul(
        fr_mul(fr_mul(z2, one_plus_delta), fr_add(epsilon, f)),
        fr_add(fr_add(eps_od, t), fr_mul(delta, t_next)),
    );
    let rhs = fr_mul(
        fr_mul(z2_next, fr_add(fr_add(eps_od, h1), fr_mul(delta, h2))),
        fr_add(fr_add(eps_od, h2), fr_mul(delta, h1_next)),
    );
    let boundary = fr_mul(fr_sub(z2, fr_of(1)), l1_alpha_5);
    fr_add(fr_mul(fr_sub(lhs, rhs), alpha_4), boundary)
}

} // verus!
