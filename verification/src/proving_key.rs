//! The compiled, immutable prover key.
//!
//! Compilation takes the circuit's selector and permutation polynomials in
//! coefficient form and extends each to evaluation form over the coset of
//! the four-fold extended domain, where the quotient engine consumes them
//! pointwise.  It also precomputes the vanishing polynomial's evaluations on
//! that coset together with their inverses; the coset is disjoint from the
//! domain, so a zero evaluation there is an engine invariant violation and
//! aborts key construction.

use vstd::prelude::*;

use ark_bls12_381::Fr;

use crate::domain::{spec_coset_fft, Domain};
use crate::field::{fr_inverse, fr_of, fr_sub, spec_fr_from, spec_fr_inv, spec_fr_sub};
use crate::gates::CurveParams;
use crate::Error;

verus! {

/// Selector polynomials of the plain-arithmetic gate, coefficient form.
pub struct ArithmeticSelectors {
    pub q_m: Vec<Fr>,
    pub q_l: Vec<Fr>,
    pub q_r: Vec<Fr>,
    pub q_o: Vec<Fr>,
    pub q_4: Vec<Fr>,
    pub q_c: Vec<Fr>,
}

/// Activation selectors of the special gate families, coefficient form.
pub struct GateSelectors {
    pub range: Vec<Fr>,
    pub logic: Vec<Fr>,
    pub fixed_base: Vec<Fr>,
    pub variable_base: Vec<Fr>,
    pub lookup: Vec<Fr>,
}

/// The four sigma polynomials of the copy-constraint permutation,
/// coefficient form.
pub struct SigmaPolynomials {
    pub left: Vec<Fr>,
    pub right: Vec<Fr>,
    pub out: Vec<Fr>,
    pub fourth: Vec<Fr>,
}

/// Coefficients of the vanishing polynomial `X^n - 1` of an order-`n`
/// domain.
pub open spec fn spec_vanishing_coeffs(n: nat) -> Seq<Fr> {
    Seq::new(
        n + 1,
        |i: int|
            if i == 0 {
                spec_fr_sub(spec_fr_from(0), spec_fr_from(1))
            } else if i == n {
                spec_fr_from(1)
            } else {
                spec_fr_from(0)
            },
    )
}

/// Coefficients of the identity polynomial `X`, whose coset evaluations
/// give each extended-domain point its own position value.
pub open spec fn spec_linear_coeffs() -> Seq<Fr> {
    seq![spec_fr_from(0), spec_fr_from(1)]
}

/// The compiled key: every column in evaluation form over the coset of the
/// four-fold extended domain, each of length `4*n`.
pub struct ProverKey {
    /// Order of the base domain.
    pub n: usize,
    pub q_m_evals: Vec<Fr>,
    pub q_l_evals: Vec<Fr>,
    pub q_r_evals: Vec<Fr>,
    pub q_o_evals: Vec<Fr>,
    pub q_4_evals: Vec<Fr>,
    pub q_c_evals: Vec<Fr>,
    pub range_evals: Vec<Fr>,
    pub logic_evals: Vec<Fr>,
    pub fixed_base_evals: Vec<Fr>,
    pub variable_base_evals: Vec<Fr>,
    pub lookup_evals: Vec<Fr>,
    pub sigma_l_evals: Vec<Fr>,
    pub sigma_r_evals: Vec<Fr>,
    pub sigma_o_evals: Vec<Fr>,
    pub sigma_4_evals: Vec<Fr>,
    /// Evaluations of the identity polynomial `X` over the extended coset.
    pub linear_evals: Vec<Fr>,
    /// Evaluations of the vanishing polynomial over the extended coset.
    pub v_h_evals: Vec<Fr>,
    /// Their multiplicative inverses, the quotient engine's divisors.
    pub v_h_inv_evals: Vec<Fr>,
    /// Twisted-Edwards coefficients of the embedded curve.
    pub curve: CurveParams,
    /// Whether the lookup argument contributes to the quotient.
    pub lookup_enabled: bool,
}

impl ProverKey {
    /// Structural well-formedness: every evaluation column spans the
    /// four-fold extended domain.
    pub open spec fn wf(&self) -> bool {
        &&& self.n >= 1
        &&& 4 * self.n <= usize::MAX
        &&& self.q_m_evals@.len() == 4 * self.n
        &&& self.q_l_evals@.len() == 4 * self.n
        &&& self.q_r_evals@.len() == 4 * self.n
        &&& self.q_o_evals@.len() == 4 * self.n
        &&& self.q_4_evals@.len() == 4 * self.n
        &&& self.q_c_evals@.len() == 4 * self.n
        &&& self.range_evals@.len() == 4 * self.n
        &&& self.logic_evals@.len() == 4 * self.n
        &&& self.fixed_base_evals@.len() == 4 * self.n
        &&& self.variable_base_evals@.len() == 4 * self.n
        &&& self.lookup_evals@.len() == 4 * self.n
        &&& self.sigma_l_evals@.len() == 4 * self.n
        &&& self.sigma_r_evals@.len() == 4 * self.n
        &&& self.sigma_o_evals@.len() == 4 * self.n
        &&& self.sigma_4_evals@.len() == 4 * self.n
        &&& self.linear_evals@.len() == 4 * self.n
        &&& self.v_h_evals@.len() == 4 * self.n
        &&& self.v_h_inv_evals@.len() == 4 * self.n
    }

    /// Compiles the key for a circuit over `domain` from its selector and
    /// sigma polynomials (each a length-`n` coefficient vector).
    ///
    /// Fails when the four-fold extended domain exceeds the field's
    /// two-adicity, or when a vanishing-polynomial evaluation on the coset
    /// is zero — the latter cannot arise from a coset disjoint from the
    /// domain and signals a broken invariant.
    #[verifier::loop_isolation(false)]
    pub fn compile(
        domain: &Domain,
        arithmetic: ArithmeticSelectors,
        gates: GateSelectors,
        sigmas: SigmaPolynomials,
        curve: CurveParams,
        lookup_enabled: bool,
    ) -> (r: Result<ProverKey, Error>)
        requires
            domain.wf(),
            arithmetic.q_m@.len() == domain.size,
            arithmetic.q_l@.len() == domain.size,
            arithmetic.q_r@.len() == domain.size,
            arithmetic.q_o@.len() == domain.size,
            arithmetic.q_4@.len() == domain.size,
            arithmetic.q_c@.len() == domain.size,
            gates.range@.len() == domain.size,
            gates.logic@.len() == domain.size,
            gates.fixed_base@.len() == domain.size,
            gates.variable_base@.len() == domain.size,
            gates.lookup@.len() == domain.size,
            sigmas.left@.len() == domain.size,
            sigmas.right@.len() == domain.size,
            sigmas.out@.len() == domain.size,
            sigmas.fourth@.len() == domain.size,
        ensures
            r matches Ok(pk) ==> ({
                let n4 = 4 * domain.size as nat;
                &&& pk.wf()
                &&& pk.n == domain.size
                &&& pk.curve == curve
                &&& pk.lookup_enabled == lookup_enabled
                &&& pk.q_m_evals@ == spec_coset_fft(n4, arithmetic.q_m@)
                &&& pk.q_l_evals@ == spec_coset_fft(n4, arithmetic.q_l@)
                &&& pk.q_r_evals@ == spec_coset_fft(n4, arithmetic.q_r@)
                &&& pk.q_o_evals@ == spec_coset_fft(n4, arithmetic.q_o@)
                &&& pk.q_4_evals@ == spec_coset_fft(n4, arithmetic.q_4@)
                &&& pk.q_c_evals@ == spec_coset_fft(n4, arithmetic.q_c@)
                &&& pk.range_evals@ == spec_coset_fft(n4, gates.range@)
                &&& pk.logic_evals@ == spec_coset_fft(n4, gates.logic@)
                &&& pk.fixed_base_evals@ == spec_coset_fft(n4, gates.fixed_base@)
                &&& pk.variable_base_evals@ == spec_coset_fft(n4, gates.variable_base@)
                &&& pk.lookup_evals@ == spec_coset_fft(n4, gates.lookup@)
                &&& pk.sigma_l_evals@ == spec_coset_fft(n4, sigmas.left@)
                &&& pk.sigma_r_evals@ == spec_coset_fft(n4, sigmas.right@)
                &&& pk.sigma_o_evals@ == spec_coset_fft(n4, sigmas.out@)
                &&& pk.sigma_4_evals@ == spec_coset_fft(n4, sigmas.fourth@)
                &&& pk.linear_evals@ == spec_coset_fft(n4, spec_linear_coeffs())
                &&& pk.v_h_evals@ == spec_coset_fft(n4, spec_vanishing_coeffs(domain.size as nat))
                &&& forall|i: int|
                    0 <= i < n4 ==> #[trigger] pk.v_h_inv_evals@[i] == spec_fr_inv(pk.v_h_evals@[i])
                &&& forall|i: int| 0 <= i < n4 ==> #[trigger] pk.v_h_evals@[i] != spec_fr_from(0)
            }),
            !domain.spec_extendable_4x() ==> (r matches Err(e) && e == (
            Error::InvalidEvalDomainSize {
                log_size_of_group: (domain.log_size + 2) as u32,
                adicity: crate::domain::TWO_ADICITY,
            })),
            domain.spec_extendable_4x() ==> (r is Ok <==> forall|i: int|
                0 <= i < 4 * domain.size as nat ==> #[trigger] spec_coset_fft(
                    4 * domain.size as nat,
                    spec_vanishing_coeffs(domain.size as nat),
                )[i] != spec_fr_from(0)),
            domain.spec_extendable_4x() && r is Err ==> (r matches Err(e) && e
                == Error::ZeroVanishingEvaluation),
    {
        let ext = match domain.extend_4x() {
            Ok(d) => d,
            Err(e) => {
                return Err(e);
            },
        };
        let n = domain.size;
        let n4 = ext.size;
        proof {
            vstd::arithmetic::power2::lemma_pow2_pos(domain.log_size as nat);
        }

        // vanishing polynomial X^n - 1 in coefficient form
        let mut v_h_coeffs: Vec<Fr> = Vec::new();
        v_h_coeffs.push(fr_sub(fr_of(0), fr_of(1)));
        let mut i: usize = 1;
        while i < n
            invariant
                1 <= i <= n,
                v_h_coeffs@.len() == i,
                v_h_coeffs@[0] == spec_fr_sub(spec_fr_from(0), spec_fr_from(1)),
                forall|j: int| 1 <= j < i ==> #[trigger] v_h_coeffs@[j] == spec_fr_from(0),
            decreases n - i,
        {
            v_h_coeffs.push(fr_of(0));
            i = i + 1;
        }
        v_h_coeffs.push(fr_of(1));
        proof {
            assert(v_h_coeffs@ =~= spec_vanishing_coeffs(n as nat));
        }

        // identity polynomial X in coefficient form
        let mut linear_coeffs: Vec<Fr> = Vec::new();
        linear_coeffs.push(fr_of(0));
        linear_coeffs.push(fr_of(1));
        proof {
            assert(linear_coeffs@ =~= spec_linear_coeffs());
        }

        let v_h_evals = ext.coset_transform(&v_h_coeffs);
        let mut v_h_inv_evals: Vec<Fr> = Vec::new();
        let mut i: usize = 0;
        while i < n4
            invariant
                0 <= i <= n4,
                n4 == v_h_evals@.len(),
                v_h_inv_evals@.len() == i,
                forall|j: int|
                    0 <= j < i ==> #[trigger] v_h_inv_evals@[j] == spec_fr_inv(v_h_evals@[j])
                        && v_h_evals@[j] != spec_fr_from(0),
            decreases n4 - i,
        {
            match fr_inverse(v_h_evals[i]) {
                Some(v) => v_h_inv_evals.push(v),
                None => {
                    proof {
                        assert(spec_coset_fft(
                            4 * domain.size as nat,
                            spec_vanishing_coeffs(domain.size as nat),
                        )[i as int] == v_h_evals@[i as int]);
                    }
                    return Err(Error::ZeroVanishingEvaluation);
                },
            }
            i = i + 1;
        }

        proof {
            let n4s = 4 * domain.size as nat;
            assert(v_h_evals@ == spec_coset_fft(n4s, spec_vanishing_coeffs(domain.size as nat)));
            assert forall|j: int|
                0 <= j < n4s implies #[trigger] spec_coset_fft(
                n4s,
                spec_vanishing_coeffs(domain.size as nat),
            )[j] != spec_fr_from(0) by {
                assert(v_h_inv_evals@[j] == spec_fr_inv(v_h_evals@[j]) && v_h_evals@[j]
                    != spec_fr_from(0));
            }
        }
        Ok(
            ProverKey {
                n,
                q_m_evals: ext.coset_transform(&arithmetic.q_m),
                q_l_evals: ext.coset_transform(&arithmetic.q_l),
                q_r_evals: ext.coset_transform(&arithmetic.q_r),
                q_o_evals: ext.coset_transform(&arithmetic.q_o),
                q_4_evals: ext.coset_transform(&arithmetic.q_4),
                q_c_evals: ext.coset_transform(&arithmetic.q_c),
                range_evals: ext.coset_transform(&gates.range),
                logic_evals: ext.coset_transform(&gates.logic),
                fixed_base_evals: ext.coset_transform(&gates.fixed_base),
                variable_base_evals: ext.coset_transform(&gates.variable_base),
                lookup_evals: ext.coset_transform(&gates.lookup),
                sigma_l_evals: ext.coset_transform(&sigmas.left),
                sigma_r_evals: ext.coset_transform(&sigmas.right),
                sigma_o_evals: ext.coset_transform(&sigmas.out),
                sigma_4_evals: ext.coset_transform(&sigmas.fourth),
                linear_evals: ext.coset_transform(&linear_coeffs),
                v_h_evals,
                v_h_inv_evals,
                curve,
                lookup_enabled,
            },
        )
    }
}

} // verus!
