//! Power-of-two evaluation domains over the BLS12-381 scalar field.
//!
//! A domain of size `2^k` hosts transforms between coefficient and
//! evaluation form, plus coset-shifted variants used to evaluate polynomials
//! at points disjoint from the domain itself.  Sizing (powers of two, the
//! field's two-adicity limit, circuit padding) is verified; the transform
//! kernels come from `ark_poly` behind trusted wrappers whose contracts name
//! the transforms and state that each inverse recovers the (zero-padded)
//! input.

use vstd::prelude::*;
use vstd::arithmetic::power2::{
    lemma2_to64, lemma2_to64_rest, lemma_pow2_strictly_increases, lemma_pow2_unfold, pow2,
};

use ark_bls12_381::Fr;
use ark_poly::EvaluationDomain;

use crate::field::spec_fr_from;
use crate::Error;

verus! {

/// Two-adicity of the BLS12-381 scalar field: its multiplicative group has
/// subgroups of order `2^k` exactly for `k` up to this value.
pub const TWO_ADICITY: u32 = 32;

/// `k` is the exponent of the smallest power of two that is at least `n`.
pub open spec fn min_pow2_exp(k: nat, n: nat) -> bool {
    pow2(k) >= n && (k == 0 || pow2((k - 1) as nat) < n)
}

/// Sizes the field can host: a power of two within the two-adicity.
pub open spec fn spec_domain_size_ok(n: nat) -> bool {
    exists|k: nat| k <= TWO_ADICITY as nat && #[trigger] pow2(k) == n
}

pub proof fn lemma_pow2_le(a: nat, b: nat)
    requires
        a <= b,
    ensures
        pow2(a) <= pow2(b),
{
    if a < b {
        lemma_pow2_strictly_increases(a, b);
    }
}

/// Smallest exponent `k` with `2^k >= n`.
fn ceil_log2_u64(n: u64) -> (k: u32)
    requires
        n >= 1,
    ensures
        min_pow2_exp(k as nat, n as nat),
        k <= 64,
{
    let mut m: u64 = n;
    let mut k: u32 = 0;
    proof {
        lemma2_to64();
    }
    while m > 1
        invariant
            1 <= m,
            (m - 1) * pow2(k as nat) < n,
            n <= m * pow2(k as nat),
            k == 0 || pow2((k - 1) as nat) < n,
            k <= 64,
        decreases m,
    {
        let m2 = m / 2 + m % 2;
        proof {
            let p = pow2(k as nat) as int;
            let mi = m as int;
            let m2i = m2 as int;
            assert(2 * m2i <= mi + 1);
            assert(mi <= 2 * m2i);
            lemma_pow2_unfold((k + 1) as nat);
            assert(pow2((k + 1) as nat) == 2 * pow2(k as nat));
            // pow2(k) < n, so k stays below 64.
            assert(p <= (mi - 1) * p) by (nonlinear_arith)
                requires mi >= 2 && p >= 0;
            assert(pow2(k as nat) < n);
            if k >= 64 {
                lemma2_to64_rest();
                lemma_pow2_le(64, k as nat);
                assert(false);
            }
            // the two product bounds carry over to the halved count
            assert((m2i - 1) * (2 * p) <= (mi - 1) * p) by (nonlinear_arith)
                requires 2 * m2i <= mi + 1 && p >= 0;
            assert(mi * p <= m2i * (2 * p)) by (nonlinear_arith)
                requires mi <= 2 * m2i && p >= 0;
        }
        m = m2;
        k = k + 1;
    }
    k
}

/// `2^k` as a machine integer.
fn pow2_u64(k: u32) -> (r: u64)
    requires
        k <= 32,
    ensures
        r as nat == pow2(k as nat),
{
    let mut r: u64 = 1;
    let mut j: u32 = 0;
    proof {
        lemma2_to64();
    }
    while j < k
        invariant
            r as nat == pow2(j as nat),
            j <= k,
            k <= 32,
        decreases k - j,
    {
        proof {
            lemma_pow2_le(j as nat, 31);
            lemma2_to64();
            lemma_pow2_unfold((j + 1) as nat);
        }
        r = r * 2;
        j = j + 1;
    }
    r
}

/// A multiplicative subgroup of the scalar field of power-of-two order.
#[derive(Debug, Clone, Copy, PartialEq, Eq, Structural)]
pub struct Domain {
    /// Order of the subgroup.
    pub size: usize,
    /// Its base-two logarithm.
    pub log_size: u32,
}

impl Domain {
    pub open spec fn wf(&self) -> bool {
        self.size as nat == pow2(self.log_size as nat) && self.log_size <= TWO_ADICITY
    }

    /// Builds the smallest domain that can host `num_coeffs` evaluations, or
    /// reports that no subgroup of the needed order exists in the field.
    /// The error carries the exponent the request would have needed.
    pub fn new(num_coeffs: usize) -> (r: Result<Domain, Error>)
        ensures
            r matches Ok(d) ==> d.wf() && d.size >= num_coeffs && d.size >= 1 && (forall|k: nat|
                pow2(k) >= num_coeffs as nat && pow2(k) >= 1 ==> d.size as nat <= #[trigger] pow2(
                    k,
                )),
            r is Ok ==> num_coeffs as nat <= pow2(TWO_ADICITY as nat),
            num_coeffs as nat <= pow2(TWO_ADICITY as nat) && pow2(TWO_ADICITY as nat)
                <= usize::MAX as nat ==> r is Ok,
            r matches Err(e) ==> (e matches Error::InvalidEvalDomainSize {
                log_size_of_group: l,
                adicity: a,
            } && min_pow2_exp(
                l as nat,
                if num_coeffs == 0 {
                    1nat
                } else {
                    num_coeffs as nat
                },
            ) && a == TWO_ADICITY),
    {
        let n64: u64 = if num_coeffs == 0 {
            1
        } else {
            num_coeffs as u64
        };
        let k = ceil_log2_u64(n64);
        if k > TWO_ADICITY {
            proof {
                lemma2_to64();
                // the request exceeds every supported subgroup order
                assert(pow2((k - 1) as nat) < n64 as nat);
                vstd::arithmetic::power2::lemma_pow2_pos((k - 1) as nat);
                lemma_pow2_le(TWO_ADICITY as nat, (k - 1) as nat);
                assert(num_coeffs as nat > pow2(TWO_ADICITY as nat));
            }
            return Err(Error::InvalidEvalDomainSize { log_size_of_group: k, adicity: TWO_ADICITY });
        }
        let size = pow2_u64(k);
        if size > usize::MAX as u64 {
            // the subgroup exists in the field but not in this machine's words
            proof {
                lemma_pow2_le(k as nat, TWO_ADICITY as nat);
            }
            return Err(Error::InvalidEvalDomainSize { log_size_of_group: k, adicity: TWO_ADICITY });
        }
        proof {
            lemma_pow2_le(k as nat, TWO_ADICITY as nat);
            lemma2_to64();
            assert forall|j: nat|
                pow2(j) >= num_coeffs as nat && pow2(j) >= 1 implies pow2(k as nat) <= #[trigger] pow2(
                j,
            ) by {
                if j < k as nat {
                    if k as nat >= 1 {
                        lemma_pow2_le(j, (k - 1) as nat);
                    }
                } else {
                    lemma_pow2_le(k as nat, j);
                }
            }
        }
        Ok(Domain { size: size as usize, log_size: k })
    }
}

/// Smallest power of two strictly greater than the circuit's row count: the
/// domain leaves room for one extra closure row beyond the last gate.
///
/// Every power of two exceeding `circuit_bound` is at least the returned
/// value, and the returned value is itself such a power of two.
pub fn padded_circuit_size(circuit_bound: usize) -> (r: usize)
    requires
        circuit_bound as nat + 1 <= pow2(TWO_ADICITY as nat),
        circuit_bound <= usize::MAX / 2,
    ensures
        r > circuit_bound,
        exists|k: nat| #[trigger] pow2(k) == r as nat,
        forall|k: nat| #[trigger] pow2(k) > circuit_bound as nat ==> r as nat <= pow2(k),
{
    let k = ceil_log2_u64(circuit_bound as u64 + 1);
    proof {
        lemma2_to64();
        if k > TWO_ADICITY {
            assert(pow2((k - 1) as nat) < circuit_bound as nat + 1);
            lemma_pow2_le(TWO_ADICITY as nat, (k - 1) as nat);
            assert(false);
        }
    }
    let r = pow2_u64(k);
    proof {
        lemma_pow2_le(k as nat, TWO_ADICITY as nat);
        lemma2_to64();
        if k as nat >= 1 {
            // minimality: any power of two above the bound reaches r
            assert(pow2((k - 1) as nat) <= circuit_bound as nat);
        }
        assert forall|j: nat| #[trigger]
            pow2(j) > circuit_bound as nat implies r as nat <= pow2(j) by {
            if j < k as nat {
                lemma_pow2_le(j, (k - 1) as nat);
            } else {
                lemma_pow2_le(k as nat, j);
            }
        }
        // the result fits a machine word: it is at most twice the bound
        if k == 0 {
            assert(r as nat == 1);
        } else {
            lemma_pow2_unfold(k as nat);
            assert(pow2((k - 1) as nat) < circuit_bound as nat + 1);
            assert(r as nat <= 2 * circuit_bound as nat);
        }
        assert(r as nat <= usize::MAX as nat);
    }
    r as usize
}

/// What `ark_poly`'s forward transform returns: the evaluations over the
/// size-`size` subgroup of the polynomial with coefficients `coeffs`.
pub uninterp spec fn spec_fft(size: nat, coeffs: Seq<Fr>) -> Seq<Fr>;

/// What `ark_poly`'s inverse transform returns: the coefficients of the
/// polynomial interpolating `evals` over the size-`size` subgroup.
pub uninterp spec fn spec_ifft(size: nat, evals: Seq<Fr>) -> Seq<Fr>;

/// What `ark_poly`'s coset-shifted forward transform returns.
pub uninterp spec fn spec_coset_fft(size: nat, coeffs: Seq<Fr>) -> Seq<Fr>;

/// What `ark_poly`'s coset-shifted inverse transform returns.
pub uninterp spec fn spec_coset_ifft(size: nat, evals: Seq<Fr>) -> Seq<Fr>;

/// `s` extended with zeros to length `n` (the transforms pad their input).
pub open spec fn pad_zeros(s: Seq<Fr>, n: nat) -> Seq<Fr> {
    Seq::new(
        n,
        |i: int|
            if i < s.len() {
                s[i]
            } else {
                spec_fr_from(0)
            },
    )
}

/// Relies on `ark_poly`'s `GeneralEvaluationDomain::new` (for a supported
/// power-of-two size it returns a domain of exactly that size) and
/// `EvaluationDomain::fft`; the inverse transform recovers the zero-padded
/// input, as the two are documented to be mutually inverse.
#[verifier::external_body]
fn fft_raw(size: usize, coeffs: &Vec<Fr>) -> (r: Vec<Fr>)
    requires
        spec_domain_size_ok(size as nat),
        coeffs@.len() <= size,
    ensures
        r@ == spec_fft(size as nat, coeffs@),
        r@.len() == size,
        spec_ifft(size as nat, r@) == pad_zeros(coeffs@, size as nat),
{
    let d = ark_poly::GeneralEvaluationDomain::<Fr>::new(size).unwrap();
    d.fft(coeffs)
}

/// Relies on `ark_poly`'s `GeneralEvaluationDomain::new` and
/// `EvaluationDomain::ifft`; the forward transform recovers the zero-padded
/// input.
#[verifier::external_body]
fn ifft_raw(size: usize, evals: &Vec<Fr>) -> (r: Vec<Fr>)
    requires
        spec_domain_size_ok(size as nat),
        evals@.len() <= size,
    ensures
        r@ == spec_ifft(size as nat, evals@),
        r@.len() == size,
        spec_fft(size as nat, r@) == pad_zeros(evals@, size as nat),
{
    let d = ark_poly::GeneralEvaluationDomain::<Fr>::new(size).unwrap();
    d.ifft(evals)
}

/// Relies on `ark_poly`'s `GeneralEvaluationDomain::new` and
/// `EvaluationDomain::coset_fft`; the coset-shifted inverse transform
/// recovers the zero-padded input.
#[verifier::external_body]
fn coset_fft_raw(size: usize, coeffs: &Vec<Fr>) -> (r: Vec<Fr>)
    requires
        spec_domain_size_ok(size as nat),
        coeffs@.len() <= size,
    ensures
        r@ == spec_coset_fft(size as nat, coeffs@),
        r@.len() == size,
        spec_coset_ifft(size as nat, r@) == pad_zeros(coeffs@, size as nat),
{
    let d = ark_poly::GeneralEvaluationDomain::<Fr>::new(size).unwrap();
    d.coset_fft(coeffs)
}

/// Relies on `ark_poly`'s `GeneralEvaluationDomain::new` and
/// `EvaluationDomain::coset_ifft`; the coset-shifted forward transform
/// recovers the zero-padded input.
#[verifier::external_body]
fn coset_ifft_raw(size: usize, evals: &Vec<Fr>) -> (r: Vec<Fr>)
    requires
        spec_domain_size_ok(size as nat),
        evals@.len() <= size,
    ensures
        r@ == spec_coset_ifft(size as nat, evals@),
        r@.len() == size,
        spec_coset_fft(size as nat, r@) == pad_zeros(evals@, size as nat),
{
    let d = ark_poly::GeneralEvaluationDomain::<Fr>::new(size).unwrap();
    d.coset_ifft(evals)
}

impl Domain {
    /// The four-fold extended domain exists in the field and the machine.
    pub open spec fn spec_extendable_4x(&self) -> bool {
        self.log_size + 2 <= TWO_ADICITY && 4 * self.size as nat <= usize::MAX as nat
    }

    /// The extended domain hosting pointwise products of degree-bounded
    /// polynomials: four times this domain's order.
    pub fn extend_4x(&self) -> (r: Result<Domain, Error>)
        requires
            self.wf(),
        ensures
            r matches Ok(d) ==> d.wf() && d.size as nat == 4 * self.size as nat && d.log_size
                == self.log_size + 2,
            r is Ok <==> self.spec_extendable_4x(),
            r matches Err(e) ==> e == (Error::InvalidEvalDomainSize {
                log_size_of_group: (self.log_size + 2) as u32,
                adicity: TWO_ADICITY,
            }),
    {
        if self.log_size + 2 > TWO_ADICITY {
            return Err(
                Error::InvalidEvalDomainSize {
                    log_size_of_group: self.log_size + 2,
                    adicity: TWO_ADICITY,
                },
            );
        }
        proof {
            vstd::arithmetic::power2::lemma_pow2_adds((self.log_size + 2) as nat, 0);
            vstd::arithmetic::power2::lemma_pow2_adds(self.log_size as nat, 2);
            lemma2_to64();
            assert(pow2((self.log_size + 2) as nat) == 4 * pow2(self.log_size as nat));
            lemma_pow2_le(self.log_size as nat, 30);
        }
        let size4 = (self.size as u64) * 4;
        if size4 > usize::MAX as u64 {
            return Err(
                Error::InvalidEvalDomainSize {
                    log_size_of_group: self.log_size + 2,
                    adicity: TWO_ADICITY,
                },
            );
        }
        Ok(Domain { size: size4 as usize, log_size: self.log_size + 2 })
    }

    proof fn lemma_size_ok(&self)
        requires
            self.wf(),
        ensures
            spec_domain_size_ok(self.size as nat),
            self.size >= 1,
    {
        assert(pow2(self.log_size as nat) == self.size as nat);
        vstd::arithmetic::power2::lemma_pow2_pos(self.log_size as nat);
    }

    /// Evaluations over the domain of the polynomial with these coefficients.
    pub fn transform(&self, coeffs: &Vec<Fr>) -> (r: Vec<Fr>)
        requires
            self.wf(),
            coeffs@.len() <= self.size,
        ensures
            r@ == spec_fft(self.size as nat, coeffs@),
            r@.len() == self.size,
            spec_ifft(self.size as nat, r@) == pad_zeros(coeffs@, self.size as nat),
    {
        proof {
            self.lemma_size_ok();
        }
        fft_raw(self.size, coeffs)
    }

    /// Coefficients of the polynomial with these evaluations over the domain.
    pub fn inverse_transform(&self, evals: &Vec<Fr>) -> (r: Vec<Fr>)
        requires
            self.wf(),
            evals@.len() <= self.size,
        ensures
            r@ == spec_ifft(self.size as nat, evals@),
            r@.len() == self.size,
            spec_fft(self.size as nat, r@) == pad_zeros(evals@, self.size as nat),
    {
        proof {
            self.lemma_size_ok();
        }
        ifft_raw(self.size, evals)
    }

    /// Evaluations over the coset-shifted domain.
    pub fn coset_transform(&self, coeffs: &Vec<Fr>) -> (r: Vec<Fr>)
        requires
            self.wf(),
            coeffs@.len() <= self.size,
        ensures
            r@ == spec_coset_fft(self.size as nat, coeffs@),
            r@.len() == self.size,
            spec_coset_ifft(self.size as nat, r@) == pad_zeros(coeffs@, self.size as nat),
    {
        proof {
            self.lemma_size_ok();
        }
        coset_fft_raw(self.size, coeffs)
    }

    /// Coefficients of the polynomial with these evaluations over the coset.
    pub fn coset_inverse_transform(&self, evals: &Vec<Fr>) -> (r: Vec<Fr>)
        requires
            self.wf(),
            evals@.len() <= self.size,
        ensures
            r@ == spec_coset_ifft(self.size as nat, evals@),
            r@.len() == self.size,
            spec_coset_fft(self.size as nat, r@) == pad_zeros(evals@, self.size as nat),
    {
        proof {
            self.lemma_size_ok();
        }
        coset_ifft_raw(self.size, evals)
    }
}

/// Transform round trip: for a coefficient vector filling the domain, the
/// inverse transform of the forward transform returns it unchanged.
pub fn transform_round_trip(domain: &Domain, coeffs: &Vec<Fr>) -> (r: Vec<Fr>)
    requires
        domain.wf(),
        coeffs@.len() == domain.size,
    ensures
        r@ == coeffs@,
{
    let evals = domain.transform(coeffs);
    let back = domain.inverse_transform(&evals);
    proof {
        assert(pad_zeros(coeffs@, domain.size as nat) =~= coeffs@);
    }
    back
}

/// Coset-shifted transform round trip: the coset inverse transform of the
/// coset transform returns a full-length coefficient vector unchanged.
pub fn coset_transform_round_trip(domain: &Domain, coeffs: &Vec<Fr>) -> (r: Vec<Fr>)
    requires
        domain.wf(),
        coeffs@.len() == domain.size,
    ensures
        r@ == coeffs@,
{
    let evals = domain.coset_transform(coeffs);
    let back = domain.coset_inverse_transform(&evals);
    proof {
        assert(pad_zeros(coeffs@, domain.size as nat) =~= coeffs@);
    }
    back
}

} // verus!
