//! Per-row gate-constraint evaluators.
//!
//! Each gate family turns one row's selector value, its own separation
//! challenge, the row's wire values and any next-row ("custom") values into
//! one field-element contribution to the row's total constraint value.  A
//! row satisfies a family exactly when the family's contribution is zero
//! wherever its selector is active; the contributions of all families are
//! summed, each already weighted by its own challenge.

use vstd::prelude::*;

use ark_bls12_381::Fr;

use crate::field::{
    fr_add, fr_mul, fr_of, fr_square, fr_sub, spec_fr_add, spec_fr_from, spec_fr_mul, spec_fr_sub,
};

verus! {

/// The four wire values of one circuit row: left, right, output, fourth.
#[derive(Clone, Copy)]
pub struct WitnessValues {
    pub a: Fr,
    pub b: Fr,
    pub c: Fr,
    pub d: Fr,
}

/// Twisted-Edwards coefficients of the embedded curve, injected by the
/// caller so the curve gates stay generic over the curve chosen.
#[derive(Clone, Copy)]
pub struct CurveParams {
    pub coeff_a: Fr,
    pub coeff_d: Fr,
}

/// Plain arithmetic gate:
/// `q_m*a*b + q_l*a + q_r*b + q_o*c + q_4*d + q_c`.
pub open spec fn spec_arithmetic_term(
    q_m: Fr,
    q_l: Fr,
    q_r: Fr,
    q_o: Fr,
    q_4: Fr,
    q_c: Fr,
    w: WitnessValues,
) -> Fr {
    spec_fr_add(
        spec_fr_add(
            spec_fr_add(
                spec_fr_add(
                    spec_fr_add(spec_fr_mul(q_m, spec_fr_mul(w.a, w.b)), spec_fr_mul(q_l, w.a)),
                    spec_fr_mul(q_r, w.b),
                ),
                spec_fr_mul(q_o, w.c),
            ),
            spec_fr_mul(q_4, w.d),
        ),
        q_c,
    )
}

pub fn arithmetic_term(q_m: Fr, q_l: Fr, q_r: Fr, q_o: Fr, q_4: Fr, q_c: Fr, w: WitnessValues) -> (r:
    Fr)
    ensures
        r == spec_arithmetic_term(q_m, q_l, q_r, q_o, q_4, q_c, w),
{
    let mult = fr_mul(q_m, fr_mul(w.a, w.b));
    let t = fr_add(mult, fr_mul(q_l, w.a));
    let t = fr_add(t, fr_mul(q_r, w.b));
    let t = fr_add(t, fr_mul(q_o, w.c));
    let t = fr_add(t, fr_mul(q_4, w.d));
    fr_add(t, q_c)
}

/// `f*(f-1)*(f-2)*(f-3)`: zero exactly when `f` is a two-bit quad.
pub open spec fn spec_delta(f: Fr) -> Fr {
    spec_fr_mul(
        spec_fr_mul(
            spec_fr_mul(f, spec_fr_sub(f, spec_fr_from(1))),
            spec_fr_sub(f, spec_fr_from(2)),
        ),
        spec_fr_sub(f, spec_fr_from(3)),
    )
}

pub fn delta_quad(f: Fr) -> (r: Fr)
    ensures
        r == spec_delta(f),
{
    let t = fr_mul(f, fr_sub(f, fr_of(1)));
    let t = fr_mul(t, fr_sub(f, fr_of(2)));
    fr_mul(t, fr_sub(f, fr_of(3)))
}

/// Range gate: the four wires hold a running accumulator that grows by one
/// base-4 digit per wire, wrapping to the next row through `d_next`; each
/// step's digit is checked with `spec_delta`, successive steps separated by
/// powers of the squared challenge.
pub open spec fn spec_range_term(sel: Fr, ch: Fr, w: WitnessValues, d_next: Fr) -> Fr {
    let four = spec_fr_from(4);
    let kappa = spec_fr_mul(ch, ch);
    let kappa_sq = spec_fr_mul(kappa, kappa);
    let kappa_cu = spec_fr_mul(kappa_sq, kappa);
    let b_1 = spec_delta(spec_fr_sub(w.c, spec_fr_mul(four, w.d)));
    let b_2 = spec_fr_mul(spec_delta(spec_fr_sub(w.b, spec_fr_mul(four, w.c))), kappa);
    let b_3 = spec_fr_mul(spec_delta(spec_fr_sub(w.a, spec_fr_mul(four, w.b))), kappa_sq);
    let b_4 = spec_fr_mul(spec_delta(spec_fr_sub(d_next, spec_fr_mul(four, w.a))), kappa_cu);
    spec_fr_mul(
        sel,
        spec_fr_mul(spec_fr_add(spec_fr_add(spec_fr_add(b_1, b_2), b_3), b_4), ch),
    )
}

pub fn range_term(sel: Fr, ch: Fr, w: WitnessValues, d_next: Fr) -> (r: Fr)
    ensures
        r == spec_range_term(sel, ch, w, d_next),
{
    let four = fr_of(4);
    let kappa = fr_square(ch);
    let kappa_sq = fr_square(kappa);
    let kappa_cu = fr_mul(kappa_sq, kappa);
    let b_1 = delta_quad(fr_sub(w.c, fr_mul(four, w.d)));
    let b_2 = fr_mul(delta_quad(fr_sub(w.b, fr_mul(four, w.c))), kappa);
    let b_3 = fr_mul(delta_quad(fr_sub(w.a, fr_mul(four, w.b))), kappa_sq);
    let b_4 = fr_mul(delta_quad(fr_sub(d_next, fr_mul(four, w.a))), kappa_cu);
    let sum = fr_add(fr_add(fr_add(b_1, b_2), b_3), b_4);
    fr_mul(sel, fr_mul(sum, ch))
}

/// Combined AND/XOR consistency term of the logic gate: vanishes when `w`
/// is the product of the two-bit digits `a` and `b` and `c` accumulates the
/// digit of the chosen operation, with `q_c` (`1` or `-1`) selecting XOR or
/// AND.
pub open spec fn spec_xor_and(a: Fr, b: Fr, w: Fr, c: Fr, q_c: Fr) -> Fr {
    let s = spec_fr_add(a, b);
    let t1 = spec_fr_add(
        spec_fr_sub(spec_fr_mul(spec_fr_from(4), w), spec_fr_mul(spec_fr_from(18), s)),
        spec_fr_from(81),
    );
    let t2 = spec_fr_add(
        spec_fr_mul(w, t1),
        spec_fr_mul(spec_fr_from(18), spec_fr_add(spec_fr_mul(a, a), spec_fr_mul(b, b))),
    );
    let t3 = spec_fr_add(spec_fr_sub(t2, spec_fr_mul(spec_fr_from(81), s)), spec_fr_from(83));
    let f = spec_fr_mul(w, t3);
    let e = spec_fr_sub(
        spec_fr_mul(spec_fr_from(3), spec_fr_add(s, c)),
        spec_fr_mul(spec_fr_from(2), f),
    );
    spec_fr_add(
        spec_fr_mul(q_c, spec_fr_sub(spec_fr_mul(spec_fr_from(9), c), spec_fr_mul(spec_fr_from(3), s))),
        e,
    )
}

pub fn xor_and(a: Fr, b: Fr, w: Fr, c: Fr, q_c: Fr) -> (r: Fr)
    ensures
        r == spec_xor_and(a, b, w, c, q_c),
{
    let s = fr_add(a, b);
    let t1 = fr_add(fr_sub(fr_mul(fr_of(4), w), fr_mul(fr_of(18), s)), fr_of(81));
    let t2 = fr_add(fr_mul(w, t1), fr_mul(fr_of(18), fr_add(fr_mul(a, a), fr_mul(b, b))));
    let t3 = fr_add(fr_sub(t2, fr_mul(fr_of(81), s)), fr_of(83));
    let f = fr_mul(w, t3);
    let e = fr_sub(fr_mul(fr_of(3), fr_add(s, c)), fr_mul(fr_of(2), f));
    fr_add(fr_mul(q_c, fr_sub(fr_mul(fr_of(9), c), fr_mul(fr_of(3), s))), e)
}

/// Logic gate: the wires accumulate two operands and the result two bits per
/// row; the differences to the next row's accumulators are checked as
/// two-bit digits, their product and the AND/XOR consistency close the row.
pub open spec fn spec_logic_term(
    sel: Fr,
    ch: Fr,
    w: WitnessValues,
    a_next: Fr,
    b_next: Fr,
    d_next: Fr,
    q_c: Fr,
) -> Fr {
    let four = spec_fr_from(4);
    let kappa = spec_fr_mul(ch, ch);
    let kappa_sq = spec_fr_mul(kappa, kappa);
    let kappa_cu = spec_fr_mul(kappa_sq, kappa);
    let kappa_qu = spec_fr_mul(kappa_cu, kappa);
    let da = spec_fr_sub(a_next, spec_fr_mul(four, w.a));
    let db = spec_fr_sub(b_next, spec_fr_mul(four, w.b));
    let dd = spec_fr_sub(d_next, spec_fr_mul(four, w.d));
    let c_0 = spec_delta(da);
    let c_1 = spec_fr_mul(spec_delta(db), kappa);
    let c_2 = spec_fr_mul(spec_delta(dd), kappa_sq);
    let c_3 = spec_fr_mul(spec_fr_sub(w.c, spec_fr_mul(da, db)), kappa_cu);
    let c_4 = spec_fr_mul(spec_xor_and(da, db, w.c, dd, q_c), kappa_qu);
    spec_fr_mul(
        sel,
        spec_fr_mul(
            spec_fr_add(spec_fr_add(spec_fr_add(spec_fr_add(c_0, c_1), c_2), c_3), c_4),
            ch,
        ),
    )
}

pub fn logic_term(
    sel: Fr,
    ch: Fr,
    w: WitnessValues,
    a_next: Fr,
    b_next: Fr,
    d_next: Fr,
    q_c: Fr,
) -> (r: Fr)
    ensures
        r == spec_logic_term(sel, ch, w, a_next, b_next, d_next, q_c),
{
    let four = fr_of(4);
    let kappa = fr_square(ch);
    let kappa_sq = fr_square(kappa);
    let kappa_cu = fr_mul(kappa_sq, kappa);
    let kappa_qu = fr_mul(kappa_cu, kappa);
    let da = fr_sub(a_next, fr_mul(four, w.a));
    let db = fr_sub(b_next, fr_mul(four, w.b));
    let dd = fr_sub(d_next, fr_mul(four, w.d));
    let c_0 = delta_quad(da);
    let c_1 = fr_mul(delta_quad(db), kappa);
    let c_2 = fr_mul(delta_quad(dd), kappa_sq);
    let c_3 = fr_mul(fr_sub(w.c, fr_mul(da, db)), kappa_cu);
    let c_4 = fr_mul(xor_and(da, db, w.c, dd, q_c), kappa_qu);
    let sum = fr_add(fr_add(fr_add(fr_add(c_0, c_1), c_2), c_3), c_4);
    fr_mul(sel, fr_mul(sum, ch))
}

/// Fixed-base scalar multiplication gate: the wires carry a point
/// accumulator `(a, b)`, the product wire `c`, and a scalar accumulator `d`
/// absorbing one signed bit per row; the selectors `q_l`, `q_r`, `q_c` hold
/// the coordinates (and their product) of the precomputed base-point
/// multiple, and the next row's accumulator must be the twisted-Edwards sum.
pub open spec fn spec_fixed_base_term(
    sel: Fr,
    ch: Fr,
    w: WitnessValues,
    a_next: Fr,
    b_next: Fr,
    d_next: Fr,
    q_l: Fr,
    q_r: Fr,
    q_c: Fr,
    curve: CurveParams,
) -> Fr {
    let one = spec_fr_from(1);
    let kappa = spec_fr_mul(ch, ch);
    let kappa_sq = spec_fr_mul(kappa, kappa);
    let kappa_cu = spec_fr_mul(kappa_sq, kappa);
    let bit = spec_fr_sub(spec_fr_sub(d_next, w.d), w.d);
    let bit_consistency = spec_fr_mul(
        spec_fr_mul(bit, spec_fr_sub(bit, one)),
        spec_fr_add(bit, one),
    );
    let y_alpha = spec_fr_add(spec_fr_mul(spec_fr_mul(bit, bit), spec_fr_sub(q_r, one)), one);
    let x_alpha = spec_fr_mul(q_l, bit);
    let xy_consistency = spec_fr_mul(spec_fr_sub(spec_fr_mul(bit, q_c), w.c), kappa);
    let lhs_x = spec_fr_add(
        a_next,
        spec_fr_mul(spec_fr_mul(spec_fr_mul(spec_fr_mul(a_next, w.c), w.a), w.b), curve.coeff_d),
    );
    let rhs_x = spec_fr_add(spec_fr_mul(x_alpha, w.b), spec_fr_mul(y_alpha, w.a));
    let x_acc = spec_fr_mul(spec_fr_sub(lhs_x, rhs_x), kappa_sq);
    let lhs_y = spec_fr_sub(
        b_next,
        spec_fr_mul(spec_fr_mul(spec_fr_mul(spec_fr_mul(b_next, w.c), w.a), w.b), curve.coeff_d),
    );
    let rhs_y = spec_fr_sub(
        spec_fr_mul(y_alpha, w.b),
        spec_fr_mul(curve.coeff_a, spec_fr_mul(x_alpha, w.a)),
    );
    let y_acc = spec_fr_mul(spec_fr_sub(lhs_y, rhs_y), kappa_cu);
    let checks = spec_fr_add(spec_fr_add(spec_fr_add(bit_consistency, xy_consistency), x_acc), y_acc);
    spec_fr_mul(sel, spec_fr_mul(checks, ch))
}

pub fn fixed_base_term(
    sel: Fr,
    ch: Fr,
    w: WitnessValues,
    a_next: Fr,
    b_next: Fr,
    d_next: Fr,
    q_l: Fr,
    q_r: Fr,
    q_c: Fr,
    curve: CurveParams,
) -> (r: Fr)
    ensures
        r == spec_fixed_base_term(sel, ch, w, a_next, b_next, d_next, q_l, q_r, q_c, curve),
{
    let one = fr_of(1);
    let kappa = fr_square(ch);
    let kappa_sq = fr_square(kappa);
    let kappa_cu = fr_mul(kappa_sq, kappa);
    let bit = fr_sub(fr_sub(d_next, w.d), w.d);
    let bit_consistency = fr_mul(fr_mul(bit, fr_sub(bit, one)), fr_add(bit, one));
    let y_alpha = fr_add(fr_mul(fr_mul(bit, bit), fr_sub(q_r, one)), one);
    let x_alpha = fr_mul(q_l, bit);
    let xy_consistency = fr_mul(fr_sub(fr_mul(bit, q_c), w.c), kappa);
    let lhs_x = fr_add(a_next, fr_mul(fr_mul(fr_mul(fr_mul(a_next, w.c), w.a), w.b), curve.coeff_d));
    let rhs_x = fr_add(fr_mul(x_alpha, w.b), fr_mul(y_alpha, w.a));
    let x_acc = fr_mul(fr_sub(lhs_x, rhs_x), kappa_sq);
    let lhs_y = fr_sub(b_next, fr_mul(fr_mul(fr_mul(fr_mul(b_next, w.c), w.a), w.b), curve.coeff_d));
    let rhs_y = fr_sub(fr_mul(y_alpha, w.b), fr_mul(curve.coeff_a, fr_mul(x_alpha, w.a)));
    let y_acc = fr_mul(fr_sub(lhs_y, rhs_y), kappa_cu);
    let checks = fr_add(fr_add(fr_add(bit_consistency, xy_consistency), x_acc), y_acc);
    fr_mul(sel, fr_mul(checks, ch))
}

/// Variable-base curve addition gate: `(a, b)` and `(c, d)` are two
/// twisted-Edwards points, `d_next` their coordinate product, and
/// `(a_next, b_next)` must be their sum under the complete addition law.
pub open spec fn spec_curve_add_term(
    sel: Fr,
    ch: Fr,
    w: WitnessValues,
    a_next: Fr,
    b_next: Fr,
    d_next: Fr,
    curve: CurveParams,
) -> Fr {
    let one = spec_fr_from(1);
    let kappa = spec_fr_mul(ch, ch);
    let c_0 = spec_fr_sub(d_next, spec_fr_mul(spec_fr_mul(spec_fr_mul(w.a, w.c), w.b), w.d));
    let c_1 = spec_fr_sub(
        spec_fr_mul(a_next, spec_fr_add(one, spec_fr_mul(curve.coeff_d, d_next))),
        spec_fr_add(spec_fr_mul(w.a, w.d), spec_fr_mul(w.c, w.b)),
    );
    let c_2 = spec_fr_sub(
        spec_fr_mul(b_next, spec_fr_sub(one, spec_fr_mul(curve.coeff_d, d_next))),
        spec_fr_sub(spec_fr_mul(w.b, w.d), spec_fr_mul(curve.coeff_a, spec_fr_mul(w.a, w.c))),
    );
    let sum = spec_fr_add(
        spec_fr_add(c_0, spec_fr_mul(c_1, kappa)),
        spec_fr_mul(c_2, spec_fr_mul(kappa, kappa)),
    );
    spec_fr_mul(sel, spec_fr_mul(sum, ch))
}

pub fn curve_add_term(
    sel: Fr,
    ch: Fr,
    w: WitnessValues,
    a_next: Fr,
    b_next: Fr,
    d_next: Fr,
    curve: CurveParams,
) -> (r: Fr)
    ensures
        r == spec_curve_add_term(sel, ch, w, a_next, b_next, d_next, curve),
{
    let one = fr_of(1);
    let kappa = fr_square(ch);
    let c_0 = fr_sub(d_next, fr_mul(fr_mul(fr_mul(w.a, w.c), w.b), w.d));
    let c_1 = fr_sub(
        fr_mul(a_next, fr_add(one, fr_mul(curve.coeff_d, d_next))),
        fr_add(fr_mul(w.a, w.d), fr_mul(w.c, w.b)),
    );
    let c_2 = fr_sub(
        fr_mul(b_next, fr_sub(one, fr_mul(curve.coeff_d, d_next))),
        fr_sub(fr_mul(w.b, w.d), fr_mul(curve.coeff_a, fr_mul(w.a, w.c))),
    );
    let sum = fr_add(fr_add(c_0, fr_mul(c_1, kappa)), fr_mul(c_2, fr_mul(kappa, kappa)));
    fr_mul(sel, fr_mul(sum, ch))
}

/// Lookup gate query term: where the lookup selector is active, the
/// challenge-compressed wire tuple must equal the query column's value.
pub open spec fn spec_lookup_term(sel: Fr, ch: Fr, w: WitnessValues, f_val: Fr, zeta: Fr) -> Fr {
    let compressed = spec_fr_add(
        w.a,
        spec_fr_mul(zeta, spec_fr_add(w.b, spec_fr_mul(zeta, spec_fr_add(w.c, spec_fr_mul(zeta, w.d))))),
    );
    spec_fr_mul(sel, spec_fr_mul(spec_fr_sub(compressed, f_val), ch))
}

pub fn lookup_term(sel: Fr, ch: Fr, w: WitnessValues, f_val: Fr, zeta: Fr) -> (r: Fr)
    ensures
        r == spec_lookup_term(sel, ch, w, f_val, zeta),
{
    let compressed = fr_add(w.a, fr_mul(zeta, fr_add(w.b, fr_mul(zeta, fr_add(w.c, fr_mul(zeta, w.d))))));
    fr_mul(sel, fr_mul(fr_sub(compressed, f_val), ch))
}

} // verus!
