//! Subjective-logic opinions in fixed-point arithmetic.
//!
//! An opinion splits one unit of probability mass into belief, disbelief and
//! uncertainty. Each mass is stored as a whole number of parts of
//! [`SCALE`], so the three masses of a valid opinion add up to exactly
//! `SCALE`. Every operator rounds belief and disbelief down to the next
//! part and gives the remainder to uncertainty, which keeps the sum exact.

use vstd::prelude::*;
use crate::error::TrustError;

verus! {

/// The number of parts that make up one unit of mass.
pub const SCALE: u64 = 1_000_000_000_000;

/// Belief, disbelief and uncertainty about a binary proposition, each in
/// parts of [`SCALE`].
#[derive(Clone, Copy, Debug, PartialEq, Eq, Structural)]
pub struct Opinion {
    pub b: u64,
    pub d: u64,
    pub u: u64,
}

impl Opinion {
    /// The masses add up to one unit.
    pub open spec fn is_valid(self) -> bool {
        self.b + self.d + self.u == SCALE
    }

    /// Total uncertainty: nothing is believed or disbelieved.
    pub open spec fn vacuous() -> Opinion {
        Opinion { b: 0, d: 0, u: SCALE }
    }

    /// Puts three masses together without checking their sum.
    pub fn new(b: u64, d: u64, u: u64) -> (o: Self)
        ensures
            o == (Opinion { b, d, u }),
    {
        Opinion { b, d, u }
    }

    /// Tells whether the masses add up to one unit.
    pub fn check_valid(&self) -> (ok: bool)
        ensures
            ok == self.is_valid(),
    {
        self.b <= SCALE && self.d <= SCALE - self.b && self.u == SCALE - self.b - self.d
    }
}

/// `part * SCALE / whole`, rounded down: the share that `part` has of
/// `whole`, in parts of `SCALE`.
pub open spec fn share(part: int, whole: int) -> int
    recommends
        whole > 0,
{
    (part * SCALE) / whole
}

/// `x * y / SCALE`, rounded down: the product of two masses.
pub open spec fn scaled_product(x: int, y: int) -> int {
    (x * y) / (SCALE as int)
}

/// The opinion that `alpha` positive and `beta` negative observations
/// support when no evidence weighs `prior` parts of `SCALE`: belief is
/// `alpha / (alpha + beta + prior / SCALE)` and disbelief likewise, both
/// rounded down, and uncertainty is the rest of the unit.
pub open spec fn opinion_from_evidence(alpha: int, beta: int, prior: int) -> Opinion
    recommends
        alpha >= 0,
        beta >= 0,
        prior > 0,
{
    let whole = (alpha + beta) * SCALE + prior;
    let b = share(alpha * SCALE, whole);
    let d = share(beta * SCALE, whole);
    Opinion { b: b as u64, d: d as u64, u: (SCALE - b - d) as u64 }
}

proof fn lemma_floor(n: int, d: int)
    requires
        0 <= n,
        0 < d,
    ensures
        0 <= n / d,
        (n / d) * d <= n < (n / d + 1) * d,
{
    let q = n / d;
    vstd::arithmetic::div_mod::lemma_fundamental_div_mod(n, d);
    vstd::arithmetic::div_mod::lemma_mod_bound(n, d);
    assert(q * d == d * q) by (nonlinear_arith);
    assert((q + 1) * d == d * q + d) by (nonlinear_arith);
    assert(0 <= q) by (nonlinear_arith)
        requires
            0 <= n,
            0 < d,
            n < (q + 1) * d,
    ;
}

proof fn lemma_share_bounds(part: int, whole: int)
    requires
        0 <= part <= whole,
        whole > 0,
    ensures
        0 <= share(part, whole) <= SCALE,
        share(part, whole) * whole <= part * SCALE,
        part * SCALE < (share(part, whole) + 1) * whole,
{
    let n = part * SCALE;
    assert(0 <= n <= whole * SCALE) by (nonlinear_arith)
        requires
            0 <= part <= whole,
            n == part * SCALE,
    ;
    lemma_floor(n, whole);
    let q = share(part, whole);
    assert(q <= SCALE) by (nonlinear_arith)
        requires
            q * whole <= n,
            n <= whole * SCALE,
            whole > 0,
    ;
}

/// `op_bx` as seen through `op_ab`: what A holds of X when A trusts B by
/// `op_ab` and B holds `op_bx` of X.
pub open spec fn discounted(op_ab: Opinion, op_bx: Opinion) -> Opinion {
    let b = scaled_product(op_ab.b as int, op_bx.b as int);
    let d = scaled_product(op_ab.b as int, op_bx.d as int);
    Opinion { b: b as u64, d: d as u64, u: (SCALE - b - d) as u64 }
}

/// The denominator of consensus fusion, `u1 + u2 - u1 * u2`, in parts of
/// `SCALE * SCALE`.
pub open spec fn fusion_weight(o1: Opinion, o2: Opinion) -> int {
    SCALE * (o1.u + o2.u) - o1.u * o2.u
}

/// The consensus of two independent opinions about one proposition.
pub open spec fn fused(o1: Opinion, o2: Opinion) -> Opinion
    recommends
        o1.u + o2.u > 0,
{
    let k = fusion_weight(o1, o2);
    let b = share(o1.b * o2.u + o2.b * o1.u, k);
    let d = share(o1.d * o2.u + o2.d * o1.u, k);
    Opinion { b: b as u64, d: d as u64, u: (SCALE - b - d) as u64 }
}

/// `o` with belief and disbelief multiplied by `factor` (in parts of
/// `SCALE`) and the mass so released moved to uncertainty.
pub open spec fn decayed(o: Opinion, factor: u64) -> Opinion {
    let b = scaled_product(o.b as int, factor as int);
    let d = scaled_product(o.d as int, factor as int);
    Opinion { b: b as u64, d: d as u64, u: (SCALE - b - d) as u64 }
}

/// `o` after one decay step for each factor, first factor first.
pub open spec fn decayed_by_all(o: Opinion, factors: Seq<u64>) -> Opinion
    decreases factors.len(),
{
    if factors.len() == 0 {
        o
    } else {
        decayed(decayed_by_all(o, factors.drop_last()), factors.last())
    }
}

proof fn lemma_scaled_product_bounds(x: int, y: int)
    requires
        0 <= x <= SCALE,
        0 <= y <= SCALE,
    ensures
        0 <= x * y <= SCALE * SCALE,
        0 <= scaled_product(x, y) <= x,
        scaled_product(x, y) * SCALE <= x * y < (scaled_product(x, y) + 1) * SCALE,
{
    assert(0 <= x * y <= x * SCALE && x * SCALE <= SCALE * SCALE) by (nonlinear_arith)
        requires
            0 <= x <= SCALE,
            0 <= y <= SCALE,
    ;
    lemma_floor(x * y, SCALE as int);
    let q = scaled_product(x, y);
    assert(q <= x) by (nonlinear_arith)
        requires
            q * SCALE <= x * y,
            x * y <= x * SCALE,
    ;
}

/// Three masses that make up one unit, each multiplied by `x` and rounded
/// down, fall short of `x` by less than three parts.
proof fn lemma_split_product(x: int, y1: int, y2: int, y3: int)
    requires
        0 <= x <= SCALE,
        0 <= y1,
        0 <= y2,
        0 <= y3,
        y1 + y2 + y3 == SCALE,
    ensures
        scaled_product(x, y1) + scaled_product(x, y2) + scaled_product(x, y3) <= x,
        x <= scaled_product(x, y1) + scaled_product(x, y2) + scaled_product(x, y3) + 2,
{
    lemma_scaled_product_bounds(x, y1);
    lemma_scaled_product_bounds(x, y2);
    lemma_scaled_product_bounds(x, y3);
    let q1 = scaled_product(x, y1);
    let q2 = scaled_product(x, y2);
    let q3 = scaled_product(x, y3);
    assert(x * y1 + x * y2 + x * y3 == x * SCALE) by (nonlinear_arith)
        requires
            y1 + y2 + y3 == SCALE,
    ;
    assert(q1 + q2 + q3 <= x) by (nonlinear_arith)
        requires
            q1 * SCALE <= x * y1,
            q2 * SCALE <= x * y2,
            q3 * SCALE <= x * y3,
            x * y1 + x * y2 + x * y3 == x * SCALE,
    ;
    assert(x < q1 + q2 + q3 + 3) by (nonlinear_arith)
        requires
            x * y1 < (q1 + 1) * SCALE,
            x * y2 < (q2 + 1) * SCALE,
            x * y3 < (q3 + 1) * SCALE,
            x * y1 + x * y2 + x * y3 == x * SCALE,
    ;
}

/// Three parts that make up the whole, each turned into a share and
/// rounded down, fall short of one unit by less than three parts.
proof fn lemma_split_share(first: int, second: int, third: int, whole: int)
    requires
        0 <= first,
        0 <= second,
        0 <= third,
        first + second + third == whole,
        whole > 0,
    ensures
        0 <= share(first, whole),
        0 <= share(second, whole),
        share(first, whole) + share(second, whole) + share(third, whole) <= SCALE,
        SCALE <= share(first, whole) + share(second, whole) + share(third, whole) + 2,
{
    lemma_share_bounds(first, whole);
    lemma_share_bounds(second, whole);
    lemma_share_bounds(third, whole);
    let s1 = share(first, whole);
    let s2 = share(second, whole);
    let s3 = share(third, whole);
    assert(first * SCALE + second * SCALE + third * SCALE == whole * SCALE) by (nonlinear_arith)
        requires
            first + second + third == whole,
    ;
    assert(s1 + s2 + s3 <= SCALE) by (nonlinear_arith)
        requires
            s1 * whole <= first * SCALE,
            s2 * whole <= second * SCALE,
            s3 * whole <= third * SCALE,
            first * SCALE + second * SCALE + third * SCALE == whole * SCALE,
            whole > 0,
    ;
    assert(SCALE < s1 + s2 + s3 + 3) by (nonlinear_arith)
        requires
            first * SCALE < (s1 + 1) * whole,
            second * SCALE < (s2 + 1) * whole,
            third * SCALE < (s3 + 1) * whole,
            first * SCALE + second * SCALE + third * SCALE == whole * SCALE,
            whole > 0,
    ;
}

/// `part * SCALE / whole`, rounded down, by long division in two steps
/// of a million each, so that no intermediate value outgrows 128 bits.
fn share_of(part: u128, whole: u128) -> (q: u64)
    requires
        part <= whole,
        0 < whole,
        whole * 1_000_000 <= u128::MAX,
    ensures
        q == share(part as int, whole as int),
        q <= SCALE,
{
    let step: u128 = 1_000_000;
    assert(part * step <= whole * step) by (nonlinear_arith)
        requires
            part <= whole,
            step >= 0,
    ;
    let high: u128 = (part * step) / whole;
    let carry: u128 = (part * step) % whole;
    assert(carry * step <= whole * step) by (nonlinear_arith)
        requires
            carry <= whole,
            step >= 0,
    ;
    let low: u128 = (carry * step) / whole;
    proof {
        let (p, w, h, c, l) = (part as int, whole as int, high as int, carry as int, low as int);
        let rest = (c * 1_000_000) % w;
        vstd::arithmetic::div_mod::lemma_fundamental_div_mod(p * 1_000_000, w);
        vstd::arithmetic::div_mod::lemma_fundamental_div_mod(c * 1_000_000, w);
        assert(p * SCALE == (h * 1_000_000 + l) * w + rest) by (nonlinear_arith)
            requires
                p * 1_000_000 == w * h + c,
                c * 1_000_000 == w * l + rest,
                SCALE == 1_000_000 * 1_000_000,
        ;
        vstd::arithmetic::div_mod::lemma_fundamental_div_mod_converse(
            p * SCALE,
            w,
            h * 1_000_000 + l,
            rest,
        );
        lemma_share_bounds(p, w);
    }
    (high * step + low) as u64
}

/// Maps evidence counts to an opinion. `alpha` and `beta` count the
/// positive and the negative observations; `prior` is the weight of "no
/// evidence", in parts of [`SCALE`], so that it need not be a whole number.
/// Belief is `alpha / (alpha + beta + prior)`, disbelief is `beta / (alpha +
/// beta + prior)`, both rounded down to a part of `SCALE`, and uncertainty
/// is what remains of the unit: `prior / (alpha + beta + prior)` up to the
/// two parts that rounding may move.
///
/// The prior must be positive: a prior of zero is rejected with
/// [`TrustError::InvalidArgument`]. With a positive prior the denominator
/// is never zero, and with no evidence at all the result is total
/// uncertainty.
pub fn evidence_to_opinion(alpha: u64, beta: u64, prior: u64) -> (r: Result<Opinion, TrustError>)
    ensures
        prior == 0 ==> r == Err::<Opinion, TrustError>(TrustError::InvalidArgument),
        prior > 0 ==> r == Ok::<Opinion, TrustError>(
            opinion_from_evidence(alpha as int, beta as int, prior as int),
        ),
        r is Ok ==> r->Ok_0.is_valid(),
        r is Ok ==> share(prior as int, (alpha + beta) * SCALE + prior) <= r->Ok_0.u <= share(
            prior as int,
            (alpha + beta) * SCALE + prior,
        ) + 2,
        alpha == 0 && beta == 0 && prior > 0 ==> r == Ok::<Opinion, TrustError>(Opinion::vacuous()),
{
    if prior == 0 {
        return Err(TrustError::InvalidArgument);
    }
    let scale: u128 = SCALE as u128;
    assert(alpha * scale <= 0xffff_ffff_ffff_ffff * scale && beta * scale <= 0xffff_ffff_ffff_ffff
        * scale) by (nonlinear_arith)
        requires
            alpha <= 0xffff_ffff_ffff_ffff,
            beta <= 0xffff_ffff_ffff_ffff,
            scale >= 0,
    ;
    let positive: u128 = alpha as u128 * scale;
    let negative: u128 = beta as u128 * scale;
    let whole: u128 = positive + negative + prior as u128;
    proof {
        assert((alpha + beta) * SCALE == positive + negative) by (nonlinear_arith)
            requires
                positive == alpha * SCALE,
                negative == beta * SCALE,
        ;
        lemma_split_share(positive as int, negative as int, prior as int, whole as int);
    }
    let b: u64 = share_of(positive, whole);
    let d: u64 = share_of(negative, whole);
    let u: u64 = SCALE - b - d;
    Ok(Opinion { b, d, u })
}

/// Trust through an intermediary: belief is `op_ab.b * op_bx.b`, disbelief
/// is `op_ab.b * op_bx.d`, both rounded down, and uncertainty is what
/// remains of the unit. The remainder is `op_ab.d + op_ab.u + op_ab.b *
/// op_bx.u` up to the two parts that rounding may move.
///
/// The operator is not commutative: the first argument is the trust placed
/// in the intermediary, the second the intermediary's own opinion.
pub fn discounting(op_ab: Opinion, op_bx: Opinion) -> (op_ax: Opinion)
    requires
        op_ab.is_valid(),
        op_bx.is_valid(),
    ensures
        op_ax == discounted(op_ab, op_bx),
        op_ax.is_valid(),
        op_ab.d + op_ab.u + scaled_product(op_ab.b as int, op_bx.u as int) <= op_ax.u,
        op_ax.u <= op_ab.d + op_ab.u + scaled_product(op_ab.b as int, op_bx.u as int) + 2,
{
    proof {
        lemma_scaled_product_bounds(op_ab.b as int, op_bx.b as int);
        lemma_scaled_product_bounds(op_ab.b as int, op_bx.d as int);
        lemma_split_product(op_ab.b as int, op_bx.b as int, op_bx.d as int, op_bx.u as int);
    }
    let b: u64 = ((op_ab.b as u128 * op_bx.b as u128) / (SCALE as u128)) as u64;
    let d: u64 = ((op_ab.b as u128 * op_bx.d as u128) / (SCALE as u128)) as u64;
    let u: u64 = SCALE - b - d;
    Opinion { b, d, u }
}

proof fn lemma_fusion_weight(o1: Opinion, o2: Opinion)
    requires
        o1.is_valid(),
        o2.is_valid(),
    ensures
        0 <= o1.b * o2.u + o2.b * o1.u <= 2 * SCALE * SCALE,
        0 <= o1.d * o2.u + o2.d * o1.u <= 2 * SCALE * SCALE,
        0 <= o1.u * o2.u,
        (o1.b * o2.u + o2.b * o1.u) + (o1.d * o2.u + o2.d * o1.u) + o1.u * o2.u == fusion_weight(
            o1,
            o2,
        ),
        fusion_weight(o1, o2) <= 2 * SCALE * SCALE,
        o1.u + o2.u > 0 ==> fusion_weight(o1, o2) > 0,
{
    let s = SCALE as int;
    let (b1, d1, u1) = (o1.b as int, o1.d as int, o1.u as int);
    let (b2, d2, u2) = (o2.b as int, o2.d as int, o2.u as int);
    assert(0 <= b1 * u2 <= s * s && 0 <= b2 * u1 <= s * s && 0 <= d1 * u2 <= s * s && 0 <= d2
        * u1 <= s * s && 0 <= u1 * u2 <= s * s) by (nonlinear_arith)
        requires
            0 <= b1 <= s,
            0 <= d1 <= s,
            0 <= u1 <= s,
            0 <= b2 <= s,
            0 <= d2 <= s,
            0 <= u2 <= s,
    ;
    assert((b1 * u2 + b2 * u1) + (d1 * u2 + d2 * u1) + u1 * u2 == s * (u1 + u2) - u1 * u2)
        by (nonlinear_arith)
        requires
            b1 + d1 + u1 == s,
            b2 + d2 + u2 == s,
    ;
    assert(s * (u1 + u2) - u1 * u2 <= 2 * s * s) by (nonlinear_arith)
        requires
            0 <= u1 <= s,
            0 <= u2 <= s,
    ;
    assert(2 * SCALE * SCALE == 2 * s * s);
    if u1 + u2 > 0 {
        assert(s * (u1 + u2) - u1 * u2 > 0) by (nonlinear_arith)
            requires
                0 <= u1 <= s,
                0 <= u2 <= s,
                u1 + u2 > 0,
                s > 0,
        ;
    }
}

/// Combines two independent opinions about the same proposition. With
/// `k = u1 + u2 - u1 * u2`, belief is `(b1 * u2 + b2 * u1) / k`, disbelief is
/// `(d1 * u2 + d2 * u1) / k`, both rounded down, and uncertainty is what
/// remains of the unit: `u1 * u2 / k` up to the two parts that rounding may
/// move.
///
/// Two fully certain opinions have no consensus: when both uncertainties
/// are zero the fusion is rejected with [`TrustError::DegenerateInput`].
pub fn consensus_fusion(o1: Opinion, o2: Opinion) -> (r: Result<Opinion, TrustError>)
    requires
        o1.is_valid(),
        o2.is_valid(),
    ensures
        o1.u == 0 && o2.u == 0 ==> r == Err::<Opinion, TrustError>(TrustError::DegenerateInput),
        o1.u + o2.u > 0 ==> r == Ok::<Opinion, TrustError>(fused(o1, o2)),
        r is Ok ==> r->Ok_0.is_valid(),
        r is Ok ==> share(o1.u * o2.u, fusion_weight(o1, o2)) <= r->Ok_0.u <= share(
            o1.u * o2.u,
            fusion_weight(o1, o2),
        ) + 2,
{
    if o1.u == 0 && o2.u == 0 {
        return Err(TrustError::DegenerateInput);
    }
    let scale: u128 = SCALE as u128;
    proof {
        lemma_fusion_weight(o1, o2);
        let k = fusion_weight(o1, o2);
        let nb = o1.b * o2.u + o2.b * o1.u;
        let nd = o1.d * o2.u + o2.d * o1.u;
        lemma_split_share(nb, nd, o1.u * o2.u, k);
        assert(2 * SCALE * SCALE * SCALE <= u128::MAX) by (nonlinear_arith)
            requires
                SCALE == 1_000_000_000_000,
        ;
        assert(nb * SCALE <= 2 * SCALE * SCALE * SCALE && nd * SCALE <= 2 * SCALE * SCALE * SCALE)
            by (nonlinear_arith)
            requires
                nb <= 2 * SCALE * SCALE,
                nd <= 2 * SCALE * SCALE,
        ;
        assert(SCALE * (o1.u + o2.u) <= 2 * SCALE * SCALE) by (nonlinear_arith)
            requires
                o1.u <= SCALE,
                o2.u <= SCALE,
        ;
        assert(o1.b * o2.u <= SCALE * SCALE && o2.b * o1.u <= SCALE * SCALE && o1.d * o2.u <= SCALE
            * SCALE && o2.d * o1.u <= SCALE * SCALE && o1.u * o2.u <= SCALE * SCALE)
            by (nonlinear_arith)
            requires
                o1.b <= SCALE,
                o1.d <= SCALE,
                o1.u <= SCALE,
                o2.b <= SCALE,
                o2.d <= SCALE,
                o2.u <= SCALE,
        ;
        assert(SCALE * SCALE <= 2 * SCALE * SCALE <= u128::MAX) by (nonlinear_arith)
            requires
                SCALE == 1_000_000_000_000,
        ;
    }
    let k: u128 = scale * (o1.u as u128 + o2.u as u128) - o1.u as u128 * o2.u as u128;
    let nb: u128 = o1.b as u128 * o2.u as u128 + o2.b as u128 * o1.u as u128;
    let nd: u128 = o1.d as u128 * o2.u as u128 + o2.d as u128 * o1.u as u128;
    let b: u64 = ((nb * scale) / k) as u64;
    let d: u64 = ((nd * scale) / k) as u64;
    let u: u64 = SCALE - b - d;
    Ok(Opinion { b, d, u })
}

/// Attenuates an opinion by one trust-graph hop: belief and disbelief are
/// multiplied by `lambda`, a factor between zero and one in parts of
/// [`SCALE`], and rounded down; uncertainty is recomputed as what remains of
/// the unit, so it never shrinks.
pub fn hop_decay(o: Opinion, lambda: u64) -> (r: Opinion)
    requires
        o.is_valid(),
        lambda <= SCALE,
    ensures
        r == decayed(o, lambda),
        r.is_valid(),
        r.b <= o.b,
        r.d <= o.d,
        r.u >= o.u,
{
    proof {
        lemma_scaled_product_bounds(o.b as int, lambda as int);
        lemma_scaled_product_bounds(o.d as int, lambda as int);
    }
    let b: u64 = ((o.b as u128 * lambda as u128) / (SCALE as u128)) as u64;
    let d: u64 = ((o.d as u128 * lambda as u128) / (SCALE as u128)) as u64;
    let u: u64 = SCALE - b - d;
    Opinion { b, d, u }
}

/// Ages an opinion toward ignorance. `decay` is the share of belief and
/// disbelief that survives the elapsed time, `0.5` to the power of elapsed
/// time over half-life, in parts of [`SCALE`]; the caller computes it.
/// Belief and disbelief are multiplied by it and rounded down, and
/// uncertainty is recomputed as what remains of the unit.
pub fn time_decay(o: Opinion, decay: u64) -> (r: Opinion)
    requires
        o.is_valid(),
        decay <= SCALE,
    ensures
        r == decayed(o, decay),
        r.is_valid(),
        r.b <= o.b,
        r.d <= o.d,
        r.u >= o.u,
{
    hop_decay(o, decay)
}

/// Decay keeps an opinion valid: after any number of time or hop decay
/// steps, with factors between zero and one, belief, disbelief and
/// uncertainty still add up to exactly one unit, and uncertainty has not
/// shrunk.
pub proof fn lemma_decay_preserves_validity(o: Opinion, factors: Seq<u64>)
    requires
        o.is_valid(),
        forall|i: int| 0 <= i < factors.len() ==> factors[i] <= SCALE,
    ensures
        forall|n: int|
            0 <= n <= factors.len() ==> (#[trigger] decayed_by_all(o, factors.take(n))).is_valid(),
        decayed_by_all(o, factors).is_valid(),
        decayed_by_all(o, factors).u >= o.u,
    decreases factors.len(),
{
    if factors.len() > 0 {
        let init = factors.drop_last();
        lemma_decay_preserves_validity(o, init);
        let prev = decayed_by_all(o, init);
        lemma_scaled_product_bounds(prev.b as int, factors.last() as int);
        lemma_scaled_product_bounds(prev.d as int, factors.last() as int);
        assert forall|n: int| 0 <= n <= factors.len() implies (#[trigger] decayed_by_all(
            o,
            factors.take(n),
        )).is_valid() by {
            if n < factors.len() {
                assert(factors.take(n) =~= init.take(n));
            } else {
                assert(factors.take(n) =~= factors);
            }
        }
    } else {
        assert forall|n: int| 0 <= n <= factors.len() implies (#[trigger] decayed_by_all(
            o,
            factors.take(n),
        )).is_valid() by {
            assert(factors.take(n) =~= factors);
        }
    }
}

/// Consensus does not depend on the order of the two opinions.
pub proof fn lemma_fusion_commutes(o1: Opinion, o2: Opinion)
    ensures
        fused(o1, o2) == fused(o2, o1),
{
    assert(o1.u * o2.u == o2.u * o1.u) by (nonlinear_arith);
    assert(fusion_weight(o1, o2) == fusion_weight(o2, o1));
    assert(o1.b * o2.u + o2.b * o1.u == o2.b * o1.u + o1.b * o2.u);
    assert(o1.d * o2.u + o2.d * o1.u == o2.d * o1.u + o1.d * o2.u);
}

/// Total uncertainty adds nothing to a consensus: fusing a valid opinion
/// with it gives the opinion back.
pub proof fn lemma_fusion_with_vacuous(o: Opinion)
    requires
        o.is_valid(),
    ensures
        fused(o, Opinion::vacuous()) == o,
        fused(Opinion::vacuous(), o) == o,
{
    let s = SCALE as int;
    let (b, d, u) = (o.b as int, o.d as int, o.u as int);
    assert(fusion_weight(o, Opinion::vacuous()) == s * s) by (nonlinear_arith)
        requires
            fusion_weight(o, Opinion::vacuous()) == s * (u + s) - u * s,
    ;
    assert(s * s > 0) by (nonlinear_arith)
        requires
            s > 0,
    ;
    assert((b * s + 0 * u) * s == (s * s) * b && (d * s + 0 * u) * s == (s * s) * d)
        by (nonlinear_arith);
    vstd::arithmetic::div_mod::lemma_div_multiples_vanish(b, s * s);
    vstd::arithmetic::div_mod::lemma_div_multiples_vanish(d, s * s);
    assert(share(b * s + 0 * u, s * s) == b);
    assert(share(d * s + 0 * u, s * s) == d);
    lemma_fusion_commutes(Opinion::vacuous(), o);
}

} // verus!
