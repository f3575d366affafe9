//! What holds of every percentage and of every number that a decimal holds.
use crate::decimal::{decimal_product, integer_view, pow10, DecimalView};
use crate::percentage::Percentage;
use rust_decimal::Decimal;
use vstd::prelude::*;
use vstd::std_specs::cmp::PartialEqSpec;
use vstd::std_specs::convert::FromSpec;

verus! {

/// A percentage made of a decimal gives that decimal back, and a percentage is
/// the one made of its decimal: nothing is lost or added on the way.
pub proof fn law_decimal_round_trip(d: Decimal, p: Percentage)
    ensures
        Percentage::from_spec(d).decimal() == d,
        Percentage::from_spec(p.decimal()) == p,
{
}

/// An integer comes back from its decimal: the decimal made of `n` has `n` as
/// its integer part and as its mantissa, and equals no other integer's.
pub proof fn law_integer_round_trip(n: int, m: int)
    ensures
        integer_view(n).integer_part() == n,
        integer_view(n).mantissa() == n,
        integer_view(n).same_number(integer_view(m)) <==> n == m,
{
    let one = pow10(0);
    assert(one == 1);
    assert(integer_view(n).coefficient / one == integer_view(n).coefficient);
    assert(n * one == n && m * one == m);
}

/// A power of ten is positive.
proof fn lemma_pow10_positive(e: nat)
    ensures
        pow10(e) > 0,
    decreases e,
{
    if e > 0 {
        lemma_pow10_positive((e - 1) as nat);
    }
}

/// A positive factor can be cancelled.
proof fn lemma_cancel(x: int, y: int, k: int)
    by (nonlinear_arith)
    requires
        k > 0,
        x * k == y * k,
    ensures
        x == y,
{
}

/// From `a : b` and `b : c` to `a : c`, both sides times the power of ten of
/// `b`.
proof fn lemma_chain(am: int, bm: int, cm: int, ak: int, bk: int, ck: int)
    by (nonlinear_arith)
    requires
        am * bk == bm * ak,
        bm * ck == cm * bk,
    ensures
        (am * ck) * bk == (cm * ak) * bk,
{
}

/// Two views that stand for the number of a third stand for one number.
proof fn lemma_same_number_chains(a: DecimalView, b: DecimalView, c: DecimalView)
    requires
        a.same_number(b),
        b.same_number(c),
    ensures
        a.same_number(c),
{
    let bk = pow10(b.scale) as int;
    lemma_pow10_positive(b.scale);
    lemma_chain(
        a.mantissa(),
        b.mantissa(),
        c.mantissa(),
        pow10(a.scale) as int,
        bk,
        pow10(c.scale) as int,
    );
    lemma_cancel(a.mantissa() * pow10(c.scale), c.mantissa() * pow10(a.scale), bk);
}

/// `==` on percentages is an equivalence: every percentage equals itself,
/// equality does not depend on the side, and two percentages that equal a third
/// equal each other.
pub proof fn law_equality_is_equivalence(a: Percentage, b: Percentage, c: Percentage)
    ensures
        a.eq_spec(&a),
        a.eq_spec(&b) == b.eq_spec(&a),
        a.eq_spec(&b) && b.eq_spec(&c) ==> a.eq_spec(&c),
{
    if a.eq_spec(&b) && b.eq_spec(&c) {
        lemma_same_number_chains(a@, b@, c@);
    }
}

/// A quotient times its divisor, and the rest.
proof fn lemma_quotient(x: nat, k: nat)
    by (nonlinear_arith)
    requires
        k > 0,
    ensures
        (x / k) * k <= x < (x / k) * k + k,
{
}

/// Taking the tenth of a coefficient that ends in zero, and one off the scale,
/// leaves the number as it is.
proof fn lemma_strip_zero(m: int, tenth: int, k: int)
    by (nonlinear_arith)
    requires
        m == 10 * tenth,
    ensures
        m * k == tenth * (10 * k),
{
}

/// The integer part is the number rounded toward zero: it has the sign of the
/// number, and less than one unit lies between the two.
pub proof fn law_integer_part_drops_the_fraction(v: DecimalView)
    ensures
        !v.negative ==> 0 <= v.integer_part() * pow10(v.scale) <= v.mantissa() < (v.integer_part()
            + 1) * pow10(v.scale),
        v.negative ==> (v.integer_part() - 1) * pow10(v.scale) < v.mantissa() <= v.integer_part()
            * pow10(v.scale) <= 0,
{
    let k = pow10(v.scale);
    let q = v.coefficient / k;
    lemma_pow10_positive(v.scale);
    lemma_quotient(v.coefficient, k);
    assert((q + 1) * k == q * k + k && (-q - 1) * k == -(q * k) - k && (-q) * k == -(q * k))
        by (nonlinear_arith);
    assert(q * k >= 0) by (nonlinear_arith)
        requires
            q >= 0,
            k > 0,
    ;
}

/// A factor on both sides keeps the order.
proof fn lemma_scale_order(x: int, y: int, k: int)
    by (nonlinear_arith)
    requires
        k > 0,
    ensures
        x <= y <==> x * k <= y * k,
        x < y <==> x * k < y * k,
{
}

/// The quotient is the one number whose multiple lies within a divisor below.
proof fn lemma_quotient_is_unique(x: nat, k: nat, q: nat)
    by (nonlinear_arith)
    requires
        k > 0,
        q * k <= x < q * k + k,
    ensures
        x / k == q,
{
}

/// Products of three factors, rearranged.
proof fn lemma_rearrange(q: int, k1: int, k2: int)
    by (nonlinear_arith)
    ensures
        (q * k1) * k2 == (q * k2) * k1,
        (q * k1 + k1) * k2 == (q * k2 + k2) * k1,
{
}

/// Two fractions of one value have the same whole part.
proof fn lemma_same_quotient(c1: nat, k1: nat, c2: nat, k2: nat)
    requires
        k1 > 0,
        k2 > 0,
        c1 * k2 == c2 * k1,
    ensures
        c1 / k1 == c2 / k2,
{
    let q = c1 / k1;
    lemma_quotient(c1, k1);
    lemma_rearrange(q as int, k1 as int, k2 as int);
    lemma_scale_order((q * k1) as int, c1 as int, k2 as int);
    lemma_scale_order(c1 as int, (q * k1 + k1) as int, k2 as int);
    lemma_scale_order((q * k2) as int, c2 as int, k1 as int);
    lemma_scale_order(c2 as int, (q * k2 + k2) as int, k1 as int);
    lemma_quotient_is_unique(c2, k2, q);
}

/// Numbers of opposite signs are equal only where both are zero.
proof fn lemma_opposite_signs(c1: nat, k1: nat, c2: nat, k2: nat)
    by (nonlinear_arith)
    requires
        k1 > 0,
        k2 > 0,
        c1 * k2 == -(c2 * k1),
    ensures
        c1 == 0,
        c2 == 0,
{
}

/// Equal numbers have equal integer parts, whatever their scales: `1.50` and
/// `1.5` both become `1`.
pub proof fn law_same_number_same_integer_part(a: DecimalView, b: DecimalView)
    requires
        a.same_number(b),
    ensures
        a.integer_part() == b.integer_part(),
{
    let k1 = pow10(a.scale);
    let k2 = pow10(b.scale);
    lemma_pow10_positive(a.scale);
    lemma_pow10_positive(b.scale);
    assert((-(a.coefficient as int)) * k2 == -(a.coefficient * k2) && (-(b.coefficient as int))
        * k1 == -(b.coefficient * k1)) by (nonlinear_arith);
    if a.negative == b.negative {
        lemma_same_quotient(a.coefficient, k1, b.coefficient, k2);
    } else {
        if a.negative {
            lemma_opposite_signs(b.coefficient, k2, a.coefficient, k1);
        } else {
            lemma_opposite_signs(a.coefficient, k1, b.coefficient, k2);
        }
        assert(0nat / k1 == 0 && 0nat / k2 == 0) by (nonlinear_arith)
            requires
                k1 > 0,
                k2 > 0,
        ;
    }
}

/// What is written out is the number itself: taking the trailing zeros off
/// leaves the number, does not raise the scale, and has nothing left to take
/// off.
pub proof fn law_normalized_is_same_number(v: DecimalView)
    ensures
        v.same_number(v.normalized()),
        v.normalized().scale <= v.scale,
        v.normalized().normalized() == v.normalized(),
    decreases v.scale,
{
    if v.coefficient != 0 && v.scale > 0 && v.coefficient % 10 == 0 {
        let stripped = DecimalView {
            negative: v.negative,
            coefficient: v.coefficient / 10,
            scale: (v.scale - 1) as nat,
        };
        law_normalized_is_same_number(stripped);
        lemma_strip_zero(v.mantissa(), stripped.mantissa(), pow10(stripped.scale) as int);
        assert(v.same_number(stripped));
        lemma_same_number_chains(v, stripped, stripped.normalized());
    } else if v.coefficient == 0 {
        assert(v.mantissa() == 0 && v.normalized().mantissa() == 0);
        assert(0 * pow10(v.normalized().scale) == 0 * pow10(v.scale)) by (nonlinear_arith);
    }
}

/// A power of ten is the product of the powers of two parts of its exponent.
proof fn lemma_pow10_splits(low: nat, more: nat)
    ensures
        pow10(low + more) == pow10(low) * pow10(more),
    decreases more,
{
    if more > 0 {
        lemma_pow10_splits(low, (more - 1) as nat);
        assert(10 * (pow10(low) * pow10((more - 1) as nat)) == pow10(low) * (10 * pow10(
            (more - 1) as nat,
        ))) by (nonlinear_arith);
    } else {
        assert(pow10(low) * 1 == pow10(low)) by (nonlinear_arith);
    }
}

/// A coefficient that equals another one times a power of ten above the first
/// ends in zero.
proof fn lemma_ends_in_zero(c1: nat, c2: nat, k: nat, rest: nat)
    by (nonlinear_arith)
    requires
        k > 0,
        c1 * k == c2 * (k * (10 * rest)),
    ensures
        c1 % 10 == 0,
{
    assert(c1 * k == (c2 * (10 * rest)) * k);
    assert(c1 == 10 * (c2 * rest));
}

/// Whether `v` is not zero and has no trailing zero left to take off.
spec fn is_stripped(v: DecimalView) -> bool {
    v.coefficient != 0 && !(v.scale > 0 && v.coefficient % 10 == 0)
}

/// Of two views of one number, neither of them with a zero to take off, the
/// first has no larger scale than the second.
proof fn lemma_stripped_scales(a: DecimalView, b: DecimalView)
    requires
        a.same_number(b),
        is_stripped(a),
        is_stripped(b),
    ensures
        a.scale <= b.scale,
{
    if a.scale > b.scale {
        let more = (a.scale - b.scale) as nat;
        lemma_pow10_positive(a.scale);
        lemma_pow10_positive(b.scale);
        lemma_pow10_splits(b.scale, more);
        let rest = pow10((more - 1) as nat);
        let k = pow10(b.scale);
        assert((-(a.coefficient as int)) * k == -(a.coefficient * k) && (-(b.coefficient as int))
            * (k * (10 * rest)) == -(b.coefficient * (k * (10 * rest)))) by (nonlinear_arith);
        if a.negative == b.negative {
            lemma_ends_in_zero(a.coefficient, b.coefficient, k, rest);
        } else if a.negative {
            lemma_opposite_signs(b.coefficient, k, a.coefficient, pow10(a.scale));
        } else {
            lemma_opposite_signs(a.coefficient, pow10(a.scale), b.coefficient, k);
        }
    }
}

/// Equal numbers are written alike: the trailing zeros taken off, nothing but
/// the number is left of a view.
pub proof fn law_same_number_same_normal_form(a: DecimalView, b: DecimalView)
    requires
        a.same_number(b),
    ensures
        a.normalized() == b.normalized(),
    decreases a.scale + b.scale,
{
    lemma_pow10_positive(a.scale);
    lemma_pow10_positive(b.scale);
    let ka = pow10(a.scale);
    let kb = pow10(b.scale);
    assert((-(a.coefficient as int)) * kb == -(a.coefficient * kb) && (-(b.coefficient as int))
        * ka == -(b.coefficient * ka)) by (nonlinear_arith);
    if a.coefficient == 0 || b.coefficient == 0 {
        assert(a.coefficient == 0 && b.coefficient == 0) by (nonlinear_arith)
            requires
                ka > 0,
                kb > 0,
                a.coefficient * kb == b.coefficient * ka || a.coefficient * kb == -(b.coefficient
                    * ka) || -(a.coefficient * kb) == b.coefficient * ka,
                a.coefficient == 0 || b.coefficient == 0,
        ;
    } else if a.scale > 0 && a.coefficient % 10 == 0 {
        let shorter = DecimalView {
            negative: a.negative,
            coefficient: a.coefficient / 10,
            scale: (a.scale - 1) as nat,
        };
        lemma_strip_zero(a.mantissa(), shorter.mantissa(), pow10(shorter.scale) as int);
        lemma_same_number_chains(shorter, a, b);
        law_same_number_same_normal_form(shorter, b);
    } else if b.scale > 0 && b.coefficient % 10 == 0 {
        let shorter = DecimalView {
            negative: b.negative,
            coefficient: b.coefficient / 10,
            scale: (b.scale - 1) as nat,
        };
        lemma_strip_zero(b.mantissa(), shorter.mantissa(), pow10(shorter.scale) as int);
        lemma_same_number_chains(a, b, shorter);
        law_same_number_same_normal_form(a, shorter);
    } else {
        lemma_stripped_scales(a, b);
        lemma_stripped_scales(b, a);
        if a.negative == b.negative {
            lemma_cancel(a.coefficient as int, b.coefficient as int, ka as int);
        } else if a.negative {
            lemma_opposite_signs(b.coefficient, kb, a.coefficient, ka);
        } else {
            lemma_opposite_signs(a.coefficient, ka, b.coefficient, kb);
        }
    }
}

/// What is written of a percentage depends on the number of percent alone: two
/// percentages whose hundredfolds are the same number are written alike.
pub proof fn law_text_depends_on_the_number(p: Percentage, q: Percentage)
    requires
        decimal_product(p@, integer_view(100)) matches Some(a) && decimal_product(
            q@,
            integer_view(100),
        ) matches Some(b) && a.same_number(b),
    ensures
        p.text() == q.text(),
{
    law_same_number_same_normal_form(
        decimal_product(p@, integer_view(100))->0,
        decimal_product(q@, integer_view(100))->0,
    );
}

} // verus!
