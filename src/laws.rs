//! What holds of every chain of operators on the wrappers.
use vstd::prelude::*;
use vstd::std_specs::cmp::PartialEqSpec;
use vstd::std_specs::ops::{AddSpec, DivSpec, MulSpec, SubSpec};

use crate::{Checked, CheckedAdd, CheckedDiv, CheckedMul, CheckedSub, Unchecked};

verus! {

broadcast use crate::group_wrapper_views;

/// One operator of a chain, with its right-hand operand.
pub enum Step<R> {
    Add(R),
    Sub(R),
    Mul(R),
    Div(R),
}

/// The `Unchecked` that applying `s` to `u` gives.
pub open spec fn apply_step<T, D, R>(u: Unchecked<T, D>, s: Step<R>) -> Unchecked<T, D>
    where
        T: CheckedAdd<R, Output = T> + CheckedSub<R, Output = T> + CheckedMul<R, Output = T>
            + CheckedDiv<R, Output = T>,
{
    Unchecked::spec_new(
        match u@ {
            None => None,
            Some(v) => match s {
                Step::Add(r) => v.spec_checked_add(r),
                Step::Sub(r) => v.spec_checked_sub(r),
                Step::Mul(r) => v.spec_checked_mul(r),
                Step::Div(r) => v.spec_checked_div(r),
            },
        },
    )
}

/// A step is its operator applied to an `Unchecked`.
pub proof fn lemma_step_is_operator<T, D, R>(u: Unchecked<T, D>, r: R)
    where
        T: CheckedAdd<R, Output = T> + CheckedSub<R, Output = T> + CheckedMul<R, Output = T>
            + CheckedDiv<R, Output = T>,
    ensures
        apply_step(u, Step::Add(r)) == u.add_spec(r),
        apply_step(u, Step::Sub(r)) == u.sub_spec(r),
        apply_step(u, Step::Mul(r)) == u.mul_spec(r),
        apply_step(u, Step::Div(r)) == u.div_spec(r),
{
}

/// The `Unchecked` that applying the steps to `u`, first to last, gives.
pub open spec fn apply_steps<T, D, R>(u: Unchecked<T, D>, steps: Seq<Step<R>>) -> Unchecked<T, D>
    where
        T: CheckedAdd<R, Output = T> + CheckedSub<R, Output = T> + CheckedMul<R, Output = T>
            + CheckedDiv<R, Output = T>,
    decreases steps.len(),
{
    if steps.len() == 0 {
        u
    } else {
        apply_steps(apply_step(u, steps[0]), steps.skip(1))
    }
}

/// An operator on a `Checked` records exactly what the checked operation on
/// the raw values gives: where that does not overflow, the collapsed result
/// is the raw result itself.
pub proof fn lemma_operators_are_checked_ops<T, D, R>(a: Checked<T, D>, b: R)
    where
        T: CheckedAdd<R> + CheckedSub<R> + CheckedMul<R> + CheckedDiv<R>,
    ensures
        a.add_spec(b)@ == a@.spec_checked_add(b),
        a.sub_spec(b)@ == a@.spec_checked_sub(b),
        a.mul_spec(b)@ == a@.spec_checked_mul(b),
        a.div_spec(b)@ == a@.spec_checked_div(b),
{
}

/// Once an operation in a chain overflows, every later operation reports
/// overflow too: an overflow never heals.
pub proof fn lemma_overflow_is_contagious<T, D, R>(u: Unchecked<T, D>, steps: Seq<Step<R>>)
    where
        T: CheckedAdd<R, Output = T> + CheckedSub<R, Output = T> + CheckedMul<R, Output = T>
            + CheckedDiv<R, Output = T>,
    requires
        u@ is None,
    ensures
        apply_steps(u, steps)@ is None,
    decreases steps.len(),
{
    if steps.len() > 0 {
        lemma_overflow_is_contagious(apply_step(u, steps[0]), steps.skip(1));
    }
}

/// Where `a op b` overflows, the chain that starts with it collapses to no
/// value, whatever operations follow.
pub proof fn lemma_overflow_never_collapses<T, D, R>(a: Checked<T, D>, b: R, steps: Seq<Step<R>>)
    where
        T: CheckedAdd<R, Output = T> + CheckedSub<R, Output = T> + CheckedMul<R, Output = T>
            + CheckedDiv<R, Output = T>,
    ensures
        a@.spec_checked_add(b) is None ==> apply_steps(a.add_spec(b), steps)@ is None,
        a@.spec_checked_sub(b) is None ==> apply_steps(a.sub_spec(b), steps)@ is None,
        a@.spec_checked_mul(b) is None ==> apply_steps(a.mul_spec(b), steps)@ is None,
        a@.spec_checked_div(b) is None ==> apply_steps(a.div_spec(b), steps)@ is None,
{
    if a@.spec_checked_add(b) is None {
        lemma_overflow_is_contagious(a.add_spec(b), steps);
    }
    if a@.spec_checked_sub(b) is None {
        lemma_overflow_is_contagious(a.sub_spec(b), steps);
    }
    if a@.spec_checked_mul(b) is None {
        lemma_overflow_is_contagious(a.mul_spec(b), steps);
    }
    if a@.spec_checked_div(b) is None {
        lemma_overflow_is_contagious(a.div_spec(b), steps);
    }
}

/// Where `==` on `T` follows its specification and is an equivalence, `==` on
/// `Checked`s of `T` follows its specification too and is an equivalence,
/// whatever their tags: reflexive, symmetric and transitive, and two
/// `Checked`s holding the same value are equal.
pub proof fn lemma_eq_is_equivalence<T: PartialEq, D1, D2, D3>(
    a: Checked<T, D1>,
    b: Checked<T, D2>,
    c: Checked<T, D3>,
)
    requires
        <T as PartialEqSpec>::obeys_eq_spec(),
        forall|x: T| #[trigger] x.eq_spec(&x),
        forall|x: T, y: T| #[trigger] x.eq_spec(&y) ==> y.eq_spec(&x),
        forall|x: T, y: T, z: T|
            #[trigger] x.eq_spec(&y) && #[trigger] y.eq_spec(&z) ==> x.eq_spec(&z),
    ensures
        <Checked<T, D1> as PartialEqSpec<Checked<T, D2>>>::obeys_eq_spec(),
        <Checked<T, D2> as PartialEqSpec<Checked<T, D1>>>::obeys_eq_spec(),
        <Checked<T, D1> as PartialEqSpec<Checked<T, D3>>>::obeys_eq_spec(),
        a.eq_spec(&a),
        a@ == b@ ==> a.eq_spec(&b) && b.eq_spec(&a),
        a.eq_spec(&b) ==> b.eq_spec(&a),
        a.eq_spec(&b) && b.eq_spec(&c) ==> a.eq_spec(&c),
{
}

} // verus!
