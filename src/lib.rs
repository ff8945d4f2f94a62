//! Integer arithmetic whose overflow is checked once, at the end of a chain.
//!
//! A [`Checked`] holds a value that no overflow has touched. Each arithmetic
//! operator on it performs the checked operation and gives an [`Unchecked`],
//! which holds either the result or the fact that an overflow happened. An
//! `Unchecked` supports the same operators, and an overflow, once recorded,
//! stays recorded. [`Unchecked::check`] is the only way back to a `Checked`.
use vstd::prelude::*;

mod base_checked_ops;
pub mod laws;

pub use base_checked_ops::{
    magnitude, trunc_div, trunc_rem, CheckedAbs, CheckedAdd, CheckedDiv, CheckedMul, CheckedNeg,
    CheckedRem, CheckedSub,
};

verus! {

/// Tag of a [`Checked`] whose value can be read through `*`.
#[derive(Debug, Clone, Copy)]
pub struct WithDeref;

/// Tag of a [`Checked`] whose value can be read only by an explicit call.
#[derive(Debug, Clone, Copy)]
pub struct WithoutDeref;

/// A value of `T` that no overflow has touched.
///
/// `D` is [`WithDeref`] or [`WithoutDeref`]; it decides whether `*` reads
/// the value and has no effect on arithmetic or equality.
#[derive(Debug)]
pub struct Checked<T, D = WithDeref> {
    v: T,
    _deref: core::marker::PhantomData<D>,
}

/// The result of arithmetic on a [`Checked`]: a value of `T`, or the record
/// that an overflow happened somewhere in the chain (`None` as a view).
#[derive(Debug)]
pub struct Unchecked<T, D = WithoutDeref> {
    v: Option<T>,
    _deref: core::marker::PhantomData<D>,
}

impl<T, D> View for Checked<T, D> {
    type V = T;

    closed spec fn view(&self) -> T {
        self.v
    }
}

impl<T, D> View for Unchecked<T, D> {
    type V = Option<T>;

    closed spec fn view(&self) -> Option<T> {
        self.v
    }
}

impl<T: Clone, D> Clone for Checked<T, D> {
    fn clone(&self) -> (r: Self)
        ensures
            cloned(self@, r@),
    {
        Checked { v: self.v.clone(), _deref: core::marker::PhantomData }
    }
}

impl<T: Copy, D> Copy for Checked<T, D> {}

impl<T: Clone, D> Clone for Unchecked<T, D> {
    fn clone(&self) -> (r: Self)
        ensures
            r@.is_some() == self@.is_some(),
            self@.is_some() ==> cloned(self@.unwrap(), r@.unwrap()),
    {
        Unchecked { v: self.v.clone(), _deref: core::marker::PhantomData }
    }
}

impl<T: Copy, D> Copy for Unchecked<T, D> {}

impl<T, D> Checked<T, D> {
    /// The `Checked` that holds `v`.
    pub closed spec fn spec_new(v: T) -> Self {
        Checked { v, _deref: core::marker::PhantomData }
    }

    /// The `Checked` made by `spec_new(v)` holds `v`.
    pub broadcast proof fn lemma_spec_new_view(v: T)
        ensures
            #[trigger] Self::spec_new(v)@ == v,
    {
    }

    /// Gives up the wrapper and returns the value it holds.
    pub fn into_inner(self) -> (r: T)
        ensures
            r == self@,
    {
        self.v
    }
}

impl<T: Clone, D> Checked<T, D> {
    /// Returns a clone of the value held.
    pub fn to_inner(&self) -> (r: T)
        ensures
            cloned(self@, r),
    {
        self.v.clone()
    }
}

impl<T> Checked<T, WithDeref> {
    /// Wraps `v` in a `Checked` that can be read through `*`.
    pub fn new_with_deref(v: T) -> (r: Checked<T, WithDeref>)
        ensures
            r@ == v,
    {
        Checked { v, _deref: core::marker::PhantomData }
    }

    /// Wraps `v` in a `Checked` that can be read through `*`.
    pub fn new(v: T) -> (r: Self)
        ensures
            r@ == v,
    {
        Checked { v, _deref: core::marker::PhantomData }
    }
}

impl<T> Checked<T, WithoutDeref> {
    /// Wraps `v` in a `Checked` that must be read by `to_inner` or `into_inner`.
    pub fn new_without_deref(v: T) -> (r: Checked<T, WithoutDeref>)
        ensures
            r@ == v,
    {
        Checked { v, _deref: core::marker::PhantomData }
    }
}

impl<T, D> From<T> for Checked<T, D> {
    fn from(v: T) -> (r: Self) {
        Checked { v, _deref: core::marker::PhantomData }
    }
}

impl<T, D> vstd::std_specs::convert::FromSpecImpl<T> for Checked<T, D> {
    open spec fn obeys_from_spec() -> bool {
        true
    }

    open spec fn from_spec(v: T) -> Self {
        Checked::spec_new(v)
    }
}

impl<T> core::ops::Deref for Checked<T, WithDeref> {
    type Target = T;

    fn deref(&self) -> (r: &T)
        ensures
            *r == self@,
    {
        &self.v
    }
}

impl<T: PartialEq, D1, D2> PartialEq<Checked<T, D1>> for Checked<T, D2> {
    fn eq(&self, other: &Checked<T, D1>) -> (r: bool) {
        self.v.eq(&other.v)
    }
}

impl<T: PartialEq, D1, D2> vstd::std_specs::cmp::PartialEqSpecImpl<Checked<T, D1>> for Checked<T, D2> {
    open spec fn obeys_eq_spec() -> bool {
        <T as vstd::std_specs::cmp::PartialEqSpec>::obeys_eq_spec()
    }

    open spec fn eq_spec(&self, other: &Checked<T, D1>) -> bool {
        vstd::std_specs::cmp::PartialEqSpec::eq_spec(&self@, &other@)
    }
}

impl<T: PartialEq, D> Eq for Checked<T, D> {}

impl<T, D> Unchecked<T, D> {
    /// The `Unchecked` that holds `v`.
    pub closed spec fn spec_new(v: Option<T>) -> Self {
        Unchecked { v, _deref: core::marker::PhantomData }
    }

    /// The `Unchecked` made by `spec_new(v)` holds `v`.
    pub broadcast proof fn lemma_spec_new_view(v: Option<T>)
        ensures
            #[trigger] Self::spec_new(v)@ == v,
    {
    }

    /// Converts back to a [`Checked`]: `None` if an overflow happened
    /// anywhere in the chain that produced `self`.
    pub fn check(self) -> (r: Option<Checked<T, D>>)
        ensures
            r.is_some() == self@.is_some(),
            r.is_some() ==> r.unwrap()@ == self@.unwrap(),
    {
        match self.v {
            Some(v) => Some(Checked { v, _deref: core::marker::PhantomData }),
            None => None,
        }
    }
}

/// What the spec constructors of both wrappers hold.
pub broadcast group group_wrapper_views {
    Checked::lemma_spec_new_view,
    Unchecked::lemma_spec_new_view,
}

/// `+` performs the checked addition and records its outcome.
impl<T: CheckedAdd<Rhs>, D, Rhs> core::ops::Add<Rhs> for Checked<T, D> {
    type Output = Unchecked<<T as CheckedAdd<Rhs>>::Output, D>;

    fn add(self, rhs: Rhs) -> (r: Self::Output) {
        Unchecked { v: self.v.checked_add(rhs), _deref: core::marker::PhantomData }
    }
}

impl<T: CheckedAdd<Rhs>, D, Rhs> vstd::std_specs::ops::AddSpecImpl<Rhs> for Checked<T, D> {
    open spec fn obeys_add_spec() -> bool {
        true
    }

    open spec fn add_req(self, rhs: Rhs) -> bool {
        true
    }

    open spec fn add_spec(self, rhs: Rhs) -> Self::Output {
        Unchecked::spec_new(self@.spec_checked_add(rhs))
    }
}

/// `+` performs the checked addition unless an overflow is already recorded.
impl<T: CheckedAdd<Rhs>, D, Rhs> core::ops::Add<Rhs> for Unchecked<T, D> {
    type Output = Unchecked<<T as CheckedAdd<Rhs>>::Output, D>;

    fn add(self, rhs: Rhs) -> (r: Self::Output) {
        match self.v {
            Some(v) => Unchecked { v: v.checked_add(rhs), _deref: core::marker::PhantomData },
            None => Unchecked { v: None, _deref: core::marker::PhantomData },
        }
    }
}

impl<T: CheckedAdd<Rhs>, D, Rhs> vstd::std_specs::ops::AddSpecImpl<Rhs> for Unchecked<T, D> {
    open spec fn obeys_add_spec() -> bool {
        true
    }

    open spec fn add_req(self, rhs: Rhs) -> bool {
        true
    }

    open spec fn add_spec(self, rhs: Rhs) -> Self::Output {
        Unchecked::spec_new(
            match self@ {
                Some(v) => v.spec_checked_add(rhs),
                None => None,
            },
        )
    }
}

/// `-` performs the checked subtraction and records its outcome.
impl<T: CheckedSub<Rhs>, D, Rhs> core::ops::Sub<Rhs> for Checked<T, D> {
    type Output = Unchecked<<T as CheckedSub<Rhs>>::Output, D>;

    fn sub(self, rhs: Rhs) -> (r: Self::Output) {
        Unchecked { v: self.v.checked_sub(rhs), _deref: core::marker::PhantomData }
    }
}

impl<T: CheckedSub<Rhs>, D, Rhs> vstd::std_specs::ops::SubSpecImpl<Rhs> for Checked<T, D> {
    open spec fn obeys_sub_spec() -> bool {
        true
    }

    open spec fn sub_req(self, rhs: Rhs) -> bool {
        true
    }

    open spec fn sub_spec(self, rhs: Rhs) -> Self::Output {
        Unchecked::spec_new(self@.spec_checked_sub(rhs))
    }
}

/// `-` performs the checked subtraction unless an overflow is already recorded.
impl<T: CheckedSub<Rhs>, D, Rhs> core::ops::Sub<Rhs> for Unchecked<T, D> {
    type Output = Unchecked<<T as CheckedSub<Rhs>>::Output, D>;

    fn sub(self, rhs: Rhs) -> (r: Self::Output) {
        match self.v {
            Some(v) => Unchecked { v: v.checked_sub(rhs), _deref: core::marker::PhantomData },
            None => Unchecked { v: None, _deref: core::marker::PhantomData },
        }
    }
}

impl<T: CheckedSub<Rhs>, D, Rhs> vstd::std_specs::ops::SubSpecImpl<Rhs> for Unchecked<T, D> {
    open spec fn obeys_sub_spec() -> bool {
        true
    }

    open spec fn sub_req(self, rhs: Rhs) -> bool {
        true
    }

    open spec fn sub_spec(self, rhs: Rhs) -> Self::Output {
        Unchecked::spec_new(
            match self@ {
                Some(v) => v.spec_checked_sub(rhs),
                None => None,
            },
        )
    }
}

/// `*` performs the checked multiplication and records its outcome.
impl<T: CheckedMul<Rhs>, D, Rhs> core::ops::Mul<Rhs> for Checked<T, D> {
    type Output = Unchecked<<T as CheckedMul<Rhs>>::Output, D>;

    fn mul(self, rhs: Rhs) -> (r: Self::Output) {
        Unchecked { v: self.v.checked_mul(rhs), _deref: core::marker::PhantomData }
    }
}

impl<T: CheckedMul<Rhs>, D, Rhs> vstd::std_specs::ops::MulSpecImpl<Rhs> for Checked<T, D> {
    open spec fn obeys_mul_spec() -> bool {
        true
    }

    open spec fn mul_req(self, rhs: Rhs) -> bool {
        true
    }

    open spec fn mul_spec(self, rhs: Rhs) -> Self::Output {
        Unchecked::spec_new(self@.spec_checked_mul(rhs))
    }
}

/// `*` performs the checked multiplication unless an overflow is already recorded.
impl<T: CheckedMul<Rhs>, D, Rhs> core::ops::Mul<Rhs> for Unchecked<T, D> {
    type Output = Unchecked<<T as CheckedMul<Rhs>>::Output, D>;

    fn mul(self, rhs: Rhs) -> (r: Self::Output) {
        match self.v {
            Some(v) => Unchecked { v: v.checked_mul(rhs), _deref: core::marker::PhantomData },
            None => Unchecked { v: None, _deref: core::marker::PhantomData },
        }
    }
}

impl<T: CheckedMul<Rhs>, D, Rhs> vstd::std_specs::ops::MulSpecImpl<Rhs> for Unchecked<T, D> {
    open spec fn obeys_mul_spec() -> bool {
        true
    }

    open spec fn mul_req(self, rhs: Rhs) -> bool {
        true
    }

    open spec fn mul_spec(self, rhs: Rhs) -> Self::Output {
        Unchecked::spec_new(
            match self@ {
                Some(v) => v.spec_checked_mul(rhs),
                None => None,
            },
        )
    }
}

/// `/` performs the checked division and records its outcome.
impl<T: CheckedDiv<Rhs>, D, Rhs> core::ops::Div<Rhs> for Checked<T, D> {
    type Output = Unchecked<<T as CheckedDiv<Rhs>>::Output, D>;

    fn div(self, rhs: Rhs) -> (r: Self::Output) {
        Unchecked { v: self.v.checked_div(rhs), _deref: core::marker::PhantomData }
    }
}

impl<T: CheckedDiv<Rhs>, D, Rhs> vstd::std_specs::ops::DivSpecImpl<Rhs> for Checked<T, D> {
    open spec fn obeys_div_spec() -> bool {
        true
    }

    open spec fn div_req(self, rhs: Rhs) -> bool {
        true
    }

    open spec fn div_spec(self, rhs: Rhs) -> Self::Output {
        Unchecked::spec_new(self@.spec_checked_div(rhs))
    }
}

/// `/` performs the checked division unless an overflow is already recorded.
impl<T: CheckedDiv<Rhs>, D, Rhs> core::ops::Div<Rhs> for Unchecked<T, D> {
    type Output = Unchecked<<T as CheckedDiv<Rhs>>::Output, D>;

    fn div(self, rhs: Rhs) -> (r: Self::Output) {
        match self.v {
            Some(v) => Unchecked { v: v.checked_div(rhs), _deref: core::marker::PhantomData },
            None => Unchecked { v: None, _deref: core::marker::PhantomData },
        }
    }
}

impl<T: CheckedDiv<Rhs>, D, Rhs> vstd::std_specs::ops::DivSpecImpl<Rhs> for Unchecked<T, D> {
    open spec fn obeys_div_spec() -> bool {
        true
    }

    open spec fn div_req(self, rhs: Rhs) -> bool {
        true
    }

    open spec fn div_spec(self, rhs: Rhs) -> Self::Output {
        Unchecked::spec_new(
            match self@ {
                Some(v) => v.spec_checked_div(rhs),
                None => None,
            },
        )
    }
}

} // verus!
