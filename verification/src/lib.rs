//! Uniform handling of compile-time-fixed and runtime values of a primitive
//! type through a shared trait interface.
//!
//! Generic code written once against [`MayBeConst`] can be instantiated
//! either with a zero-sized constant wrapper, whose value is baked into the
//! type, or with the bare primitive, whose value is known only while the
//! program runs. Relations between two wrapper types that both fix their
//! value are settled before the program runs: a bound such as
//! [`Lt`] between two constant wrappers can only be satisfied by an
//! implementation whose checked fact says the relation holds.

use vstd::prelude::*;

pub mod const_bool;
pub mod decimal;
pub mod const_u128;
pub mod const_u16;
pub mod const_u32;
pub mod const_u64;
pub mod const_u8;
pub mod const_usize;

verus! {

/// Constant `bool` value.
pub type ConstBool<const VALUE: bool> = crate::const_bool::Const<VALUE>;

/// Constant `u8` value.
pub type ConstU8<const VALUE: u8> = crate::const_u8::Const<VALUE>;

/// Constant `u16` value.
pub type ConstU16<const VALUE: u16> = crate::const_u16::Const<VALUE>;

/// Constant `u32` value.
pub type ConstU32<const VALUE: u32> = crate::const_u32::Const<VALUE>;

/// Constant `u64` value.
pub type ConstU64<const VALUE: u64> = crate::const_u64::Const<VALUE>;

/// Constant `u128` value.
pub type ConstU128<const VALUE: u128> = crate::const_u128::Const<VALUE>;

/// Constant `usize` value.
pub type ConstUsize<const VALUE: usize> = crate::const_usize::Const<VALUE>;

/// A trait for handling constant and non-constant values in a common way.
pub trait MayBeConst<T>: MayBeConstAT<Type = T> {}

/// Spec-level ordering of the primitive types that can stand behind a
/// [`MayBeConstAT`] implementer. Implementations fix what "less than" and
/// "less than or equal" mean for one primitive; the obligations pin the
/// strict relation to the non-strict one and make the order total.
pub trait PrimOrder: Sized + Copy {
    /// Non-strict order on the primitive.
    spec fn ord_le(self, rhs: Self) -> bool;

    /// Strict order on the primitive.
    spec fn ord_lt(self, rhs: Self) -> bool;

    /// The strict order holds exactly where the non-strict one holds
    /// between distinct values, and the order is total.
    proof fn ord_laws(a: Self, b: Self)
        ensures
            a.ord_lt(b) == (a.ord_le(b) && a != b),
            a.ord_le(b) || b.ord_le(a),
    ;
}

/// The capability trait behind [`MayBeConst`], keyed by an associated type
/// so that it can appear in internal trait bounds.
pub trait MayBeConstAT: Sized + Clone + Copy + Default + core::fmt::Debug {
    type Type: PrimOrder;

    /// Whether this type fixes its value at compile time.
    spec fn spec_is_const() -> bool;

    /// The compile-time value; meaningful only when `spec_is_const()` holds.
    spec fn spec_const_value() -> Self::Type;

    /// The primitive value this instance denotes.
    spec fn spec_value(&self) -> Self::Type;

    /// A compile-time-constant type denotes the same value in every instance.
    proof fn constancy(&self)
        ensures
            Self::spec_is_const() ==> self.spec_value() == Self::spec_const_value(),
    ;

    /// Reports whether the implementing type is a compile-time constant.
    fn is_const() -> (r: bool)
        ensures
            r == Self::spec_is_const(),
    ;

    /// Returns the primitive value this instance denotes.
    fn value(&self) -> (r: Self::Type)
        ensures
            r == self.spec_value(),
    ;
}

impl<T: MayBeConstAT> MayBeConst<T::Type> for T {}

/// A trait for putting less-than constraints on constants.
///
/// An implementation over two compile-time-constant types is a proof,
/// discharged when the implementation is checked, that the left literal is
/// strictly below the right one; a pair of constants whose literals violate
/// the relation has no implementation, so a bound demanding one is rejected
/// before the program runs. Any pair with a runtime side is implemented
/// unconditionally, since nothing can be settled early about it.
pub trait Lt<Rhs: MayBeConstAT<Type = Self::Type>>: MayBeConstAT {
    /// The fact this implementation records.
    proof fn lt_fact()
        ensures
            (Self::spec_is_const() && Rhs::spec_is_const()) ==> Self::spec_const_value().ord_lt(
                Rhs::spec_const_value(),
            ),
    ;
}

/// A trait for putting greater-than constraints on constants.
///
/// The mirror image of [`Lt`]: an implementation over two constants proves
/// the left literal strictly above the right one, and pairs with a runtime
/// side are implemented unconditionally.
pub trait Gt<Rhs: MayBeConstAT<Type = Self::Type>>: MayBeConstAT {
    /// The fact this implementation records.
    proof fn gt_fact()
        ensures
            (Self::spec_is_const() && Rhs::spec_is_const()) ==> Rhs::spec_const_value().ord_lt(
                Self::spec_const_value(),
            ),
    ;
}

/// A trait for putting less-than-or-equal constraints on constants.
///
/// As [`Lt`], but equal literals satisfy the relation.
pub trait Leq<Rhs: MayBeConstAT<Type = Self::Type>>: MayBeConstAT {
    /// The fact this implementation records.
    proof fn leq_fact()
        ensures
            (Self::spec_is_const() && Rhs::spec_is_const()) ==> Self::spec_const_value().ord_le(
                Rhs::spec_const_value(),
            ),
    ;
}

/// A trait for putting greater-than-or-equal constraints on constants.
///
/// As [`Gt`], but equal literals satisfy the relation.
pub trait Geq<Rhs: MayBeConstAT<Type = Self::Type>>: MayBeConstAT {
    /// The fact this implementation records.
    proof fn geq_fact()
        ensures
            (Self::spec_is_const() && Rhs::spec_is_const()) ==> Rhs::spec_const_value().ord_le(
                Self::spec_const_value(),
            ),
    ;
}

/// A trait for putting equality constraints on constants.
///
/// Unlike the ordering traits, equality is never refuted early: every pair
/// of capability implementers over one primitive is implemented, and the
/// runtime accessor [`Equals::get_const_side`] is the single source of truth
/// for whether two values are actually equal. The associated type
/// [`Equals::ConstSide`] names the more constrained of the two operand
/// types: the constant side whenever at least one operand is a constant,
/// and the raw primitive only when both are runtime values.
pub trait Equals<T: MayBeConstAT>: MayBeConstAT<Type = T::Type> {
    /// The const side of the two operand types.
    type ConstSide: MayBeConst<T::Type>;

    /// How the const side is resolved: it is a constant exactly when one of
    /// the operand types is, and it then carries that operand's literal.
    proof fn const_side_resolution()
        ensures
            <Self::ConstSide as MayBeConstAT>::spec_is_const() == (Self::spec_is_const()
                || T::spec_is_const()),
            Self::spec_is_const() ==> <Self::ConstSide as MayBeConstAT>::spec_const_value()
                == Self::spec_const_value(),
            (!Self::spec_is_const() && T::spec_is_const())
                ==> <Self::ConstSide as MayBeConstAT>::spec_const_value()
                == T::spec_const_value(),
    ;

    /// Returns the shared value as the const side of the two operand types
    /// if the two values are equal, and nothing otherwise.
    fn get_const_side(&self, rhs: &T) -> (r: Option<Self::ConstSide>)
        ensures
            r.is_some() == (self.spec_value() == rhs.spec_value()),
            r.is_some() ==> r.unwrap().spec_value() == self.spec_value(),
    ;
}

/// Law: a type that fixes its value at compile time denotes that value in
/// every instance, so any two instances of it are interchangeable.
pub proof fn lemma_const_instances_agree<A: MayBeConstAT>(a: A, b: A)
    requires
        A::spec_is_const(),
    ensures
        a.spec_value() == b.spec_value(),
{
    a.constancy();
    b.constancy();
}

/// Law: a [`Lt`] bound between two compile-time-constant types can only be
/// met where the left literal is strictly below the right one.
pub proof fn lemma_lt_sound<A: Lt<B>, B: MayBeConstAT<Type = A::Type>>()
    requires
        A::spec_is_const(),
        B::spec_is_const(),
    ensures
        A::spec_const_value().ord_lt(B::spec_const_value()),
{
    A::lt_fact();
}

/// Law: a [`Gt`] bound between two compile-time-constant types can only be
/// met where the left literal is strictly above the right one.
pub proof fn lemma_gt_sound<A: Gt<B>, B: MayBeConstAT<Type = A::Type>>()
    requires
        A::spec_is_const(),
        B::spec_is_const(),
    ensures
        B::spec_const_value().ord_lt(A::spec_const_value()),
{
    A::gt_fact();
}

/// Law: a [`Leq`] bound between two compile-time-constant types can only be
/// met where the left literal is at or below the right one.
pub proof fn lemma_leq_sound<A: Leq<B>, B: MayBeConstAT<Type = A::Type>>()
    requires
        A::spec_is_const(),
        B::spec_is_const(),
    ensures
        A::spec_const_value().ord_le(B::spec_const_value()),
{
    A::leq_fact();
}

/// Law: a [`Geq`] bound between two compile-time-constant types can only be
/// met where the left literal is at or above the right one.
pub proof fn lemma_geq_sound<A: Geq<B>, B: MayBeConstAT<Type = A::Type>>()
    requires
        A::spec_is_const(),
        B::spec_is_const(),
    ensures
        B::spec_const_value().ord_le(A::spec_const_value()),
{
    A::geq_fact();
}

/// Law: how [`Equals::ConstSide`] is selected. The const side of two
/// operand types is a constant exactly when at least one operand type is,
/// and it then carries the literal of a constant operand, preferring the
/// left one.
pub proof fn lemma_const_side_selection<A: Equals<B>, B: MayBeConstAT>()
    ensures
        <A::ConstSide as MayBeConstAT>::spec_is_const() == (A::spec_is_const()
            || B::spec_is_const()),
        A::spec_is_const() ==> <A::ConstSide as MayBeConstAT>::spec_const_value()
            == A::spec_const_value(),
        (!A::spec_is_const() && B::spec_is_const())
            ==> <A::ConstSide as MayBeConstAT>::spec_const_value() == B::spec_const_value(),
{
    A::const_side_resolution();
}

} // verus!
