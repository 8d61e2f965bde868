//! The constant wrapper for `u128`, and the capability and relation
//! implementations that make `u128` values usable on either side of the
//! constant/runtime divide.
//!
//! Between two constant wrappers the ordering relations are implemented
//! where they can be stated for a whole family of literals at once: every
//! pair of equal literals satisfies [`Leq`] and [`Geq`]. A strict relation
//! between two distinct literals names one specific pair, and there is no
//! way to write down the infinitely many true pairs; such a bound is
//! satisfied by putting the runtime `u128` on one side, which defers the
//! comparison to the running program.

use vstd::prelude::*;

use crate::Equals;
use crate::Geq;
use crate::Gt;
use crate::Leq;
use crate::Lt;
use crate::MayBeConstAT;
use crate::PrimOrder;

verus! {

/// How two `u128` values compare, as an `Ordering`.
pub open spec fn u128_cmp(a: u128, b: u128) -> Option<core::cmp::Ordering> {
    if a == b {
        Some(core::cmp::Ordering::Equal)
    } else if a < b {
        Some(core::cmp::Ordering::Less)
    } else {
        Some(core::cmp::Ordering::Greater)
    }
}

/// Constant `u128` value: a zero-sized marker whose value is fixed by its
/// type parameter.
#[derive(Debug)]
pub struct Const<const VALUE: u128>;

impl<const VALUE: u128> Const<VALUE> {
    /// Produces the unique instance of this wrapper type.
    pub fn new() -> (r: Self)
        ensures
            r.spec_value() == VALUE,
    {
        Const
    }

    /// Renders the wrapped literal as text, exactly as the bare `u128`
    /// value renders.
    pub fn render(&self) -> (r: String)
        ensures
            r@ == crate::decimal::dec_text(VALUE as nat),
    {
        crate::decimal::u128_text(VALUE)
    }
}

impl<const VALUE: u128> Clone for Const<VALUE> {
    fn clone(&self) -> (r: Self)
        ensures
            r.spec_value() == self.spec_value(),
    {
        Const
    }
}

impl<const VALUE: u128> Copy for Const<VALUE> {}

impl<const VALUE: u128> Default for Const<VALUE> {
    fn default() -> (r: Self)
        ensures
            r.spec_value() == VALUE,
    {
        Const
    }
}

impl PrimOrder for u128 {
    open spec fn ord_le(self, rhs: u128) -> bool {
        self <= rhs
    }

    open spec fn ord_lt(self, rhs: u128) -> bool {
        self < rhs
    }

    proof fn ord_laws(a: u128, b: u128) {
    }
}

impl<const VALUE: u128> MayBeConstAT for Const<VALUE> {
    type Type = u128;

    open spec fn spec_is_const() -> bool {
        true
    }

    open spec fn spec_const_value() -> u128 {
        VALUE
    }

    open spec fn spec_value(&self) -> u128 {
        VALUE
    }

    proof fn constancy(&self) {
    }

    fn is_const() -> (r: bool) {
        true
    }

    fn value(&self) -> (r: u128) {
        VALUE
    }
}

impl MayBeConstAT for u128 {
    type Type = u128;

    open spec fn spec_is_const() -> bool {
        false
    }

    open spec fn spec_const_value() -> u128 {
        arbitrary()
    }

    open spec fn spec_value(&self) -> u128 {
        *self
    }

    proof fn constancy(&self) {
    }

    fn is_const() -> (r: bool) {
        false
    }

    fn value(&self) -> (r: u128) {
        *self
    }
}

impl<const VALUE1: u128, const VALUE2: u128> Equals<Const<VALUE2>> for Const<VALUE1> {
    type ConstSide = Const<VALUE1>;

    proof fn const_side_resolution() {
    }

    fn get_const_side(&self, rhs: &Const<VALUE2>) -> (r: Option<Self::ConstSide>) {
        if VALUE1 == VALUE2 {
            Some(Const)
        } else {
            None
        }
    }
}

impl<const VALUE: u128> Equals<u128> for Const<VALUE> {
    type ConstSide = Const<VALUE>;

    proof fn const_side_resolution() {
    }

    fn get_const_side(&self, rhs: &u128) -> (r: Option<Self::ConstSide>) {
        if VALUE == *rhs {
            Some(Const)
        } else {
            None
        }
    }
}

impl<const VALUE: u128> Equals<Const<VALUE>> for u128 {
    type ConstSide = Const<VALUE>;

    proof fn const_side_resolution() {
    }

    fn get_const_side(&self, rhs: &Const<VALUE>) -> (r: Option<Self::ConstSide>) {
        if *self == VALUE {
            Some(Const)
        } else {
            None
        }
    }
}

impl Equals<u128> for u128 {
    type ConstSide = u128;

    proof fn const_side_resolution() {
    }

    fn get_const_side(&self, rhs: &u128) -> (r: Option<Self::ConstSide>) {
        if *self == *rhs {
            Some(*self)
        } else {
            None
        }
    }
}

impl<const VALUE1: u128, const VALUE2: u128> PartialEq<Const<VALUE2>> for Const<VALUE1> {
    fn eq(&self, rhs: &Const<VALUE2>) -> bool {
        VALUE1 == VALUE2
    }
}

impl<const VALUE1: u128, const VALUE2: u128> vstd::std_specs::cmp::PartialEqSpecImpl<Const<VALUE2>> for Const<VALUE1> {
    open spec fn obeys_eq_spec() -> bool {
        true
    }

    open spec fn eq_spec(&self, rhs: &Const<VALUE2>) -> bool {
        VALUE1 == VALUE2
    }
}

impl<const VALUE: u128> PartialEq<u128> for Const<VALUE> {
    fn eq(&self, rhs: &u128) -> bool {
        VALUE == *rhs
    }
}

impl<const VALUE: u128> vstd::std_specs::cmp::PartialEqSpecImpl<u128> for Const<VALUE> {
    open spec fn obeys_eq_spec() -> bool {
        true
    }

    open spec fn eq_spec(&self, rhs: &u128) -> bool {
        VALUE == *rhs
    }
}

impl<const VALUE: u128> PartialEq<Const<VALUE>> for u128 {
    fn eq(&self, rhs: &Const<VALUE>) -> bool {
        *self == VALUE
    }
}

impl<const VALUE: u128> vstd::std_specs::cmp::PartialEqSpecImpl<Const<VALUE>> for u128 {
    open spec fn obeys_eq_spec() -> bool {
        true
    }

    open spec fn eq_spec(&self, rhs: &Const<VALUE>) -> bool {
        *self == VALUE
    }
}

impl<const VALUE1: u128, const VALUE2: u128> PartialOrd<Const<VALUE2>> for Const<VALUE1> {
    fn partial_cmp(&self, rhs: &Const<VALUE2>) -> Option<core::cmp::Ordering> {
        if VALUE1 == VALUE2 {
            Some(core::cmp::Ordering::Equal)
        } else if VALUE1 < VALUE2 {
            Some(core::cmp::Ordering::Less)
        } else {
            Some(core::cmp::Ordering::Greater)
        }
    }
}

impl<const VALUE1: u128, const VALUE2: u128> vstd::std_specs::cmp::PartialOrdSpecImpl<Const<VALUE2>> for Const<VALUE1> {
    open spec fn obeys_partial_cmp_spec() -> bool {
        true
    }

    open spec fn partial_cmp_spec(&self, rhs: &Const<VALUE2>) -> Option<core::cmp::Ordering> {
        u128_cmp(VALUE1, VALUE2)
    }
}

impl<const VALUE: u128> PartialOrd<u128> for Const<VALUE> {
    fn partial_cmp(&self, rhs: &u128) -> Option<core::cmp::Ordering> {
        if VALUE == *rhs {
            Some(core::cmp::Ordering::Equal)
        } else if VALUE < *rhs {
            Some(core::cmp::Ordering::Less)
        } else {
            Some(core::cmp::Ordering::Greater)
        }
    }
}

impl<const VALUE: u128> vstd::std_specs::cmp::PartialOrdSpecImpl<u128> for Const<VALUE> {
    open spec fn obeys_partial_cmp_spec() -> bool {
        true
    }

    open spec fn partial_cmp_spec(&self, rhs: &u128) -> Option<core::cmp::Ordering> {
        u128_cmp(VALUE, *rhs)
    }
}

impl<const VALUE: u128> PartialOrd<Const<VALUE>> for u128 {
    fn partial_cmp(&self, rhs: &Const<VALUE>) -> Option<core::cmp::Ordering> {
        if *self == VALUE {
            Some(core::cmp::Ordering::Equal)
        } else if *self < VALUE {
            Some(core::cmp::Ordering::Less)
        } else {
            Some(core::cmp::Ordering::Greater)
        }
    }
}

impl<const VALUE: u128> vstd::std_specs::cmp::PartialOrdSpecImpl<Const<VALUE>> for u128 {
    open spec fn obeys_partial_cmp_spec() -> bool {
        true
    }

    open spec fn partial_cmp_spec(&self, rhs: &Const<VALUE>) -> Option<core::cmp::Ordering> {
        u128_cmp(*self, VALUE)
    }
}

impl<const VALUE: u128> Lt<u128> for Const<VALUE> {
    proof fn lt_fact() {
    }
}

impl<const VALUE: u128> Lt<Const<VALUE>> for u128 {
    proof fn lt_fact() {
    }
}

impl Lt<u128> for u128 {
    proof fn lt_fact() {
    }
}

impl<const VALUE: u128> Gt<u128> for Const<VALUE> {
    proof fn gt_fact() {
    }
}

impl<const VALUE: u128> Gt<Const<VALUE>> for u128 {
    proof fn gt_fact() {
    }
}

impl Gt<u128> for u128 {
    proof fn gt_fact() {
    }
}

impl<const VALUE: u128> Leq<Const<VALUE>> for Const<VALUE> {
    proof fn leq_fact() {
    }
}

impl<const VALUE: u128> Leq<u128> for Const<VALUE> {
    proof fn leq_fact() {
    }
}

impl<const VALUE: u128> Leq<Const<VALUE>> for u128 {
    proof fn leq_fact() {
    }
}

impl Leq<u128> for u128 {
    proof fn leq_fact() {
    }
}

impl<const VALUE: u128> Geq<Const<VALUE>> for Const<VALUE> {
    proof fn geq_fact() {
    }
}

impl<const VALUE: u128> Geq<u128> for Const<VALUE> {
    proof fn geq_fact() {
    }
}

impl<const VALUE: u128> Geq<Const<VALUE>> for u128 {
    proof fn geq_fact() {
    }
}

impl Geq<u128> for u128 {
    proof fn geq_fact() {
    }
}

} // verus!
