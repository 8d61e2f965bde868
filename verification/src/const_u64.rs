//! The constant wrapper for `u64`, and the capability and relation
//! implementations that make `u64` values usable on either side of the
//! constant/runtime divide.
//!
//! Between two constant wrappers the ordering relations are implemented
//! where they can be stated for a whole family of literals at once: every
//! pair of equal literals satisfies [`Leq`] and [`Geq`]. A strict relation
//! between two distinct literals names one specific pair, and there is no
//! way to write down the infinitely many true pairs; such a bound is
//! satisfied by putting the runtime `u64` on one side, which defers the
//! comparison to the running program.

use vstd::prelude::*;

use crate::Equals;
use crate::Geq;
use crate::Gt;
use crate::Leq;
use crate::Lt;
use crate::MayBeConstAT;
use crate::PrimOrder;

verus! {

/// How two `u64` values compare, as an `Ordering`.
pub open spec fn u64_cmp(a: u64, b: u64) -> Option<core::cmp::Ordering> {
    if a == b {
        Some(core::cmp::Ordering::Equal)
    } else if a < b {
        Some(core::cmp::Ordering::Less)
    } else {
        Some(core::cmp::Ordering::Greater)
    }
}

/// Constant `u64` value: a zero-sized marker whose value is fixed by its
/// type parameter.
#[derive(Debug)]
pub struct Const<const VALUE: u64>;

impl<const VALUE: u64> Const<VALUE> {
    /// Produces the unique instance of this wrapper type.
    pub fn new() -> (r: Self)
        ensures
            r.spec_value() == VALUE,
    {
        Const
    }

    /// Renders the wrapped literal as text, exactly as the bare `u64`
    /// value renders.
    pub fn render(&self) -> (r: String)
        ensures
            r@ == crate::decimal::dec_text(VALUE as nat),
    {
        crate::decimal::u128_text(VALUE as u128)
    }
}

impl<const VALUE: u64> Clone for Const<VALUE> {
    fn clone(&self) -> (r: Self)
        ensures
            r.spec_value() == self.spec_value(),
    {
        Const
    }
}

impl<const VALUE: u64> Copy for Const<VALUE> {}

impl<const VALUE: u64> Default for Const<VALUE> {
    fn default() -> (r: Self)
        ensures
            r.spec_value() == VALUE,
    {
        Const
    }
}

impl PrimOrder for u64 {
    open spec fn ord_le(self, rhs: u64) -> bool {
        self <= rhs
    }

    open spec fn ord_lt(self, rhs: u64) -> bool {
        self < rhs
    }

    proof fn ord_laws(a: u64, b: u64) {
    }
}

impl<const VALUE: u64> MayBeConstAT for Const<VALUE> {
    type Type = u64;

    open spec fn spec_is_const() -> bool {
        true
    }

    open spec fn spec_const_value() -> u64 {
        VALUE
    }

    open spec fn spec_value(&self) -> u64 {
        VALUE
    }

    proof fn constancy(&self) {
    }

    fn is_const() -> (r: bool) {
        true
    }

    fn value(&self) -> (r: u64) {
        VALUE
    }
}

impl MayBeConstAT for u64 {
    type Type = u64;

    open spec fn spec_is_const() -> bool {
        false
    }

    open spec fn spec_const_value() -> u64 {
        arbitrary()
    }

    open spec fn spec_value(&self) -> u64 {
        *self
    }

    proof fn constancy(&self) {
    }

    fn is_const() -> (r: bool) {
        false
    }

    fn value(&self) -> (r: u64) {
        *self
    }
}

impl<const VALUE1: u64, const VALUE2: u64> Equals<Const<VALUE2>> for Const<VALUE1> {
    type ConstSide = Const<VALUE1>;

    proof fn const_side_resolution() {
    }

    fn get_const_side(&self, rhs: &Const<VALUE2>) -> (r: Option<Self::ConstSide>) {
        if VALUE1 == VALUE2 {
            Some(Const)
        } else {
            None
        }
    }
}

impl<const VALUE: u64> Equals<u64> for Const<VALUE> {
    type ConstSide = Const<VALUE>;

    proof fn const_side_resolution() {
    }

    fn get_const_side(&self, rhs: &u64) -> (r: Option<Self::ConstSide>) {
        if VALUE == *rhs {
            Some(Const)
        } else {
            None
        }
    }
}

impl<const VALUE: u64> Equals<Const<VALUE>> for u64 {
    type ConstSide = Const<VALUE>;

    proof fn const_side_resolution() {
    }

    fn get_const_side(&self, rhs: &Const<VALUE>) -> (r: Option<Self::ConstSide>) {
        if *self == VALUE {
            Some(Const)
        } else {
            None
        }
    }
}

impl Equals<u64> for u64 {
    type ConstSide = u64;

    proof fn const_side_resolution() {
    }

    fn get_const_side(&self, rhs: &u64) -> (r: Option<Self::ConstSide>) {
        if *self == *rhs {
            Some(*self)
        } else {
            None
        }
    }
}

impl<const VALUE1: u64, const VALUE2: u64> PartialEq<Const<VALUE2>> for Const<VALUE1> {
    fn eq(&self, rhs: &Const<VALUE2>) -> bool {
        VALUE1 == VALUE2
    }
}

impl<const VALUE1: u64, const VALUE2: u64> vstd::std_specs::cmp::PartialEqSpecImpl<Const<VALUE2>> for Const<VALUE1> {
    open spec fn obeys_eq_spec() -> bool {
        true
    }

    open spec fn eq_spec(&self, rhs: &Const<VALUE2>) -> bool {
        VALUE1 == VALUE2
    }
}

impl<const VALUE: u64> PartialEq<u64> for Const<VALUE> {
    fn eq(&self, rhs: &u64) -> bool {
        VALUE == *rhs
    }
}

impl<const VALUE: u64> vstd::std_specs::cmp::PartialEqSpecImpl<u64> for Const<VALUE> {
    open spec fn obeys_eq_spec() -> bool {
        true
    }

    open spec fn eq_spec(&self, rhs: &u64) -> bool {
        VALUE == *rhs
    }
}

impl<const VALUE: u64> PartialEq<Const<VALUE>> for u64 {
    fn eq(&self, rhs: &Const<VALUE>) -> bool {
        *self == VALUE
    }
}

impl<const VALUE: u64> vstd::std_specs::cmp::PartialEqSpecImpl<Const<VALUE>> for u64 {
    open spec fn obeys_eq_spec() -> bool {
        true
    }

    open spec fn eq_spec(&self, rhs: &Const<VALUE>) -> bool {
        *self == VALUE
    }
}

impl<const VALUE1: u64, const VALUE2: u64> PartialOrd<Const<VALUE2>> for Const<VALUE1> {
    fn partial_cmp(&self, rhs: &Const<VALUE2>) -> Option<core::cmp::Ordering> {
        if VALUE1 == VALUE2 {
            Some(core::cmp::Ordering::Equal)
        } else if VALUE1 < VALUE2 {
            Some(core::cmp::Ordering::Less)
        } else {
            Some(core::cmp::Ordering::Greater)
        }
    }
}

impl<const VALUE1: u64, const VALUE2: u64> vstd::std_specs::cmp::PartialOrdSpecImpl<Const<VALUE2>> for Const<VALUE1> {
    open spec fn obeys_partial_cmp_spec() -> bool {
        true
    }

    open spec fn partial_cmp_spec(&self, rhs: &Const<VALUE2>) -> Option<core::cmp::Ordering> {
        u64_cmp(VALUE1, VALUE2)
    }
}

impl<const VALUE: u64> PartialOrd<u64> for Const<VALUE> {
    fn partial_cmp(&self, rhs: &u64) -> Option<core::cmp::Ordering> {
        if VALUE == *rhs {
            Some(core::cmp::Ordering::Equal)
        } else if VALUE < *rhs {
            Some(core::cmp::Ordering::Less)
        } else {
            Some(core::cmp::Ordering::Greater)
        }
    }
}

impl<const VALUE: u64> vstd::std_specs::cmp::PartialOrdSpecImpl<u64> for Const<VALUE> {
    open spec fn obeys_partial_cmp_spec() -> bool {
        true
    }

    open spec fn partial_cmp_spec(&self, rhs: &u64) -> Option<core::cmp::Ordering> {
        u64_cmp(VALUE, *rhs)
    }
}

impl<const VALUE: u64> PartialOrd<Const<VALUE>> for u64 {
    fn partial_cmp(&self, rhs: &Const<VALUE>) -> Option<core::cmp::Ordering> {
        if *self == VALUE {
            Some(core::cmp::Ordering::Equal)
        } else if *self < VALUE {
            Some(core::cmp::Ordering::Less)
        } else {
            Some(core::cmp::Ordering::Greater)
        }
    }
}

impl<const VALUE: u64> vstd::std_specs::cmp::PartialOrdSpecImpl<Const<VALUE>> for u64 {
    open spec fn obeys_partial_cmp_spec() -> bool {
        true
    }

    open spec fn partial_cmp_spec(&self, rhs: &Const<VALUE>) -> Option<core::cmp::Ordering> {
        u64_cmp(*self, VALUE)
    }
}

impl<const VALUE: u64> Lt<u64> for Const<VALUE> {
    proof fn lt_fact() {
    }
}

impl<const VALUE: u64> Lt<Const<VALUE>> for u64 {
    proof fn lt_fact() {
    }
}

impl Lt<u64> for u64 {
    proof fn lt_fact() {
    }
}

impl<const VALUE: u64> Gt<u64> for Const<VALUE> {
    proof fn gt_fact() {
    }
}

impl<const VALUE: u64> Gt<Const<VALUE>> for u64 {
    proof fn gt_fact() {
    }
}

impl Gt<u64> for u64 {
    proof fn gt_fact() {
    }
}

impl<const VALUE: u64> Leq<Const<VALUE>> for Const<VALUE> {
    proof fn leq_fact() {
    }
}

impl<const VALUE: u64> Leq<u64> for Const<VALUE> {
    proof fn leq_fact() {
    }
}

impl<const VALUE: u64> Leq<Const<VALUE>> for u64 {
    proof fn leq_fact() {
    }
}

impl Leq<u64> for u64 {
    proof fn leq_fact() {
    }
}

impl<const VALUE: u64> Geq<Const<VALUE>> for Const<VALUE> {
    proof fn geq_fact() {
    }
}

impl<const VALUE: u64> Geq<u64> for Const<VALUE> {
    proof fn geq_fact() {
    }
}

impl<const VALUE: u64> Geq<Const<VALUE>> for u64 {
    proof fn geq_fact() {
    }
}

impl Geq<u64> for u64 {
    proof fn geq_fact() {
    }
}

} // verus!
