//! The constant wrapper for `usize`, and the capability and relation
//! implementations that make `usize` values usable on either side of the
//! constant/runtime divide.
//!
//! Between two constant wrappers the ordering relations are implemented
//! where they can be stated for a whole family of literals at once: every
//! pair of equal literals satisfies [`Leq`] and [`Geq`]. A strict relation
//! between two distinct literals names one specific pair, and there is no
//! way to write down the infinitely many true pairs; such a bound is
//! satisfied by putting the runtime `usize` on one side, which defers the
//! comparison to the running program.

use vstd::prelude::*;

use crate::Equals;
use crate::Geq;
use crate::Gt;
use crate::Leq;
use crate::Lt;
use crate::MayBeConstAT;
use crate::PrimOrder;

verus! {

/// How two `usize` values compare, as an `Ordering`.
pub open spec fn usize_cmp(a: usize, b: usize) -> Option<core::cmp::Ordering> {
    if a == b {
        Some(core::cmp::Ordering::Equal)
    } else if a < b {
        Some(core::cmp::Ordering::Less)
    } else {
        Some(core::cmp::Ordering::Greater)
    }
}

/// Constant `usize` value: a zero-sized marker whose value is fixed by its
/// type parameter.
#[derive(Debug)]
pub struct Const<const VALUE: usize>;

impl<const VALUE: usize> Const<VALUE> {
    /// Produces the unique instance of this wrapper type.
    pub fn new() -> (r: Self)
        ensures
            r.spec_value() == VALUE,
    {
        Const
    }

    /// Renders the wrapped literal as text, exactly as the bare `usize`
    /// value renders.
    pub fn render(&self) -> (r: String)
        ensures
            r@ == crate::decimal::dec_text(VALUE as nat),
    {
        crate::decimal::u128_text(VALUE as u128)
    }
}

impl<const VALUE: usize> Clone for Const<VALUE> {
    fn clone(&self) -> (r: Self)
        ensures
            r.spec_value() == self.spec_value(),
    {
        Const
    }
}

impl<const VALUE: usize> Copy for Const<VALUE> {}

impl<const VALUE: usize> Default for Const<VALUE> {
    fn default() -> (r: Self)
        ensures
            r.spec_value() == VALUE,
    {
        Const
    }
}

impl PrimOrder for usize {
    open spec fn ord_le(self, rhs: usize) -> bool {
        self <= rhs
    }

    open spec fn ord_lt(self, rhs: usize) -> bool {
        self < rhs
    }

    proof fn ord_laws(a: usize, b: usize) {
    }
}

impl<const VALUE: usize> MayBeConstAT for Const<VALUE> {
    type Type = usize;

    open spec fn spec_is_const() -> bool {
        true
    }

    open spec fn spec_const_value() -> usize {
        VALUE
    }

    open spec fn spec_value(&self) -> usize {
        VALUE
    }

    proof fn constancy(&self) {
    }

    fn is_const() -> (r: bool) {
        true
    }

    fn value(&self) -> (r: usize) {
        VALUE
    }
}

impl MayBeConstAT for usize {
    type Type = usize;

    open spec fn spec_is_const() -> bool {
        false
    }

    open spec fn spec_const_value() -> usize {
        arbitrary()
    }

    open spec fn spec_value(&self) -> usize {
        *self
    }

    proof fn constancy(&self) {
    }

    fn is_const() -> (r: bool) {
        false
    }

    fn value(&self) -> (r: usize) {
        *self
    }
}

impl<const VALUE1: usize, const VALUE2: usize> Equals<Const<VALUE2>> for Const<VALUE1> {
    type ConstSide = Const<VALUE1>;

    proof fn const_side_resolution() {
    }

    fn get_const_side(&self, rhs: &Const<VALUE2>) -> (r: Option<Self::ConstSide>) {
        if VALUE1 == VALUE2 {
            Some(Const)
        } else {
            None
        }
    }
}

impl<const VALUE: usize> Equals<usize> for Const<VALUE> {
    type ConstSide = Const<VALUE>;

    proof fn const_side_resolution() {
    }

    fn get_const_side(&self, rhs: &usize) -> (r: Option<Self::ConstSide>) {
        if VALUE == *rhs {
            Some(Const)
        } else {
            None
        }
    }
}

impl<const VALUE: usize> Equals<Const<VALUE>> for usize {
    type ConstSide = Const<VALUE>;

    proof fn const_side_resolution() {
    }

    fn get_const_side(&self, rhs: &Const<VALUE>) -> (r: Option<Self::ConstSide>) {
        if *self == VALUE {
            Some(Const)
        } else {
            None
        }
    }
}

impl Equals<usize> for usize {
    type ConstSide = usize;

    proof fn const_side_resolution() {
    }

    fn get_const_side(&self, rhs: &usize) -> (r: Option<Self::ConstSide>) {
        if *self == *rhs {
            Some(*self)
        } else {
            None
        }
    }
}

impl<const VALUE1: usize, const VALUE2: usize> PartialEq<Const<VALUE2>> for Const<VALUE1> {
    fn eq(&self, rhs: &Const<VALUE2>) -> bool {
        VALUE1 == VALUE2
    }
}

impl<const VALUE1: usize, const VALUE2: usize> vstd::std_specs::cmp::PartialEqSpecImpl<Const<VALUE2>> for Const<VALUE1> {
    open spec fn obeys_eq_spec() -> bool {
        true
    }

    open spec fn eq_spec(&self, rhs: &Const<VALUE2>) -> bool {
        VALUE1 == VALUE2
    }
}

impl<const VALUE: usize> PartialEq<usize> for Const<VALUE> {
    fn eq(&self, rhs: &usize) -> bool {
        VALUE == *rhs
    }
}

impl<const VALUE: usize> vstd::std_specs::cmp::PartialEqSpecImpl<usize> for Const<VALUE> {
    open spec fn obeys_eq_spec() -> bool {
        true
    }

    open spec fn eq_spec(&self, rhs: &usize) -> bool {
        VALUE == *rhs
    }
}

impl<const VALUE: usize> PartialEq<Const<VALUE>> for usize {
    fn eq(&self, rhs: &Const<VALUE>) -> bool {
        *self == VALUE
    }
}

impl<const VALUE: usize> vstd::std_specs::cmp::PartialEqSpecImpl<Const<VALUE>> for usize {
    open spec fn obeys_eq_spec() -> bool {
        true
    }

    open spec fn eq_spec(&self, rhs: &Const<VALUE>) -> bool {
        *self == VALUE
    }
}

impl<const VALUE1: usize, const VALUE2: usize> PartialOrd<Const<VALUE2>> for Const<VALUE1> {
    fn partial_cmp(&self, rhs: &Const<VALUE2>) -> Option<core::cmp::Ordering> {
        if VALUE1 == VALUE2 {
            Some(core::cmp::Ordering::Equal)
        } else if VALUE1 < VALUE2 {
            Some(core::cmp::Ordering::Less)
        } else {
            Some(core::cmp::Ordering::Greater)
        }
    }
}

impl<const VALUE1: usize, const VALUE2: usize> vstd::std_specs::cmp::PartialOrdSpecImpl<Const<VALUE2>> for Const<VALUE1> {
    open spec fn obeys_partial_cmp_spec() -> bool {
        true
    }

    open spec fn partial_cmp_spec(&self, rhs: &Const<VALUE2>) -> Option<core::cmp::Ordering> {
        usize_cmp(VALUE1, VALUE2)
    }
}

impl<const VALUE: usize> PartialOrd<usize> for Const<VALUE> {
    fn partial_cmp(&self, rhs: &usize) -> Option<core::cmp::Ordering> {
        if VALUE == *rhs {
            Some(core::cmp::Ordering::Equal)
        } else if VALUE < *rhs {
            Some(core::cmp::Ordering::Less)
        } else {
            Some(core::cmp::Ordering::Greater)
        }
    }
}

impl<const VALUE: usize> vstd::std_specs::cmp::PartialOrdSpecImpl<usize> for Const<VALUE> {
    open spec fn obeys_partial_cmp_spec() -> bool {
        true
    }

    open spec fn partial_cmp_spec(&self, rhs: &usize) -> Option<core::cmp::Ordering> {
        usize_cmp(VALUE, *rhs)
    }
}

impl<const VALUE: usize> PartialOrd<Const<VALUE>> for usize {
    fn partial_cmp(&self, rhs: &Const<VALUE>) -> Option<core::cmp::Ordering> {
        if *self == VALUE {
            Some(core::cmp::Ordering::Equal)
        } else if *self < VALUE {
            Some(core::cmp::Ordering::Less)
        } else {
            Some(core::cmp::Ordering::Greater)
        }
    }
}

impl<const VALUE: usize> vstd::std_specs::cmp::PartialOrdSpecImpl<Const<VALUE>> for usize {
    open spec fn obeys_partial_cmp_spec() -> bool {
        true
    }

    open spec fn partial_cmp_spec(&self, rhs: &Const<VALUE>) -> Option<core::cmp::Ordering> {
        usize_cmp(*self, VALUE)
    }
}

impl<const VALUE: usize> Lt<usize> for Const<VALUE> {
    proof fn lt_fact() {
    }
}

impl<const VALUE: usize> Lt<Const<VALUE>> for usize {
    proof fn lt_fact() {
    }
}

impl Lt<usize> for usize {
    proof fn lt_fact() {
    }
}

impl<const VALUE: usize> Gt<usize> for Const<VALUE> {
    proof fn gt_fact() {
    }
}

impl<const VALUE: usize> Gt<Const<VALUE>> for usize {
    proof fn gt_fact() {
    }
}

impl Gt<usize> for usize {
    proof fn gt_fact() {
    }
}

impl<const VALUE: usize> Leq<Const<VALUE>> for Const<VALUE> {
    proof fn leq_fact() {
    }
}

impl<const VALUE: usize> Leq<usize> for Const<VALUE> {
    proof fn leq_fact() {
    }
}

impl<const VALUE: usize> Leq<Const<VALUE>> for usize {
    proof fn leq_fact() {
    }
}

impl Leq<usize> for usize {
    proof fn leq_fact() {
    }
}

impl<const VALUE: usize> Geq<Const<VALUE>> for Const<VALUE> {
    proof fn geq_fact() {
    }
}

impl<const VALUE: usize> Geq<usize> for Const<VALUE> {
    proof fn geq_fact() {
    }
}

impl<const VALUE: usize> Geq<Const<VALUE>> for usize {
    proof fn geq_fact() {
    }
}

impl Geq<usize> for usize {
    proof fn geq_fact() {
    }
}

} // verus!
