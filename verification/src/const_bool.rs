//! The constant wrapper for `bool`, and the capability and relation
//! implementations that make `bool` values usable on either side of the
//! constant/runtime divide.
//!
//! The ordering relations over two constant wrappers are implemented only
//! for the pairs of literals that satisfy them, so a bound such as
//! `Const<true>: Lt<Const<false>>` is rejected when the program is built.

use vstd::prelude::*;

use crate::Equals;
use crate::Geq;
use crate::Gt;
use crate::Leq;
use crate::Lt;
use crate::MayBeConstAT;
use crate::PrimOrder;

verus! {

broadcast use vstd::string::group_string_axioms;

/// How two `bool` values compare, as an `Ordering`.
pub open spec fn bool_cmp(a: bool, b: bool) -> Option<core::cmp::Ordering> {
    if a == b {
        Some(core::cmp::Ordering::Equal)
    } else if !a {
        Some(core::cmp::Ordering::Less)
    } else {
        Some(core::cmp::Ordering::Greater)
    }
}

/// The text a `bool` value renders as.
pub open spec fn bool_text(b: bool) -> Seq<char> {
    if b {
        "true"@
    } else {
        "false"@
    }
}

/// Constant `bool` value: a zero-sized marker whose value is fixed by its
/// type parameter.
#[derive(Debug)]
pub struct Const<const VALUE: bool>;

impl<const VALUE: bool> Const<VALUE> {
    /// Produces the unique instance of this wrapper type.
    pub fn new() -> (r: Self)
        ensures
            r.spec_value() == VALUE,
    {
        Const
    }

    /// Renders the wrapped literal as text, exactly as the bare `bool`
    /// value renders.
    pub fn render(&self) -> (r: String)
        ensures
            r@ == bool_text(VALUE),
    {
        if VALUE {
            "true".to_string()
        } else {
            "false".to_string()
        }
    }
}

impl<const VALUE: bool> Clone for Const<VALUE> {
    fn clone(&self) -> (r: Self)
        ensures
            r.spec_value() == self.spec_value(),
    {
        Const
    }
}

impl<const VALUE: bool> Copy for Const<VALUE> {}

impl<const VALUE: bool> Default for Const<VALUE> {
    fn default() -> (r: Self)
        ensures
            r.spec_value() == VALUE,
    {
        Const
    }
}

impl PrimOrder for bool {
    open spec fn ord_le(self, rhs: bool) -> bool {
        self ==> rhs
    }

    open spec fn ord_lt(self, rhs: bool) -> bool {
        !self && rhs
    }

    proof fn ord_laws(a: bool, b: bool) {
    }
}

impl<const VALUE: bool> MayBeConstAT for Const<VALUE> {
    type Type = bool;

    open spec fn spec_is_const() -> bool {
        true
    }

    open spec fn spec_const_value() -> bool {
        VALUE
    }

    open spec fn spec_value(&self) -> bool {
        VALUE
    }

    proof fn constancy(&self) {
    }

    fn is_const() -> (r: bool) {
        true
    }

    fn value(&self) -> (r: bool) {
        VALUE
    }
}

impl MayBeConstAT for bool {
    type Type = bool;

    open spec fn spec_is_const() -> bool {
        false
    }

    open spec fn spec_const_value() -> bool {
        arbitrary()
    }

    open spec fn spec_value(&self) -> bool {
        *self
    }

    proof fn constancy(&self) {
    }

    fn is_const() -> (r: bool) {
        false
    }

    fn value(&self) -> (r: bool) {
        *self
    }
}

impl<const VALUE1: bool, const VALUE2: bool> Equals<Const<VALUE2>> for Const<VALUE1> {
    type ConstSide = Const<VALUE1>;

    proof fn const_side_resolution() {
    }

    fn get_const_side(&self, rhs: &Const<VALUE2>) -> (r: Option<Self::ConstSide>) {
        if VALUE1 == VALUE2 {
            Some(Const)
        } else {
            None
        }
    }
}

impl<const VALUE: bool> Equals<bool> for Const<VALUE> {
    type ConstSide = Const<VALUE>;

    proof fn const_side_resolution() {
    }

    fn get_const_side(&self, rhs: &bool) -> (r: Option<Self::ConstSide>) {
        if VALUE == *rhs {
            Some(Const)
        } else {
            None
        }
    }
}

impl<const VALUE: bool> Equals<Const<VALUE>> for bool {
    type ConstSide = Const<VALUE>;

    proof fn const_side_resolution() {
    }

    fn get_const_side(&self, rhs: &Const<VALUE>) -> (r: Option<Self::ConstSide>) {
        if *self == VALUE {
            Some(Const)
        } else {
            None
        }
    }
}

impl Equals<bool> for bool {
    type ConstSide = bool;

    proof fn const_side_resolution() {
    }

    fn get_const_side(&self, rhs: &bool) -> (r: Option<Self::ConstSide>) {
        if *self == *rhs {
            Some(*self)
        } else {
            None
        }
    }
}

impl<const VALUE1: bool, const VALUE2: bool> PartialEq<Const<VALUE2>> for Const<VALUE1> {
    fn eq(&self, rhs: &Const<VALUE2>) -> bool {
        VALUE1 == VALUE2
    }
}

impl<const VALUE1: bool, const VALUE2: bool> vstd::std_specs::cmp::PartialEqSpecImpl<Const<VALUE2>> for Const<VALUE1> {
    open spec fn obeys_eq_spec() -> bool {
        true
    }

    open spec fn eq_spec(&self, rhs: &Const<VALUE2>) -> bool {
        VALUE1 == VALUE2
    }
}

impl<const VALUE: bool> PartialEq<bool> for Const<VALUE> {
    fn eq(&self, rhs: &bool) -> bool {
        VALUE == *rhs
    }
}

impl<const VALUE: bool> vstd::std_specs::cmp::PartialEqSpecImpl<bool> for Const<VALUE> {
    open spec fn obeys_eq_spec() -> bool {
        true
    }

    open spec fn eq_spec(&self, rhs: &bool) -> bool {
        VALUE == *rhs
    }
}

impl<const VALUE: bool> PartialEq<Const<VALUE>> for bool {
    fn eq(&self, rhs: &Const<VALUE>) -> bool {
        *self == VALUE
    }
}

impl<const VALUE: bool> vstd::std_specs::cmp::PartialEqSpecImpl<Const<VALUE>> for bool {
    open spec fn obeys_eq_spec() -> bool {
        true
    }

    open spec fn eq_spec(&self, rhs: &Const<VALUE>) -> bool {
        *self == VALUE
    }
}

impl<const VALUE1: bool, const VALUE2: bool> PartialOrd<Const<VALUE2>> for Const<VALUE1> {
    fn partial_cmp(&self, rhs: &Const<VALUE2>) -> Option<core::cmp::Ordering> {
        if VALUE1 == VALUE2 {
            Some(core::cmp::Ordering::Equal)
        } else if !VALUE1 {
            Some(core::cmp::Ordering::Less)
        } else {
            Some(core::cmp::Ordering::Greater)
        }
    }
}

impl<const VALUE1: bool, const VALUE2: bool> vstd::std_specs::cmp::PartialOrdSpecImpl<Const<VALUE2>> for Const<VALUE1> {
    open spec fn obeys_partial_cmp_spec() -> bool {
        true
    }

    open spec fn partial_cmp_spec(&self, rhs: &Const<VALUE2>) -> Option<core::cmp::Ordering> {
        bool_cmp(VALUE1, VALUE2)
    }
}

impl<const VALUE: bool> PartialOrd<bool> for Const<VALUE> {
    fn partial_cmp(&self, rhs: &bool) -> Option<core::cmp::Ordering> {
        if VALUE == *rhs {
            Some(core::cmp::Ordering::Equal)
        } else if !VALUE {
            Some(core::cmp::Ordering::Less)
        } else {
            Some(core::cmp::Ordering::Greater)
        }
    }
}

impl<const VALUE: bool> vstd::std_specs::cmp::PartialOrdSpecImpl<bool> for Const<VALUE> {
    open spec fn obeys_partial_cmp_spec() -> bool {
        true
    }

    open spec fn partial_cmp_spec(&self, rhs: &bool) -> Option<core::cmp::Ordering> {
        bool_cmp(VALUE, *rhs)
    }
}

impl<const VALUE: bool> PartialOrd<Const<VALUE>> for bool {
    fn partial_cmp(&self, rhs: &Const<VALUE>) -> Option<core::cmp::Ordering> {
        if *self == VALUE {
            Some(core::cmp::Ordering::Equal)
        } else if !*self {
            Some(core::cmp::Ordering::Less)
        } else {
            Some(core::cmp::Ordering::Greater)
        }
    }
}

impl<const VALUE: bool> vstd::std_specs::cmp::PartialOrdSpecImpl<Const<VALUE>> for bool {
    open spec fn obeys_partial_cmp_spec() -> bool {
        true
    }

    open spec fn partial_cmp_spec(&self, rhs: &Const<VALUE>) -> Option<core::cmp::Ordering> {
        bool_cmp(*self, VALUE)
    }
}

impl Lt<Const<true>> for Const<false> {
    proof fn lt_fact() {
    }
}

impl<const VALUE: bool> Lt<bool> for Const<VALUE> {
    proof fn lt_fact() {
    }
}

impl<const VALUE: bool> Lt<Const<VALUE>> for bool {
    proof fn lt_fact() {
    }
}

impl Lt<bool> for bool {
    proof fn lt_fact() {
    }
}

impl Gt<Const<false>> for Const<true> {
    proof fn gt_fact() {
    }
}

impl<const VALUE: bool> Gt<bool> for Const<VALUE> {
    proof fn gt_fact() {
    }
}

impl<const VALUE: bool> Gt<Const<VALUE>> for bool {
    proof fn gt_fact() {
    }
}

impl Gt<bool> for bool {
    proof fn gt_fact() {
    }
}

impl<const VALUE: bool> Leq<Const<VALUE>> for Const<VALUE> {
    proof fn leq_fact() {
    }
}

impl Leq<Const<true>> for Const<false> {
    proof fn leq_fact() {
    }
}

impl<const VALUE: bool> Leq<bool> for Const<VALUE> {
    proof fn leq_fact() {
    }
}

impl<const VALUE: bool> Leq<Const<VALUE>> for bool {
    proof fn leq_fact() {
    }
}

impl Leq<bool> for bool {
    proof fn leq_fact() {
    }
}

impl<const VALUE: bool> Geq<Const<VALUE>> for Const<VALUE> {
    proof fn geq_fact() {
    }
}

impl Geq<Const<false>> for Const<true> {
    proof fn geq_fact() {
    }
}

impl<const VALUE: bool> Geq<bool> for Const<VALUE> {
    proof fn geq_fact() {
    }
}

impl<const VALUE: bool> Geq<Const<VALUE>> for bool {
    proof fn geq_fact() {
    }
}

impl Geq<bool> for bool {
    proof fn geq_fact() {
    }
}

} // verus!
