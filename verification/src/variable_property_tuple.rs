//! Tuples of producers, read field by field.
//!
//! Each field is asked for its own value, first field first, and a tuple is
//! stopped by the fault of the first field that has one.

use crate::variable_property::{PropertyError, VariableProperty};
use vstd::prelude::*;

verus! {

impl<A: VariableProperty> VariableProperty for (A,) {
    type Output = (A::Output,);

    open spec fn fault(&self) -> Option<PropertyError> {
        if self.0.fault() is Some {
            self.0.fault()
        } else {
            None
        }
    }

    open spec fn may_yield(&self, value: Self::Output) -> bool {
        &&& self.0.may_yield(value.0)
    }

    fn find_fault(&self) -> (found: Option<PropertyError>) {
        let found = self.0.find_fault();
        if found.is_some() {
            return found;
        }
        None
    }

    fn get_value(&self) -> (value: Self::Output) {
        let a = self.0.get_value();
        (a,)
    }
}

impl<A: VariableProperty, B: VariableProperty> VariableProperty for (A, B) {
    type Output = (A::Output, B::Output);

    open spec fn fault(&self) -> Option<PropertyError> {
        if self.0.fault() is Some {
            self.0.fault()
        } else if self.1.fault() is Some {
            self.1.fault()
        } else {
            None
        }
    }

    open spec fn may_yield(&self, value: Self::Output) -> bool {
        &&& self.0.may_yield(value.0)
        &&& self.1.may_yield(value.1)
    }

    fn find_fault(&self) -> (found: Option<PropertyError>) {
        let found = self.0.find_fault();
        if found.is_some() {
            return found;
        }
        let found = self.1.find_fault();
        if found.is_some() {
            return found;
        }
        None
    }

    fn get_value(&self) -> (value: Self::Output) {
        let a = self.0.get_value();
        let b = self.1.get_value();
        (a, b)
    }
}

impl<A: VariableProperty, B: VariableProperty, C: VariableProperty> VariableProperty for (A, B, C) {
    type Output = (A::Output, B::Output, C::Output);

    open spec fn fault(&self) -> Option<PropertyError> {
        if self.0.fault() is Some {
            self.0.fault()
        } else if self.1.fault() is Some {
            self.1.fault()
        } else if self.2.fault() is Some {
            self.2.fault()
        } else {
            None
        }
    }

    open spec fn may_yield(&self, value: Self::Output) -> bool {
        &&& self.0.may_yield(value.0)
        &&& self.1.may_yield(value.1)
        &&& self.2.may_yield(value.2)
    }

    fn find_fault(&self) -> (found: Option<PropertyError>) {
        let found = self.0.find_fault();
        if found.is_some() {
            return found;
        }
        let found = self.1.find_fault();
        if found.is_some() {
            return found;
        }
        let found = self.2.find_fault();
        if found.is_some() {
            return found;
        }
        None
    }

    fn get_value(&self) -> (value: Self::Output) {
        let a = self.0.get_value();
        let b = self.1.get_value();
        let c = self.2.get_value();
        (a, b, c)
    }
}

impl<
    A: VariableProperty,
    B: VariableProperty,
    C: VariableProperty,
    D: VariableProperty,
> VariableProperty for (A, B, C, D) {
    type Output = (A::Output, B::Output, C::Output, D::Output);

    open spec fn fault(&self) -> Option<PropertyError> {
        if self.0.fault() is Some {
            self.0.fault()
        } else if self.1.fault() is Some {
            self.1.fault()
        } else if self.2.fault() is Some {
            self.2.fault()
        } else if self.3.fault() is Some {
            self.3.fault()
        } else {
            None
        }
    }

    open spec fn may_yield(&self, value: Self::Output) -> bool {
        &&& self.0.may_yield(value.0)
        &&& self.1.may_yield(value.1)
        &&& self.2.may_yield(value.2)
        &&& self.3.may_yield(value.3)
    }

    fn find_fault(&self) -> (found: Option<PropertyError>) {
        let found = self.0.find_fault();
        if found.is_some() {
            return found;
        }
        let found = self.1.find_fault();
        if found.is_some() {
            return found;
        }
        let found = self.2.find_fault();
        if found.is_some() {
            return found;
        }
        let found = self.3.find_fault();
        if found.is_some() {
            return found;
        }
        None
    }

    fn get_value(&self) -> (value: Self::Output) {
        let a = self.0.get_value();
        let b = self.1.get_value();
        let c = self.2.get_value();
        let d = self.3.get_value();
        (a, b, c, d)
    }
}

impl<
    A: VariableProperty,
    B: VariableProperty,
    C: VariableProperty,
    D: VariableProperty,
    E: VariableProperty,
> VariableProperty for (A, B, C, D, E) {
    type Output = (A::Output, B::Output, C::Output, D::Output, E::Output);

    open spec fn fault(&self) -> Option<PropertyError> {
        if self.0.fault() is Some {
            self.0.fault()
        } else if self.1.fault() is Some {
            self.1.fault()
        } else if self.2.fault() is Some {
            self.2.fault()
        } else if self.3.fault() is Some {
            self.3.fault()
        } else if self.4.fault() is Some {
            self.4.fault()
        } else {
            None
        }
    }

    open spec fn may_yield(&self, value: Self::Output) -> bool {
        &&& self.0.may_yield(value.0)
        &&& self.1.may_yield(value.1)
        &&& self.2.may_yield(value.2)
        &&& self.3.may_yield(value.3)
        &&& self.4.may_yield(value.4)
    }

    fn find_fault(&self) -> (found: Option<PropertyError>) {
        let found = self.0.find_fault();
        if found.is_some() {
            return found;
        }
        let found = self.1.find_fault();
        if found.is_some() {
            return found;
        }
        let found = self.2.find_fault();
        if found.is_some() {
            return found;
        }
        let found = self.3.find_fault();
        if found.is_some() {
            return found;
        }
        let found = self.4.find_fault();
        if found.is_some() {
            return found;
        }
        None
    }

    fn get_value(&self) -> (value: Self::Output) {
        let a = self.0.get_value();
        let b = self.1.get_value();
        let c = self.2.get_value();
        let d = self.3.get_value();
        let e = self.4.get_value();
        (a, b, c, d, e)
    }
}

impl<
    A: VariableProperty,
    B: VariableProperty,
    C: VariableProperty,
    D: VariableProperty,
    E: VariableProperty,
    F: VariableProperty,
> VariableProperty for (A, B, C, D, E, F) {
    type Output = (A::Output, B::Output, C::Output, D::Output, E::Output, F::Output);

    open spec fn fault(&self) -> Option<PropertyError> {
        if self.0.fault() is Some {
            self.0.fault()
        } else if self.1.fault() is Some {
            self.1.fault()
        } else if self.2.fault() is Some {
            self.2.fault()
        } else if self.3.fault() is Some {
            self.3.fault()
        } else if self.4.fault() is Some {
            self.4.fault()
        } else if self.5.fault() is Some {
            self.5.fault()
        } else {
            None
        }
    }

    open spec fn may_yield(&self, value: Self::Output) -> bool {
        &&& self.0.may_yield(value.0)
        &&& self.1.may_yield(value.1)
        &&& self.2.may_yield(value.2)
        &&& self.3.may_yield(value.3)
        &&& self.4.may_yield(value.4)
        &&& self.5.may_yield(value.5)
    }

    fn find_fault(&self) -> (found: Option<PropertyError>) {
        let found = self.0.find_fault();
        if found.is_some() {
            return found;
        }
        let found = self.1.find_fault();
        if found.is_some() {
            return found;
        }
        let found = self.2.find_fault();
        if found.is_some() {
            return found;
        }
        let found = self.3.find_fault();
        if found.is_some() {
            return found;
        }
        let found = self.4.find_fault();
        if found.is_some() {
            return found;
        }
        let found = self.5.find_fault();
        if found.is_some() {
            return found;
        }
        None
    }

    fn get_value(&self) -> (value: Self::Output) {
        let a = self.0.get_value();
        let b = self.1.get_value();
        let c = self.2.get_value();
        let d = self.3.get_value();
        let e = self.4.get_value();
        let f = self.5.get_value();
        (a, b, c, d, e, f)
    }
}

impl<
    A: VariableProperty,
    B: VariableProperty,
    C: VariableProperty,
    D: VariableProperty,
    E: VariableProperty,
    F: VariableProperty,
    G: VariableProperty,
> VariableProperty for (A, B, C, D, E, F, G) {
    type Output = (A::Output, B::Output, C::Output, D::Output, E::Output, F::Output, G::Output);

    open spec fn fault(&self) -> Option<PropertyError> {
        if self.0.fault() is Some {
            self.0.fault()
        } else if self.1.fault() is Some {
            self.1.fault()
        } else if self.2.fault() is Some {
            self.2.fault()
        } else if self.3.fault() is Some {
            self.3.fault()
        } else if self.4.fault() is Some {
            self.4.fault()
        } else if self.5.fault() is Some {
            self.5.fault()
        } else if self.6.fault() is Some {
            self.6.fault()
        } else {
            None
        }
    }

    open spec fn may_yield(&self, value: Self::Output) -> bool {
        &&& self.0.may_yield(value.0)
        &&& self.1.may_yield(value.1)
        &&& self.2.may_yield(value.2)
        &&& self.3.may_yield(value.3)
        &&& self.4.may_yield(value.4)
        &&& self.5.may_yield(value.5)
        &&& self.6.may_yield(value.6)
    }

    fn find_fault(&self) -> (found: Option<PropertyError>) {
        let found = self.0.find_fault();
        if found.is_some() {
            return found;
        }
        let found = self.1.find_fault();
        if found.is_some() {
            return found;
        }
        let found = self.2.find_fault();
        if found.is_some() {
            return found;
        }
        let found = self.3.find_fault();
        if found.is_some() {
            return found;
        }
        let found = self.4.find_fault();
        if found.is_some() {
            return found;
        }
        let found = self.5.find_fault();
        if found.is_some() {
            return found;
        }
        let found = self.6.find_fault();
        if found.is_some() {
            return found;
        }
        None
    }

    fn get_value(&self) -> (value: Self::Output) {
        let a = self.0.get_value();
        let b = self.1.get_value();
        let c = self.2.get_value();
        let d = self.3.get_value();
        let e = self.4.get_value();
        let f = self.5.get_value();
        let g = self.6.get_value();
        (a, b, c, d, e, f, g)
    }
}

impl<
    A: VariableProperty,
    B: VariableProperty,
    C: VariableProperty,
    D: VariableProperty,
    E: VariableProperty,
    F: VariableProperty,
    G: VariableProperty,
    H: VariableProperty,
> VariableProperty for (A, B, C, D, E, F, G, H) {
    type Output = (
        A::Output,
        B::Output,
        C::Output,
        D::Output,
        E::Output,
        F::Output,
        G::Output,
        H::Output,
    );

    open spec fn fault(&self) -> Option<PropertyError> {
        if self.0.fault() is Some {
            self.0.fault()
        } else if self.1.fault() is Some {
            self.1.fault()
        } else if self.2.fault() is Some {
            self.2.fault()
        } else if self.3.fault() is Some {
            self.3.fault()
        } else if self.4.fault() is Some {
            self.4.fault()
        } else if self.5.fault() is Some {
            self.5.fault()
        } else if self.6.fault() is Some {
            self.6.fault()
        } else if self.7.fault() is Some {
            self.7.fault()
        } else {
            None
        }
    }

    open spec fn may_yield(&self, value: Self::Output) -> bool {
        &&& self.0.may_yield(value.0)
        &&& self.1.may_yield(value.1)
        &&& self.2.may_yield(value.2)
        &&& self.3.may_yield(value.3)
        &&& self.4.may_yield(value.4)
        &&& self.5.may_yield(value.5)
        &&& self.6.may_yield(value.6)
        &&& self.7.may_yield(value.7)
    }

    fn find_fault(&self) -> (found: Option<PropertyError>) {
        let found = self.0.find_fault();
        if found.is_some() {
            return found;
        }
        let found = self.1.find_fault();
        if found.is_some() {
            return found;
        }
        let found = self.2.find_fault();
        if found.is_some() {
            return found;
        }
        let found = self.3.find_fault();
        if found.is_some() {
            return found;
        }
        let found = self.4.find_fault();
        if found.is_some() {
            return found;
        }
        let found = self.5.find_fault();
        if found.is_some() {
            return found;
        }
        let found = self.6.find_fault();
        if found.is_some() {
            return found;
        }
        let found = self.7.find_fault();
        if found.is_some() {
            return found;
        }
        None
    }

    fn get_value(&self) -> (value: Self::Output) {
        let a = self.0.get_value();
        let b = self.1.get_value();
        let c = self.2.get_value();
        let d = self.3.get_value();
        let e = self.4.get_value();
        let f = self.5.get_value();
        let g = self.6.get_value();
        let h = self.7.get_value();
        (a, b, c, d, e, f, g, h)
    }
}

impl<
    A: VariableProperty,
    B: VariableProperty,
    C: VariableProperty,
    D: VariableProperty,
    E: VariableProperty,
    F: VariableProperty,
    G: VariableProperty,
    H: VariableProperty,
    I: VariableProperty,
> VariableProperty for (A, B, C, D, E, F, G, H, I) {
    type Output = (
        A::Output,
        B::Output,
        C::Output,
        D::Output,
        E::Output,
        F::Output,
        G::Output,
        H::Output,
        I::Output,
    );

    open spec fn fault(&self) -> Option<PropertyError> {
        if self.0.fault() is Some {
            self.0.fault()
        } else if self.1.fault() is Some {
            self.1.fault()
        } else if self.2.fault() is Some {
            self.2.fault()
        } else if self.3.fault() is Some {
            self.3.fault()
        } else if self.4.fault() is Some {
            self.4.fault()
        } else if self.5.fault() is Some {
            self.5.fault()
        } else if self.6.fault() is Some {
            self.6.fault()
        } else if self.7.fault() is Some {
            self.7.fault()
        } else if self.8.fault() is Some {
            self.8.fault()
        } else {
            None
        }
    }

    open spec fn may_yield(&self, value: Self::Output) -> bool {
        &&& self.0.may_yield(value.0)
        &&& self.1.may_yield(value.1)
        &&& self.2.may_yield(value.2)
        &&& self.3.may_yield(value.3)
        &&& self.4.may_yield(value.4)
        &&& self.5.may_yield(value.5)
        &&& self.6.may_yield(value.6)
        &&& self.7.may_yield(value.7)
        &&& self.8.may_yield(value.8)
    }

    fn find_fault(&self) -> (found: Option<PropertyError>) {
        let found = self.0.find_fault();
        if found.is_some() {
            return found;
        }
        let found = self.1.find_fault();
        if found.is_some() {
            return found;
        }
        let found = self.2.find_fault();
        if found.is_some() {
            return found;
        }
        let found = self.3.find_fault();
        if found.is_some() {
            return found;
        }
        let found = self.4.find_fault();
        if found.is_some() {
            return found;
        }
        let found = self.5.find_fault();
        if found.is_some() {
            return found;
        }
        let found = self.6.find_fault();
        if found.is_some() {
            return found;
        }
        let found = self.7.find_fault();
        if found.is_some() {
            return found;
        }
        let found = self.8.find_fault();
        if found.is_some() {
            return found;
        }
        None
    }

    fn get_value(&self) -> (value: Self::Output) {
        let a = self.0.get_value();
        let b = self.1.get_value();
        let c = self.2.get_value();
        let d = self.3.get_value();
        let e = self.4.get_value();
        let f = self.5.get_value();
        let g = self.6.get_value();
        let h = self.7.get_value();
        let i = self.8.get_value();
        (a, b, c, d, e, f, g, h, i)
    }
}

impl<
    A: VariableProperty,
    B: VariableProperty,
    C: VariableProperty,
    D: VariableProperty,
    E: VariableProperty,
    F: VariableProperty,
    G: VariableProperty,
    H: VariableProperty,
    I: VariableProperty,
    J: VariableProperty,
> VariableProperty for (A, B, C, D, E, F, G, H, I, J) {
    type Output = (
        A::Output,
        B::Output,
        C::Output,
        D::Output,
        E::Output,
        F::Output,
        G::Output,
        H::Output,
        I::Output,
        J::Output,
    );

    open spec fn fault(&self) -> Option<PropertyError> {
        if self.0.fault() is Some {
            self.0.fault()
        } else if self.1.fault() is Some {
            self.1.fault()
        } else if self.2.fault() is Some {
            self.2.fault()
        } else if self.3.fault() is Some {
            self.3.fault()
        } else if self.4.fault() is Some {
            self.4.fault()
        } else if self.5.fault() is Some {
            self.5.fault()
        } else if self.6.fault() is Some {
            self.6.fault()
        } else if self.7.fault() is Some {
            self.7.fault()
        } else if self.8.fault() is Some {
            self.8.fault()
        } else if self.9.fault() is Some {
            self.9.fault()
        } else {
            None
        }
    }

    open spec fn may_yield(&self, value: Self::Output) -> bool {
        &&& self.0.may_yield(value.0)
        &&& self.1.may_yield(value.1)
        &&& self.2.may_yield(value.2)
        &&& self.3.may_yield(value.3)
        &&& self.4.may_yield(value.4)
        &&& self.5.may_yield(value.5)
        &&& self.6.may_yield(value.6)
        &&& self.7.may_yield(value.7)
        &&& self.8.may_yield(value.8)
        &&& self.9.may_yield(value.9)
    }

    fn find_fault(&self) -> (found: Option<PropertyError>) {
        let found = self.0.find_fault();
        if found.is_some() {
            return found;
        }
        let found = self.1.find_fault();
        if found.is_some() {
            return found;
        }
        let found = self.2.find_fault();
        if found.is_some() {
            return found;
        }
        let found = self.3.find_fault();
        if found.is_some() {
            return found;
        }
        let found = self.4.find_fault();
        if found.is_some() {
            return found;
        }
        let found = self.5.find_fault();
        if found.is_some() {
            return found;
        }
        let found = self.6.find_fault();
        if found.is_some() {
            return found;
        }
        let found = self.7.find_fault();
        if found.is_some() {
            return found;
        }
        let found = self.8.find_fault();
        if found.is_some() {
            return found;
        }
        let found = self.9.find_fault();
        if found.is_some() {
            return found;
        }
        None
    }

    fn get_value(&self) -> (value: Self::Output) {
        let a = self.0.get_value();
        let b = self.1.get_value();
        let c = self.2.get_value();
        let d = self.3.get_value();
        let e = self.4.get_value();
        let f = self.5.get_value();
        let g = self.6.get_value();
        let h = self.7.get_value();
        let i = self.8.get_value();
        let j = self.9.get_value();
        (a, b, c, d, e, f, g, h, i, j)
    }
}

impl<
    A: VariableProperty,
    B: VariableProperty,
    C: VariableProperty,
    D: VariableProperty,
    E: VariableProperty,
    F: VariableProperty,
    G: VariableProperty,
    H: VariableProperty,
    I: VariableProperty,
    J: VariableProperty,
    K: VariableProperty,
> VariableProperty for (A, B, C, D, E, F, G, H, I, J, K) {
    type Output = (
        A::Output,
        B::Output,
        C::Output,
        D::Output,
        E::Output,
        F::Output,
        G::Output,
        H::Output,
        I::Output,
        J::Output,
        K::Output,
    );

    open spec fn fault(&self) -> Option<PropertyError> {
        if self.0.fault() is Some {
            self.0.fault()
        } else if self.1.fault() is Some {
            self.1.fault()
        } else if self.2.fault() is Some {
            self.2.fault()
        } else if self.3.fault() is Some {
            self.3.fault()
        } else if self.4.fault() is Some {
            self.4.fault()
        } else if self.5.fault() is Some {
            self.5.fault()
        } else if self.6.fault() is Some {
            self.6.fault()
        } else if self.7.fault() is Some {
            self.7.fault()
        } else if self.8.fault() is Some {
            self.8.fault()
        } else if self.9.fault() is Some {
            self.9.fault()
        } else if self.10.fault() is Some {
            self.10.fault()
        } else {
            None
        }
    }

    open spec fn may_yield(&self, value: Self::Output) -> bool {
        &&& self.0.may_yield(value.0)
        &&& self.1.may_yield(value.1)
        &&& self.2.may_yield(value.2)
        &&& self.3.may_yield(value.3)
        &&& self.4.may_yield(value.4)
        &&& self.5.may_yield(value.5)
        &&& self.6.may_yield(value.6)
        &&& self.7.may_yield(value.7)
        &&& self.8.may_yield(value.8)
        &&& self.9.may_yield(value.9)
        &&& self.10.may_yield(value.10)
    }

    fn find_fault(&self) -> (found: Option<PropertyError>) {
        let found = self.0.find_fault();
        if found.is_some() {
            return found;
        }
        let found = self.1.find_fault();
        if found.is_some() {
            return found;
        }
        let found = self.2.find_fault();
        if found.is_some() {
            return found;
        }
        let found = self.3.find_fault();
        if found.is_some() {
            return found;
        }
        let found = self.4.find_fault();
        if found.is_some() {
            return found;
        }
        let found = self.5.find_fault();
        if found.is_some() {
            return found;
        }
        let found = self.6.find_fault();
        if found.is_some() {
            return found;
        }
        let found = self.7.find_fault();
        if found.is_some() {
            return found;
        }
        let found = self.8.find_fault();
        if found.is_some() {
            return found;
        }
        let found = self.9.find_fault();
        if found.is_some() {
            return found;
        }
        let found = self.10.find_fault();
        if found.is_some() {
            return found;
        }
        None
    }

    fn get_value(&self) -> (value: Self::Output) {
        let a = self.0.get_value();
        let b = self.1.get_value();
        let c = self.2.get_value();
        let d = self.3.get_value();
        let e = self.4.get_value();
        let f = self.5.get_value();
        let g = self.6.get_value();
        let h = self.7.get_value();
        let i = self.8.get_value();
        let j = self.9.get_value();
        let k = self.10.get_value();
        (a, b, c, d, e, f, g, h, i, j, k)
    }
}

impl<
    A: VariableProperty,
    B: VariableProperty,
    C: VariableProperty,
    D: VariableProperty,
    E: VariableProperty,
    F: VariableProperty,
    G: VariableProperty,
    H: VariableProperty,
    I: VariableProperty,
    J: VariableProperty,
    K: VariableProperty,
    L: VariableProperty,
> VariableProperty for (A, B, C, D, E, F, G, H, I, J, K, L) {
    type Output = (
        A::Output,
        B::Output,
        C::Output,
        D::Output,
        E::Output,
        F::Output,
        G::Output,
        H::Output,
        I::Output,
        J::Output,
        K::Output,
        L::Output,
    );

    open spec fn fault(&self) -> Option<PropertyError> {
        if self.0.fault() is Some {
            self.0.fault()
        } else if self.1.fault() is Some {
            self.1.fault()
        } else if self.2.fault() is Some {
            self.2.fault()
        } else if self.3.fault() is Some {
            self.3.fault()
        } else if self.4.fault() is Some {
            self.4.fault()
        } else if self.5.fault() is Some {
            self.5.fault()
        } else if self.6.fault() is Some {
            self.6.fault()
        } else if self.7.fault() is Some {
            self.7.fault()
        } else if self.8.fault() is Some {
            self.8.fault()
        } else if self.9.fault() is Some {
            self.9.fault()
        } else if self.10.fault() is Some {
            self.10.fault()
        } else if self.11.fault() is Some {
            self.11.fault()
        } else {
            None
        }
    }

    open spec fn may_yield(&self, value: Self::Output) -> bool {
        &&& self.0.may_yield(value.0)
        &&& self.1.may_yield(value.1)
        &&& self.2.may_yield(value.2)
        &&& self.3.may_yield(value.3)
        &&& self.4.may_yield(value.4)
        &&& self.5.may_yield(value.5)
        &&& self.6.may_yield(value.6)
        &&& self.7.may_yield(value.7)
        &&& self.8.may_yield(value.8)
        &&& self.9.may_yield(value.9)
        &&& self.10.may_yield(value.10)
        &&& self.11.may_yield(value.11)
    }

    fn find_fault(&self) -> (found: Option<PropertyError>) {
        let found = self.0.find_fault();
        if found.is_some() {
            return found;
        }
        let found = self.1.find_fault();
        if found.is_some() {
            return found;
        }
        let found = self.2.find_fault();
        if found.is_some() {
            return found;
        }
        let found = self.3.find_fault();
        if found.is_some() {
            return found;
        }
        let found = self.4.find_fault();
        if found.is_some() {
            return found;
        }
        let found = self.5.find_fault();
        if found.is_some() {
            return found;
        }
        let found = self.6.find_fault();
        if found.is_some() {
            return found;
        }
        let found = self.7.find_fault();
        if found.is_some() {
            return found;
        }
        let found = self.8.find_fault();
        if found.is_some() {
            return found;
        }
        let found = self.9.find_fault();
        if found.is_some() {
            return found;
        }
        let found = self.10.find_fault();
        if found.is_some() {
            return found;
        }
        let found = self.11.find_fault();
        if found.is_some() {
            return found;
        }
        None
    }

    fn get_value(&self) -> (value: Self::Output) {
        let a = self.0.get_value();
        let b = self.1.get_value();
        let c = self.2.get_value();
        let d = self.3.get_value();
        let e = self.4.get_value();
        let f = self.5.get_value();
        let g = self.6.get_value();
        let h = self.7.get_value();
        let i = self.8.get_value();
        let j = self.9.get_value();
        let k = self.10.get_value();
        let l = self.11.get_value();
        (a, b, c, d, e, f, g, h, i, j, k, l)
    }
}

} // verus!
