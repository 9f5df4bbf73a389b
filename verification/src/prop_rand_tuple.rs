//! Drawing tuples, field by field.
//!
//! Each field is drawn on its own, from the bounds that the range holds at
//! that field and under the range's one `inclusive` flag, first field first.

use crate::prop_rand::PropRand;
use crate::prop_range::PropRange;
use rand::rngs::ThreadRng;
use vstd::prelude::*;

verus! {

impl<A: PropRand + Copy> PropRand for (A,) {
    open spec fn can_sample(range: PropRange<Self>) -> bool {
        &&& A::can_sample(PropRange::new(range.start.0, range.end.0, range.inclusive))
    }

    open spec fn lies_in(self, range: PropRange<Self>) -> bool {
        &&& self.0.lies_in(PropRange::new(range.start.0, range.end.0, range.inclusive))
    }

    fn check_range(range: &PropRange<Self>) -> (ok: bool) {
        A::check_range(&PropRange::new(range.start.0, range.end.0, range.inclusive))
    }

    fn gen(rng: &mut ThreadRng) -> Self {
        let a = A::gen(rng);
        (a,)
    }

    fn gen_range(rng: &mut ThreadRng, range: PropRange<Self>) -> (value: Self) {
        let a = A::gen_range(rng, PropRange::new(range.start.0, range.end.0, range.inclusive));
        (a,)
    }
}

impl<A: PropRand + Copy, B: PropRand + Copy> PropRand for (A, B) {
    open spec fn can_sample(range: PropRange<Self>) -> bool {
        &&& A::can_sample(PropRange::new(range.start.0, range.end.0, range.inclusive))
        &&& B::can_sample(PropRange::new(range.start.1, range.end.1, range.inclusive))
    }

    open spec fn lies_in(self, range: PropRange<Self>) -> bool {
        &&& self.0.lies_in(PropRange::new(range.start.0, range.end.0, range.inclusive))
        &&& self.1.lies_in(PropRange::new(range.start.1, range.end.1, range.inclusive))
    }

    fn check_range(range: &PropRange<Self>) -> (ok: bool) {
        A::check_range(&PropRange::new(range.start.0, range.end.0, range.inclusive))
            && B::check_range(&PropRange::new(range.start.1, range.end.1, range.inclusive))
    }

    fn gen(rng: &mut ThreadRng) -> Self {
        let a = A::gen(rng);
        let b = B::gen(rng);
        (a, b)
    }

    fn gen_range(rng: &mut ThreadRng, range: PropRange<Self>) -> (value: Self) {
        let a = A::gen_range(rng, PropRange::new(range.start.0, range.end.0, range.inclusive));
        let b = B::gen_range(rng, PropRange::new(range.start.1, range.end.1, range.inclusive));
        (a, b)
    }
}

impl<A: PropRand + Copy, B: PropRand + Copy, C: PropRand + Copy> PropRand for (A, B, C) {
    open spec fn can_sample(range: PropRange<Self>) -> bool {
        &&& A::can_sample(PropRange::new(range.start.0, range.end.0, range.inclusive))
        &&& B::can_sample(PropRange::new(range.start.1, range.end.1, range.inclusive))
        &&& C::can_sample(PropRange::new(range.start.2, range.end.2, range.inclusive))
    }

    open spec fn lies_in(self, range: PropRange<Self>) -> bool {
        &&& self.0.lies_in(PropRange::new(range.start.0, range.end.0, range.inclusive))
        &&& self.1.lies_in(PropRange::new(range.start.1, range.end.1, range.inclusive))
        &&& self.2.lies_in(PropRange::new(range.start.2, range.end.2, range.inclusive))
    }

    fn check_range(range: &PropRange<Self>) -> (ok: bool) {
        A::check_range(&PropRange::new(range.start.0, range.end.0, range.inclusive))
            && B::check_range(&PropRange::new(range.start.1, range.end.1, range.inclusive))
            && C::check_range(&PropRange::new(range.start.2, range.end.2, range.inclusive))
    }

    fn gen(rng: &mut ThreadRng) -> Self {
        let a = A::gen(rng);
        let b = B::gen(rng);
        let c = C::gen(rng);
        (a, b, c)
    }

    fn gen_range(rng: &mut ThreadRng, range: PropRange<Self>) -> (value: Self) {
        let a = A::gen_range(rng, PropRange::new(range.start.0, range.end.0, range.inclusive));
        let b = B::gen_range(rng, PropRange::new(range.start.1, range.end.1, range.inclusive));
        let c = C::gen_range(rng, PropRange::new(range.start.2, range.end.2, range.inclusive));
        (a, b, c)
    }
}

impl<
    A: PropRand + Copy,
    B: PropRand + Copy,
    C: PropRand + Copy,
    D: PropRand + Copy,
> PropRand for (A, B, C, D) {
    open spec fn can_sample(range: PropRange<Self>) -> bool {
        &&& A::can_sample(PropRange::new(range.start.0, range.end.0, range.inclusive))
        &&& B::can_sample(PropRange::new(range.start.1, range.end.1, range.inclusive))
        &&& C::can_sample(PropRange::new(range.start.2, range.end.2, range.inclusive))
        &&& D::can_sample(PropRange::new(range.start.3, range.end.3, range.inclusive))
    }

    open spec fn lies_in(self, range: PropRange<Self>) -> bool {
        &&& self.0.lies_in(PropRange::new(range.start.0, range.end.0, range.inclusive))
        &&& self.1.lies_in(PropRange::new(range.start.1, range.end.1, range.inclusive))
        &&& self.2.lies_in(PropRange::new(range.start.2, range.end.2, range.inclusive))
        &&& self.3.lies_in(PropRange::new(range.start.3, range.end.3, range.inclusive))
    }

    fn check_range(range: &PropRange<Self>) -> (ok: bool) {
        A::check_range(&PropRange::new(range.start.0, range.end.0, range.inclusive))
            && B::check_range(&PropRange::new(range.start.1, range.end.1, range.inclusive))
            && C::check_range(&PropRange::new(range.start.2, range.end.2, range.inclusive))
            && D::check_range(&PropRange::new(range.start.3, range.end.3, range.inclusive))
    }

    fn gen(rng: &mut ThreadRng) -> Self {
        let a = A::gen(rng);
        let b = B::gen(rng);
        let c = C::gen(rng);
        let d = D::gen(rng);
        (a, b, c, d)
    }

    fn gen_range(rng: &mut ThreadRng, range: PropRange<Self>) -> (value: Self) {
        let a = A::gen_range(rng, PropRange::new(range.start.0, range.end.0, range.inclusive));
        let b = B::gen_range(rng, PropRange::new(range.start.1, range.end.1, range.inclusive));
        let c = C::gen_range(rng, PropRange::new(range.start.2, range.end.2, range.inclusive));
        let d = D::gen_range(rng, PropRange::new(range.start.3, range.end.3, range.inclusive));
        (a, b, c, d)
    }
}

impl<
    A: PropRand + Copy,
    B: PropRand + Copy,
    C: PropRand + Copy,
    D: PropRand + Copy,
    E: PropRand + Copy,
> PropRand for (A, B, C, D, E) {
    open spec fn can_sample(range: PropRange<Self>) -> bool {
        &&& A::can_sample(PropRange::new(range.start.0, range.end.0, range.inclusive))
        &&& B::can_sample(PropRange::new(range.start.1, range.end.1, range.inclusive))
        &&& C::can_sample(PropRange::new(range.start.2, range.end.2, range.inclusive))
        &&& D::can_sample(PropRange::new(range.start.3, range.end.3, range.inclusive))
        &&& E::can_sample(PropRange::new(range.start.4, range.end.4, range.inclusive))
    }

    open spec fn lies_in(self, range: PropRange<Self>) -> bool {
        &&& self.0.lies_in(PropRange::new(range.start.0, range.end.0, range.inclusive))
        &&& self.1.lies_in(PropRange::new(range.start.1, range.end.1, range.inclusive))
        &&& self.2.lies_in(PropRange::new(range.start.2, range.end.2, range.inclusive))
        &&& self.3.lies_in(PropRange::new(range.start.3, range.end.3, range.inclusive))
        &&& self.4.lies_in(PropRange::new(range.start.4, range.end.4, range.inclusive))
    }

    fn check_range(range: &PropRange<Self>) -> (ok: bool) {
        A::check_range(&PropRange::new(range.start.0, range.end.0, range.inclusive))
            && B::check_range(&PropRange::new(range.start.1, range.end.1, range.inclusive))
            && C::check_range(&PropRange::new(range.start.2, range.end.2, range.inclusive))
            && D::check_range(&PropRange::new(range.start.3, range.end.3, range.inclusive))
            && E::check_range(&PropRange::new(range.start.4, range.end.4, range.inclusive))
    }

    fn gen(rng: &mut ThreadRng) -> Self {
        let a = A::gen(rng);
        let b = B::gen(rng);
        let c = C::gen(rng);
        let d = D::gen(rng);
        let e = E::gen(rng);
        (a, b, c, d, e)
    }

    fn gen_range(rng: &mut ThreadRng, range: PropRange<Self>) -> (value: Self) {
        let a = A::gen_range(rng, PropRange::new(range.start.0, range.end.0, range.inclusive));
        let b = B::gen_range(rng, PropRange::new(range.start.1, range.end.1, range.inclusive));
        let c = C::gen_range(rng, PropRange::new(range.start.2, range.end.2, range.inclusive));
        let d = D::gen_range(rng, PropRange::new(range.start.3, range.end.3, range.inclusive));
        let e = E::gen_range(rng, PropRange::new(range.start.4, range.end.4, range.inclusive));
        (a, b, c, d, e)
    }
}

impl<
    A: PropRand + Copy,
    B: PropRand + Copy,
    C: PropRand + Copy,
    D: PropRand + Copy,
    E: PropRand + Copy,
    F: PropRand + Copy,
> PropRand for (A, B, C, D, E, F) {
    open spec fn can_sample(range: PropRange<Self>) -> bool {
        &&& A::can_sample(PropRange::new(range.start.0, range.end.0, range.inclusive))
        &&& B::can_sample(PropRange::new(range.start.1, range.end.1, range.inclusive))
        &&& C::can_sample(PropRange::new(range.start.2, range.end.2, range.inclusive))
        &&& D::can_sample(PropRange::new(range.start.3, range.end.3, range.inclusive))
        &&& E::can_sample(PropRange::new(range.start.4, range.end.4, range.inclusive))
        &&& F::can_sample(PropRange::new(range.start.5, range.end.5, range.inclusive))
    }

    open spec fn lies_in(self, range: PropRange<Self>) -> bool {
        &&& self.0.lies_in(PropRange::new(range.start.0, range.end.0, range.inclusive))
        &&& self.1.lies_in(PropRange::new(range.start.1, range.end.1, range.inclusive))
        &&& self.2.lies_in(PropRange::new(range.start.2, range.end.2, range.inclusive))
        &&& self.3.lies_in(PropRange::new(range.start.3, range.end.3, range.inclusive))
        &&& self.4.lies_in(PropRange::new(range.start.4, range.end.4, range.inclusive))
        &&& self.5.lies_in(PropRange::new(range.start.5, range.end.5, range.inclusive))
    }

    fn check_range(range: &PropRange<Self>) -> (ok: bool) {
        A::check_range(&PropRange::new(range.start.0, range.end.0, range.inclusive))
            && B::check_range(&PropRange::new(range.start.1, range.end.1, range.inclusive))
            && C::check_range(&PropRange::new(range.start.2, range.end.2, range.inclusive))
            && D::check_range(&PropRange::new(range.start.3, range.end.3, range.inclusive))
            && E::check_range(&PropRange::new(range.start.4, range.end.4, range.inclusive))
            && F::check_range(&PropRange::new(range.start.5, range.end.5, range.inclusive))
    }

    fn gen(rng: &mut ThreadRng) -> Self {
        let a = A::gen(rng);
        let b = B::gen(rng);
        let c = C::gen(rng);
        let d = D::gen(rng);
        let e = E::gen(rng);
        let f = F::gen(rng);
        (a, b, c, d, e, f)
    }

    fn gen_range(rng: &mut ThreadRng, range: PropRange<Self>) -> (value: Self) {
        let a = A::gen_range(rng, PropRange::new(range.start.0, range.end.0, range.inclusive));
        let b = B::gen_range(rng, PropRange::new(range.start.1, range.end.1, range.inclusive));
        let c = C::gen_range(rng, PropRange::new(range.start.2, range.end.2, range.inclusive));
        let d = D::gen_range(rng, PropRange::new(range.start.3, range.end.3, range.inclusive));
        let e = E::gen_range(rng, PropRange::new(range.start.4, range.end.4, range.inclusive));
        let f = F::gen_range(rng, PropRange::new(range.start.5, range.end.5, range.inclusive));
        (a, b, c, d, e, f)
    }
}

impl<
    A: PropRand + Copy,
    B: PropRand + Copy,
    C: PropRand + Copy,
    D: PropRand + Copy,
    E: PropRand + Copy,
    F: PropRand + Copy,
    G: PropRand + Copy,
> PropRand for (A, B, C, D, E, F, G) {
    open spec fn can_sample(range: PropRange<Self>) -> bool {
        &&& A::can_sample(PropRange::new(range.start.0, range.end.0, range.inclusive))
        &&& B::can_sample(PropRange::new(range.start.1, range.end.1, range.inclusive))
        &&& C::can_sample(PropRange::new(range.start.2, range.end.2, range.inclusive))
        &&& D::can_sample(PropRange::new(range.start.3, range.end.3, range.inclusive))
        &&& E::can_sample(PropRange::new(range.start.4, range.end.4, range.inclusive))
        &&& F::can_sample(PropRange::new(range.start.5, range.end.5, range.inclusive))
        &&& G::can_sample(PropRange::new(range.start.6, range.end.6, range.inclusive))
    }

    open spec fn lies_in(self, range: PropRange<Self>) -> bool {
        &&& self.0.lies_in(PropRange::new(range.start.0, range.end.0, range.inclusive))
        &&& self.1.lies_in(PropRange::new(range.start.1, range.end.1, range.inclusive))
        &&& self.2.lies_in(PropRange::new(range.start.2, range.end.2, range.inclusive))
        &&& self.3.lies_in(PropRange::new(range.start.3, range.end.3, range.inclusive))
        &&& self.4.lies_in(PropRange::new(range.start.4, range.end.4, range.inclusive))
        &&& self.5.lies_in(PropRange::new(range.start.5, range.end.5, range.inclusive))
        &&& self.6.lies_in(PropRange::new(range.start.6, range.end.6, range.inclusive))
    }

    fn check_range(range: &PropRange<Self>) -> (ok: bool) {
        A::check_range(&PropRange::new(range.start.0, range.end.0, range.inclusive))
            && B::check_range(&PropRange::new(range.start.1, range.end.1, range.inclusive))
            && C::check_range(&PropRange::new(range.start.2, range.end.2, range.inclusive))
            && D::check_range(&PropRange::new(range.start.3, range.end.3, range.inclusive))
            && E::check_range(&PropRange::new(range.start.4, range.end.4, range.inclusive))
            && F::check_range(&PropRange::new(range.start.5, range.end.5, range.inclusive))
            && G::check_range(&PropRange::new(range.start.6, range.end.6, range.inclusive))
    }

    fn gen(rng: &mut ThreadRng) -> Self {
        let a = A::gen(rng);
        let b = B::gen(rng);
        let c = C::gen(rng);
        let d = D::gen(rng);
        let e = E::gen(rng);
        let f = F::gen(rng);
        let g = G::gen(rng);
        (a, b, c, d, e, f, g)
    }

    fn gen_range(rng: &mut ThreadRng, range: PropRange<Self>) -> (value: Self) {
        let a = A::gen_range(rng, PropRange::new(range.start.0, range.end.0, range.inclusive));
        let b = B::gen_range(rng, PropRange::new(range.start.1, range.end.1, range.inclusive));
        let c = C::gen_range(rng, PropRange::new(range.start.2, range.end.2, range.inclusive));
        let d = D::gen_range(rng, PropRange::new(range.start.3, range.end.3, range.inclusive));
        let e = E::gen_range(rng, PropRange::new(range.start.4, range.end.4, range.inclusive));
        let f = F::gen_range(rng, PropRange::new(range.start.5, range.end.5, range.inclusive));
        let g = G::gen_range(rng, PropRange::new(range.start.6, range.end.6, range.inclusive));
        (a, b, c, d, e, f, g)
    }
}

impl<
    A: PropRand + Copy,
    B: PropRand + Copy,
    C: PropRand + Copy,
    D: PropRand + Copy,
    E: PropRand + Copy,
    F: PropRand + Copy,
    G: PropRand + Copy,
    H: PropRand + Copy,
> PropRand for (A, B, C, D, E, F, G, H) {
    open spec fn can_sample(range: PropRange<Self>) -> bool {
        &&& A::can_sample(PropRange::new(range.start.0, range.end.0, range.inclusive))
        &&& B::can_sample(PropRange::new(range.start.1, range.end.1, range.inclusive))
        &&& C::can_sample(PropRange::new(range.start.2, range.end.2, range.inclusive))
        &&& D::can_sample(PropRange::new(range.start.3, range.end.3, range.inclusive))
        &&& E::can_sample(PropRange::new(range.start.4, range.end.4, range.inclusive))
        &&& F::can_sample(PropRange::new(range.start.5, range.end.5, range.inclusive))
        &&& G::can_sample(PropRange::new(range.start.6, range.end.6, range.inclusive))
        &&& H::can_sample(PropRange::new(range.start.7, range.end.7, range.inclusive))
    }

    open spec fn lies_in(self, range: PropRange<Self>) -> bool {
        &&& self.0.lies_in(PropRange::new(range.start.0, range.end.0, range.inclusive))
        &&& self.1.lies_in(PropRange::new(range.start.1, range.end.1, range.inclusive))
        &&& self.2.lies_in(PropRange::new(range.start.2, range.end.2, range.inclusive))
        &&& self.3.lies_in(PropRange::new(range.start.3, range.end.3, range.inclusive))
        &&& self.4.lies_in(PropRange::new(range.start.4, range.end.4, range.inclusive))
        &&& self.5.lies_in(PropRange::new(range.start.5, range.end.5, range.inclusive))
        &&& self.6.lies_in(PropRange::new(range.start.6, range.end.6, range.inclusive))
        &&& self.7.lies_in(PropRange::new(range.start.7, range.end.7, range.inclusive))
    }

    fn check_range(range: &PropRange<Self>) -> (ok: bool) {
        A::check_range(&PropRange::new(range.start.0, range.end.0, range.inclusive))
            && B::check_range(&PropRange::new(range.start.1, range.end.1, range.inclusive))
            && C::check_range(&PropRange::new(range.start.2, range.end.2, range.inclusive))
            && D::check_range(&PropRange::new(range.start.3, range.end.3, range.inclusive))
            && E::check_range(&PropRange::new(range.start.4, range.end.4, range.inclusive))
            && F::check_range(&PropRange::new(range.start.5, range.end.5, range.inclusive))
            && G::check_range(&PropRange::new(range.start.6, range.end.6, range.inclusive))
            && H::check_range(&PropRange::new(range.start.7, range.end.7, range.inclusive))
    }

    fn gen(rng: &mut ThreadRng) -> Self {
        let a = A::gen(rng);
        let b = B::gen(rng);
        let c = C::gen(rng);
        let d = D::gen(rng);
        let e = E::gen(rng);
        let f = F::gen(rng);
        let g = G::gen(rng);
        let h = H::gen(rng);
        (a, b, c, d, e, f, g, h)
    }

    fn gen_range(rng: &mut ThreadRng, range: PropRange<Self>) -> (value: Self) {
        let a = A::gen_range(rng, PropRange::new(range.start.0, range.end.0, range.inclusive));
        let b = B::gen_range(rng, PropRange::new(range.start.1, range.end.1, range.inclusive));
        let c = C::gen_range(rng, PropRange::new(range.start.2, range.end.2, range.inclusive));
        let d = D::gen_range(rng, PropRange::new(range.start.3, range.end.3, range.inclusive));
        let e = E::gen_range(rng, PropRange::new(range.start.4, range.end.4, range.inclusive));
        let f = F::gen_range(rng, PropRange::new(range.start.5, range.end.5, range.inclusive));
        let g = G::gen_range(rng, PropRange::new(range.start.6, range.end.6, range.inclusive));
        let h = H::gen_range(rng, PropRange::new(range.start.7, range.end.7, range.inclusive));
        (a, b, c, d, e, f, g, h)
    }
}

impl<
    A: PropRand + Copy,
    B: PropRand + Copy,
    C: PropRand + Copy,
    D: PropRand + Copy,
    E: PropRand + Copy,
    F: PropRand + Copy,
    G: PropRand + Copy,
    H: PropRand + Copy,
    I: PropRand + Copy,
> PropRand for (A, B, C, D, E, F, G, H, I) {
    open spec fn can_sample(range: PropRange<Self>) -> bool {
        &&& A::can_sample(PropRange::new(range.start.0, range.end.0, range.inclusive))
        &&& B::can_sample(PropRange::new(range.start.1, range.end.1, range.inclusive))
        &&& C::can_sample(PropRange::new(range.start.2, range.end.2, range.inclusive))
        &&& D::can_sample(PropRange::new(range.start.3, range.end.3, range.inclusive))
        &&& E::can_sample(PropRange::new(range.start.4, range.end.4, range.inclusive))
        &&& F::can_sample(PropRange::new(range.start.5, range.end.5, range.inclusive))
        &&& G::can_sample(PropRange::new(range.start.6, range.end.6, range.inclusive))
        &&& H::can_sample(PropRange::new(range.start.7, range.end.7, range.inclusive))
        &&& I::can_sample(PropRange::new(range.start.8, range.end.8, range.inclusive))
    }

    open spec fn lies_in(self, range: PropRange<Self>) -> bool {
        &&& self.0.lies_in(PropRange::new(range.start.0, range.end.0, range.inclusive))
        &&& self.1.lies_in(PropRange::new(range.start.1, range.end.1, range.inclusive))
        &&& self.2.lies_in(PropRange::new(range.start.2, range.end.2, range.inclusive))
        &&& self.3.lies_in(PropRange::new(range.start.3, range.end.3, range.inclusive))
        &&& self.4.lies_in(PropRange::new(range.start.4, range.end.4, range.inclusive))
        &&& self.5.lies_in(PropRange::new(range.start.5, range.end.5, range.inclusive))
        &&& self.6.lies_in(PropRange::new(range.start.6, range.end.6, range.inclusive))
        &&& self.7.lies_in(PropRange::new(range.start.7, range.end.7, range.inclusive))
        &&& self.8.lies_in(PropRange::new(range.start.8, range.end.8, range.inclusive))
    }

    fn check_range(range: &PropRange<Self>) -> (ok: bool) {
        A::check_range(&PropRange::new(range.start.0, range.end.0, range.inclusive))
            && B::check_range(&PropRange::new(range.start.1, range.end.1, range.inclusive))
            && C::check_range(&PropRange::new(range.start.2, range.end.2, range.inclusive))
            && D::check_range(&PropRange::new(range.start.3, range.end.3, range.inclusive))
            && E::check_range(&PropRange::new(range.start.4, range.end.4, range.inclusive))
            && F::check_range(&PropRange::new(range.start.5, range.end.5, range.inclusive))
            && G::check_range(&PropRange::new(range.start.6, range.end.6, range.inclusive))
            && H::check_range(&PropRange::new(range.start.7, range.end.7, range.inclusive))
            && I::check_range(&PropRange::new(range.start.8, range.end.8, range.inclusive))
    }

    fn gen(rng: &mut ThreadRng) -> Self {
        let a = A::gen(rng);
        let b = B::gen(rng);
        let c = C::gen(rng);
        let d = D::gen(rng);
        let e = E::gen(rng);
        let f = F::gen(rng);
        let g = G::gen(rng);
        let h = H::gen(rng);
        let i = I::gen(rng);
        (a, b, c, d, e, f, g, h, i)
    }

    fn gen_range(rng: &mut ThreadRng, range: PropRange<Self>) -> (value: Self) {
        let a = A::gen_range(rng, PropRange::new(range.start.0, range.end.0, range.inclusive));
        let b = B::gen_range(rng, PropRange::new(range.start.1, range.end.1, range.inclusive));
        let c = C::gen_range(rng, PropRange::new(range.start.2, range.end.2, range.inclusive));
        let d = D::gen_range(rng, PropRange::new(range.start.3, range.end.3, range.inclusive));
        let e = E::gen_range(rng, PropRange::new(range.start.4, range.end.4, range.inclusive));
        let f = F::gen_range(rng, PropRange::new(range.start.5, range.end.5, range.inclusive));
        let g = G::gen_range(rng, PropRange::new(range.start.6, range.end.6, range.inclusive));
        let h = H::gen_range(rng, PropRange::new(range.start.7, range.end.7, range.inclusive));
        let i = I::gen_range(rng, PropRange::new(range.start.8, range.end.8, range.inclusive));
        (a, b, c, d, e, f, g, h, i)
    }
}

impl<
    A: PropRand + Copy,
    B: PropRand + Copy,
    C: PropRand + Copy,
    D: PropRand + Copy,
    E: PropRand + Copy,
    F: PropRand + Copy,
    G: PropRand + Copy,
    H: PropRand + Copy,
    I: PropRand + Copy,
    J: PropRand + Copy,
> PropRand for (A, B, C, D, E, F, G, H, I, J) {
    open spec fn can_sample(range: PropRange<Self>) -> bool {
        &&& A::can_sample(PropRange::new(range.start.0, range.end.0, range.inclusive))
        &&& B::can_sample(PropRange::new(range.start.1, range.end.1, range.inclusive))
        &&& C::can_sample(PropRange::new(range.start.2, range.end.2, range.inclusive))
        &&& D::can_sample(PropRange::new(range.start.3, range.end.3, range.inclusive))
        &&& E::can_sample(PropRange::new(range.start.4, range.end.4, range.inclusive))
        &&& F::can_sample(PropRange::new(range.start.5, range.end.5, range.inclusive))
        &&& G::can_sample(PropRange::new(range.start.6, range.end.6, range.inclusive))
        &&& H::can_sample(PropRange::new(range.start.7, range.end.7, range.inclusive))
        &&& I::can_sample(PropRange::new(range.start.8, range.end.8, range.inclusive))
        &&& J::can_sample(PropRange::new(range.start.9, range.end.9, range.inclusive))
    }

    open spec fn lies_in(self, range: PropRange<Self>) -> bool {
        &&& self.0.lies_in(PropRange::new(range.start.0, range.end.0, range.inclusive))
        &&& self.1.lies_in(PropRange::new(range.start.1, range.end.1, range.inclusive))
        &&& self.2.lies_in(PropRange::new(range.start.2, range.end.2, range.inclusive))
        &&& self.3.lies_in(PropRange::new(range.start.3, range.end.3, range.inclusive))
        &&& self.4.lies_in(PropRange::new(range.start.4, range.end.4, range.inclusive))
        &&& self.5.lies_in(PropRange::new(range.start.5, range.end.5, range.inclusive))
        &&& self.6.lies_in(PropRange::new(range.start.6, range.end.6, range.inclusive))
        &&& self.7.lies_in(PropRange::new(range.start.7, range.end.7, range.inclusive))
        &&& self.8.lies_in(PropRange::new(range.start.8, range.end.8, range.inclusive))
        &&& self.9.lies_in(PropRange::new(range.start.9, range.end.9, range.inclusive))
    }

    fn check_range(range: &PropRange<Self>) -> (ok: bool) {
        A::check_range(&PropRange::new(range.start.0, range.end.0, range.inclusive))
            && B::check_range(&PropRange::new(range.start.1, range.end.1, range.inclusive))
            && C::check_range(&PropRange::new(range.start.2, range.end.2, range.inclusive))
            && D::check_range(&PropRange::new(range.start.3, range.end.3, range.inclusive))
            && E::check_range(&PropRange::new(range.start.4, range.end.4, range.inclusive))
            && F::check_range(&PropRange::new(range.start.5, range.end.5, range.inclusive))
            && G::check_range(&PropRange::new(range.start.6, range.end.6, range.inclusive))
            && H::check_range(&PropRange::new(range.start.7, range.end.7, range.inclusive))
            && I::check_range(&PropRange::new(range.start.8, range.end.8, range.inclusive))
            && J::check_range(&PropRange::new(range.start.9, range.end.9, range.inclusive))
    }

    fn gen(rng: &mut ThreadRng) -> Self {
        let a = A::gen(rng);
        let b = B::gen(rng);
        let c = C::gen(rng);
        let d = D::gen(rng);
        let e = E::gen(rng);
        let f = F::gen(rng);
        let g = G::gen(rng);
        let h = H::gen(rng);
        let i = I::gen(rng);
        let j = J::gen(rng);
        (a, b, c, d, e, f, g, h, i, j)
    }

    fn gen_range(rng: &mut ThreadRng, range: PropRange<Self>) -> (value: Self) {
        let a = A::gen_range(rng, PropRange::new(range.start.0, range.end.0, range.inclusive));
        let b = B::gen_range(rng, PropRange::new(range.start.1, range.end.1, range.inclusive));
        let c = C::gen_range(rng, PropRange::new(range.start.2, range.end.2, range.inclusive));
        let d = D::gen_range(rng, PropRange::new(range.start.3, range.end.3, range.inclusive));
        let e = E::gen_range(rng, PropRange::new(range.start.4, range.end.4, range.inclusive));
        let f = F::gen_range(rng, PropRange::new(range.start.5, range.end.5, range.inclusive));
        let g = G::gen_range(rng, PropRange::new(range.start.6, range.end.6, range.inclusive));
        let h = H::gen_range(rng, PropRange::new(range.start.7, range.end.7, range.inclusive));
        let i = I::gen_range(rng, PropRange::new(range.start.8, range.end.8, range.inclusive));
        let j = J::gen_range(rng, PropRange::new(range.start.9, range.end.9, range.inclusive));
        (a, b, c, d, e, f, g, h, i, j)
    }
}

impl<
    A: PropRand + Copy,
    B: PropRand + Copy,
    C: PropRand + Copy,
    D: PropRand + Copy,
    E: PropRand + Copy,
    F: PropRand + Copy,
    G: PropRand + Copy,
    H: PropRand + Copy,
    I: PropRand + Copy,
    J: PropRand + Copy,
    K: PropRand + Copy,
> PropRand for (A, B, C, D, E, F, G, H, I, J, K) {
    open spec fn can_sample(range: PropRange<Self>) -> bool {
        &&& A::can_sample(PropRange::new(range.start.0, range.end.0, range.inclusive))
        &&& B::can_sample(PropRange::new(range.start.1, range.end.1, range.inclusive))
        &&& C::can_sample(PropRange::new(range.start.2, range.end.2, range.inclusive))
        &&& D::can_sample(PropRange::new(range.start.3, range.end.3, range.inclusive))
        &&& E::can_sample(PropRange::new(range.start.4, range.end.4, range.inclusive))
        &&& F::can_sample(PropRange::new(range.start.5, range.end.5, range.inclusive))
        &&& G::can_sample(PropRange::new(range.start.6, range.end.6, range.inclusive))
        &&& H::can_sample(PropRange::new(range.start.7, range.end.7, range.inclusive))
        &&& I::can_sample(PropRange::new(range.start.8, range.end.8, range.inclusive))
        &&& J::can_sample(PropRange::new(range.start.9, range.end.9, range.inclusive))
        &&& K::can_sample(PropRange::new(range.start.10, range.end.10, range.inclusive))
    }

    open spec fn lies_in(self, range: PropRange<Self>) -> bool {
        &&& self.0.lies_in(PropRange::new(range.start.0, range.end.0, range.inclusive))
        &&& self.1.lies_in(PropRange::new(range.start.1, range.end.1, range.inclusive))
        &&& self.2.lies_in(PropRange::new(range.start.2, range.end.2, range.inclusive))
        &&& self.3.lies_in(PropRange::new(range.start.3, range.end.3, range.inclusive))
        &&& self.4.lies_in(PropRange::new(range.start.4, range.end.4, range.inclusive))
        &&& self.5.lies_in(PropRange::new(range.start.5, range.end.5, range.inclusive))
        &&& self.6.lies_in(PropRange::new(range.start.6, range.end.6, range.inclusive))
        &&& self.7.lies_in(PropRange::new(range.start.7, range.end.7, range.inclusive))
        &&& self.8.lies_in(PropRange::new(range.start.8, range.end.8, range.inclusive))
        &&& self.9.lies_in(PropRange::new(range.start.9, range.end.9, range.inclusive))
        &&& self.10.lies_in(PropRange::new(range.start.10, range.end.10, range.inclusive))
    }

    fn check_range(range: &PropRange<Self>) -> (ok: bool) {
        A::check_range(&PropRange::new(range.start.0, range.end.0, range.inclusive))
            && B::check_range(&PropRange::new(range.start.1, range.end.1, range.inclusive))
            && C::check_range(&PropRange::new(range.start.2, range.end.2, range.inclusive))
            && D::check_range(&PropRange::new(range.start.3, range.end.3, range.inclusive))
            && E::check_range(&PropRange::new(range.start.4, range.end.4, range.inclusive))
            && F::check_range(&PropRange::new(range.start.5, range.end.5, range.inclusive))
            && G::check_range(&PropRange::new(range.start.6, range.end.6, range.inclusive))
            && H::check_range(&PropRange::new(range.start.7, range.end.7, range.inclusive))
            && I::check_range(&PropRange::new(range.start.8, range.end.8, range.inclusive))
            && J::check_range(&PropRange::new(range.start.9, range.end.9, range.inclusive))
            && K::check_range(&PropRange::new(range.start.10, range.end.10, range.inclusive))
    }

    fn gen(rng: &mut ThreadRng) -> Self {
        let a = A::gen(rng);
        let b = B::gen(rng);
        let c = C::gen(rng);
        let d = D::gen(rng);
        let e = E::gen(rng);
        let f = F::gen(rng);
        let g = G::gen(rng);
        let h = H::gen(rng);
        let i = I::gen(rng);
        let j = J::gen(rng);
        let k = K::gen(rng);
        (a, b, c, d, e, f, g, h, i, j, k)
    }

    fn gen_range(rng: &mut ThreadRng, range: PropRange<Self>) -> (value: Self) {
        let a = A::gen_range(rng, PropRange::new(range.start.0, range.end.0, range.inclusive));
        let b = B::gen_range(rng, PropRange::new(range.start.1, range.end.1, range.inclusive));
        let c = C::gen_range(rng, PropRange::new(range.start.2, range.end.2, range.inclusive));
        let d = D::gen_range(rng, PropRange::new(range.start.3, range.end.3, range.inclusive));
        let e = E::gen_range(rng, PropRange::new(range.start.4, range.end.4, range.inclusive));
        let f = F::gen_range(rng, PropRange::new(range.start.5, range.end.5, range.inclusive));
        let g = G::gen_range(rng, PropRange::new(range.start.6, range.end.6, range.inclusive));
        let h = H::gen_range(rng, PropRange::new(range.start.7, range.end.7, range.inclusive));
        let i = I::gen_range(rng, PropRange::new(range.start.8, range.end.8, range.inclusive));
        let j = J::gen_range(rng, PropRange::new(range.start.9, range.end.9, range.inclusive));
        let k = K::gen_range(rng, PropRange::new(range.start.10, range.end.10, range.inclusive));
        (a, b, c, d, e, f, g, h, i, j, k)
    }
}

impl<
    A: PropRand + Copy,
    B: PropRand + Copy,
    C: PropRand + Copy,
    D: PropRand + Copy,
    E: PropRand + Copy,
    F: PropRand + Copy,
    G: PropRand + Copy,
    H: PropRand + Copy,
    I: PropRand + Copy,
    J: PropRand + Copy,
    K: PropRand + Copy,
    L: PropRand + Copy,
> PropRand for (A, B, C, D, E, F, G, H, I, J, K, L) {
    open spec fn can_sample(range: PropRange<Self>) -> bool {
        &&& A::can_sample(PropRange::new(range.start.0, range.end.0, range.inclusive))
        &&& B::can_sample(PropRange::new(range.start.1, range.end.1, range.inclusive))
        &&& C::can_sample(PropRange::new(range.start.2, range.end.2, range.inclusive))
        &&& D::can_sample(PropRange::new(range.start.3, range.end.3, range.inclusive))
        &&& E::can_sample(PropRange::new(range.start.4, range.end.4, range.inclusive))
        &&& F::can_sample(PropRange::new(range.start.5, range.end.5, range.inclusive))
        &&& G::can_sample(PropRange::new(range.start.6, range.end.6, range.inclusive))
        &&& H::can_sample(PropRange::new(range.start.7, range.end.7, range.inclusive))
        &&& I::can_sample(PropRange::new(range.start.8, range.end.8, range.inclusive))
        &&& J::can_sample(PropRange::new(range.start.9, range.end.9, range.inclusive))
        &&& K::can_sample(PropRange::new(range.start.10, range.end.10, range.inclusive))
        &&& L::can_sample(PropRange::new(range.start.11, range.end.11, range.inclusive))
    }

    open spec fn lies_in(self, range: PropRange<Self>) -> bool {
        &&& self.0.lies_in(PropRange::new(range.start.0, range.end.0, range.inclusive))
        &&& self.1.lies_in(PropRange::new(range.start.1, range.end.1, range.inclusive))
        &&& self.2.lies_in(PropRange::new(range.start.2, range.end.2, range.inclusive))
        &&& self.3.lies_in(PropRange::new(range.start.3, range.end.3, range.inclusive))
        &&& self.4.lies_in(PropRange::new(range.start.4, range.end.4, range.inclusive))
        &&& self.5.lies_in(PropRange::new(range.start.5, range.end.5, range.inclusive))
        &&& self.6.lies_in(PropRange::new(range.start.6, range.end.6, range.inclusive))
        &&& self.7.lies_in(PropRange::new(range.start.7, range.end.7, range.inclusive))
        &&& self.8.lies_in(PropRange::new(range.start.8, range.end.8, range.inclusive))
        &&& self.9.lies_in(PropRange::new(range.start.9, range.end.9, range.inclusive))
        &&& self.10.lies_in(PropRange::new(range.start.10, range.end.10, range.inclusive))
        &&& self.11.lies_in(PropRange::new(range.start.11, range.end.11, range.inclusive))
    }

    fn check_range(range: &PropRange<Self>) -> (ok: bool) {
        A::check_range(&PropRange::new(range.start.0, range.end.0, range.inclusive))
            && B::check_range(&PropRange::new(range.start.1, range.end.1, range.inclusive))
            && C::check_range(&PropRange::new(range.start.2, range.end.2, range.inclusive))
            && D::check_range(&PropRange::new(range.start.3, range.end.3, range.inclusive))
            && E::check_range(&PropRange::new(range.start.4, range.end.4, range.inclusive))
            && F::check_range(&PropRange::new(range.start.5, range.end.5, range.inclusive))
            && G::check_range(&PropRange::new(range.start.6, range.end.6, range.inclusive))
            && H::check_range(&PropRange::new(range.start.7, range.end.7, range.inclusive))
            && I::check_range(&PropRange::new(range.start.8, range.end.8, range.inclusive))
            && J::check_range(&PropRange::new(range.start.9, range.end.9, range.inclusive))
            && K::check_range(&PropRange::new(range.start.10, range.end.10, range.inclusive))
            && L::check_range(&PropRange::new(range.start.11, range.end.11, range.inclusive))
    }

    fn gen(rng: &mut ThreadRng) -> Self {
        let a = A::gen(rng);
        let b = B::gen(rng);
        let c = C::gen(rng);
        let d = D::gen(rng);
        let e = E::gen(rng);
        let f = F::gen(rng);
        let g = G::gen(rng);
        let h = H::gen(rng);
        let i = I::gen(rng);
        let j = J::gen(rng);
        let k = K::gen(rng);
        let l = L::gen(rng);
        (a, b, c, d, e, f, g, h, i, j, k, l)
    }

    fn gen_range(rng: &mut ThreadRng, range: PropRange<Self>) -> (value: Self) {
        let a = A::gen_range(rng, PropRange::new(range.start.0, range.end.0, range.inclusive));
        let b = B::gen_range(rng, PropRange::new(range.start.1, range.end.1, range.inclusive));
        let c = C::gen_range(rng, PropRange::new(range.start.2, range.end.2, range.inclusive));
        let d = D::gen_range(rng, PropRange::new(range.start.3, range.end.3, range.inclusive));
        let e = E::gen_range(rng, PropRange::new(range.start.4, range.end.4, range.inclusive));
        let f = F::gen_range(rng, PropRange::new(range.start.5, range.end.5, range.inclusive));
        let g = G::gen_range(rng, PropRange::new(range.start.6, range.end.6, range.inclusive));
        let h = H::gen_range(rng, PropRange::new(range.start.7, range.end.7, range.inclusive));
        let i = I::gen_range(rng, PropRange::new(range.start.8, range.end.8, range.inclusive));
        let j = J::gen_range(rng, PropRange::new(range.start.9, range.end.9, range.inclusive));
        let k = K::gen_range(rng, PropRange::new(range.start.10, range.end.10, range.inclusive));
        let l = L::gen_range(rng, PropRange::new(range.start.11, range.end.11, range.inclusive));
        (a, b, c, d, e, f, g, h, i, j, k, l)
    }
}

impl<
    A: PropRand + Copy,
    B: PropRand + Copy,
    C: PropRand + Copy,
    D: PropRand + Copy,
    E: PropRand + Copy,
    F: PropRand + Copy,
    G: PropRand + Copy,
    H: PropRand + Copy,
    I: PropRand + Copy,
    J: PropRand + Copy,
    K: PropRand + Copy,
    L: PropRand + Copy,
    M: PropRand + Copy,
> PropRand for (A, B, C, D, E, F, G, H, I, J, K, L, M) {
    open spec fn can_sample(range: PropRange<Self>) -> bool {
        &&& A::can_sample(PropRange::new(range.start.0, range.end.0, range.inclusive))
        &&& B::can_sample(PropRange::new(range.start.1, range.end.1, range.inclusive))
        &&& C::can_sample(PropRange::new(range.start.2, range.end.2, range.inclusive))
        &&& D::can_sample(PropRange::new(range.start.3, range.end.3, range.inclusive))
        &&& E::can_sample(PropRange::new(range.start.4, range.end.4, range.inclusive))
        &&& F::can_sample(PropRange::new(range.start.5, range.end.5, range.inclusive))
        &&& G::can_sample(PropRange::new(range.start.6, range.end.6, range.inclusive))
        &&& H::can_sample(PropRange::new(range.start.7, range.end.7, range.inclusive))
        &&& I::can_sample(PropRange::new(range.start.8, range.end.8, range.inclusive))
        &&& J::can_sample(PropRange::new(range.start.9, range.end.9, range.inclusive))
        &&& K::can_sample(PropRange::new(range.start.10, range.end.10, range.inclusive))
        &&& L::can_sample(PropRange::new(range.start.11, range.end.11, range.inclusive))
        &&& M::can_sample(PropRange::new(range.start.12, range.end.12, range.inclusive))
    }

    open spec fn lies_in(self, range: PropRange<Self>) -> bool {
        &&& self.0.lies_in(PropRange::new(range.start.0, range.end.0, range.inclusive))
        &&& self.1.lies_in(PropRange::new(range.start.1, range.end.1, range.inclusive))
        &&& self.2.lies_in(PropRange::new(range.start.2, range.end.2, range.inclusive))
        &&& self.3.lies_in(PropRange::new(range.start.3, range.end.3, range.inclusive))
        &&& self.4.lies_in(PropRange::new(range.start.4, range.end.4, range.inclusive))
        &&& self.5.lies_in(PropRange::new(range.start.5, range.end.5, range.inclusive))
        &&& self.6.lies_in(PropRange::new(range.start.6, range.end.6, range.inclusive))
        &&& self.7.lies_in(PropRange::new(range.start.7, range.end.7, range.inclusive))
        &&& self.8.lies_in(PropRange::new(range.start.8, range.end.8, range.inclusive))
        &&& self.9.lies_in(PropRange::new(range.start.9, range.end.9, range.inclusive))
        &&& self.10.lies_in(PropRange::new(range.start.10, range.end.10, range.inclusive))
        &&& self.11.lies_in(PropRange::new(range.start.11, range.end.11, range.inclusive))
        &&& self.12.lies_in(PropRange::new(range.start.12, range.end.12, range.inclusive))
    }

    fn check_range(range: &PropRange<Self>) -> (ok: bool) {
        A::check_range(&PropRange::new(range.start.0, range.end.0, range.inclusive))
            && B::check_range(&PropRange::new(range.start.1, range.end.1, range.inclusive))
            && C::check_range(&PropRange::new(range.start.2, range.end.2, range.inclusive))
            && D::check_range(&PropRange::new(range.start.3, range.end.3, range.inclusive))
            && E::check_range(&PropRange::new(range.start.4, range.end.4, range.inclusive))
            && F::check_range(&PropRange::new(range.start.5, range.end.5, range.inclusive))
            && G::check_range(&PropRange::new(range.start.6, range.end.6, range.inclusive))
            && H::check_range(&PropRange::new(range.start.7, range.end.7, range.inclusive))
            && I::check_range(&PropRange::new(range.start.8, range.end.8, range.inclusive))
            && J::check_range(&PropRange::new(range.start.9, range.end.9, range.inclusive))
            && K::check_range(&PropRange::new(range.start.10, range.end.10, range.inclusive))
            && L::check_range(&PropRange::new(range.start.11, range.end.11, range.inclusive))
            && M::check_range(&PropRange::new(range.start.12, range.end.12, range.inclusive))
    }

    fn gen(rng: &mut ThreadRng) -> Self {
        let a = A::gen(rng);
        let b = B::gen(rng);
        let c = C::gen(rng);
        let d = D::gen(rng);
        let e = E::gen(rng);
        let f = F::gen(rng);
        let g = G::gen(rng);
        let h = H::gen(rng);
        let i = I::gen(rng);
        let j = J::gen(rng);
        let k = K::gen(rng);
        let l = L::gen(rng);
        let m = M::gen(rng);
        (a, b, c, d, e, f, g, h, i, j, k, l, m)
    }

    fn gen_range(rng: &mut ThreadRng, range: PropRange<Self>) -> (value: Self) {
        let a = A::gen_range(rng, PropRange::new(range.start.0, range.end.0, range.inclusive));
        let b = B::gen_range(rng, PropRange::new(range.start.1, range.end.1, range.inclusive));
        let c = C::gen_range(rng, PropRange::new(range.start.2, range.end.2, range.inclusive));
        let d = D::gen_range(rng, PropRange::new(range.start.3, range.end.3, range.inclusive));
        let e = E::gen_range(rng, PropRange::new(range.start.4, range.end.4, range.inclusive));
        let f = F::gen_range(rng, PropRange::new(range.start.5, range.end.5, range.inclusive));
        let g = G::gen_range(rng, PropRange::new(range.start.6, range.end.6, range.inclusive));
        let h = H::gen_range(rng, PropRange::new(range.start.7, range.end.7, range.inclusive));
        let i = I::gen_range(rng, PropRange::new(range.start.8, range.end.8, range.inclusive));
        let j = J::gen_range(rng, PropRange::new(range.start.9, range.end.9, range.inclusive));
        let k = K::gen_range(rng, PropRange::new(range.start.10, range.end.10, range.inclusive));
        let l = L::gen_range(rng, PropRange::new(range.start.11, range.end.11, range.inclusive));
        let m = M::gen_range(rng, PropRange::new(range.start.12, range.end.12, range.inclusive));
        (a, b, c, d, e, f, g, h, i, j, k, l, m)
    }
}

impl<
    A: PropRand + Copy,
    B: PropRand + Copy,
    C: PropRand + Copy,
    D: PropRand + Copy,
    E: PropRand + Copy,
    F: PropRand + Copy,
    G: PropRand + Copy,
    H: PropRand + Copy,
    I: PropRand + Copy,
    J: PropRand + Copy,
    K: PropRand + Copy,
    L: PropRand + Copy,
    M: PropRand + Copy,
    N: PropRand + Copy,
> PropRand for (A, B, C, D, E, F, G, H, I, J, K, L, M, N) {
    open spec fn can_sample(range: PropRange<Self>) -> bool {
        &&& A::can_sample(PropRange::new(range.start.0, range.end.0, range.inclusive))
        &&& B::can_sample(PropRange::new(range.start.1, range.end.1, range.inclusive))
        &&& C::can_sample(PropRange::new(range.start.2, range.end.2, range.inclusive))
        &&& D::can_sample(PropRange::new(range.start.3, range.end.3, range.inclusive))
        &&& E::can_sample(PropRange::new(range.start.4, range.end.4, range.inclusive))
        &&& F::can_sample(PropRange::new(range.start.5, range.end.5, range.inclusive))
        &&& G::can_sample(PropRange::new(range.start.6, range.end.6, range.inclusive))
        &&& H::can_sample(PropRange::new(range.start.7, range.end.7, range.inclusive))
        &&& I::can_sample(PropRange::new(range.start.8, range.end.8, range.inclusive))
        &&& J::can_sample(PropRange::new(range.start.9, range.end.9, range.inclusive))
        &&& K::can_sample(PropRange::new(range.start.10, range.end.10, range.inclusive))
        &&& L::can_sample(PropRange::new(range.start.11, range.end.11, range.inclusive))
        &&& M::can_sample(PropRange::new(range.start.12, range.end.12, range.inclusive))
        &&& N::can_sample(PropRange::new(range.start.13, range.end.13, range.inclusive))
    }

    open spec fn lies_in(self, range: PropRange<Self>) -> bool {
        &&& self.0.lies_in(PropRange::new(range.start.0, range.end.0, range.inclusive))
        &&& self.1.lies_in(PropRange::new(range.start.1, range.end.1, range.inclusive))
        &&& self.2.lies_in(PropRange::new(range.start.2, range.end.2, range.inclusive))
        &&& self.3.lies_in(PropRange::new(range.start.3, range.end.3, range.inclusive))
        &&& self.4.lies_in(PropRange::new(range.start.4, range.end.4, range.inclusive))
        &&& self.5.lies_in(PropRange::new(range.start.5, range.end.5, range.inclusive))
        &&& self.6.lies_in(PropRange::new(range.start.6, range.end.6, range.inclusive))
        &&& self.7.lies_in(PropRange::new(range.start.7, range.end.7, range.inclusive))
        &&& self.8.lies_in(PropRange::new(range.start.8, range.end.8, range.inclusive))
        &&& self.9.lies_in(PropRange::new(range.start.9, range.end.9, range.inclusive))
        &&& self.10.lies_in(PropRange::new(range.start.10, range.end.10, range.inclusive))
        &&& self.11.lies_in(PropRange::new(range.start.11, range.end.11, range.inclusive))
        &&& self.12.lies_in(PropRange::new(range.start.12, range.end.12, range.inclusive))
        &&& self.13.lies_in(PropRange::new(range.start.13, range.end.13, range.inclusive))
    }

    fn check_range(range: &PropRange<Self>) -> (ok: bool) {
        A::check_range(&PropRange::new(range.start.0, range.end.0, range.inclusive))
            && B::check_range(&PropRange::new(range.start.1, range.end.1, range.inclusive))
            && C::check_range(&PropRange::new(range.start.2, range.end.2, range.inclusive))
            && D::check_range(&PropRange::new(range.start.3, range.end.3, range.inclusive))
            && E::check_range(&PropRange::new(range.start.4, range.end.4, range.inclusive))
            && F::check_range(&PropRange::new(range.start.5, range.end.5, range.inclusive))
            && G::check_range(&PropRange::new(range.start.6, range.end.6, range.inclusive))
            && H::check_range(&PropRange::new(range.start.7, range.end.7, range.inclusive))
            && I::check_range(&PropRange::new(range.start.8, range.end.8, range.inclusive))
            && J::check_range(&PropRange::new(range.start.9, range.end.9, range.inclusive))
            && K::check_range(&PropRange::new(range.start.10, range.end.10, range.inclusive))
            && L::check_range(&PropRange::new(range.start.11, range.end.11, range.inclusive))
            && M::check_range(&PropRange::new(range.start.12, range.end.12, range.inclusive))
            && N::check_range(&PropRange::new(range.start.13, range.end.13, range.inclusive))
    }

    fn gen(rng: &mut ThreadRng) -> Self {
        let a = A::gen(rng);
        let b = B::gen(rng);
        let c = C::gen(rng);
        let d = D::gen(rng);
        let e = E::gen(rng);
        let f = F::gen(rng);
        let g = G::gen(rng);
        let h = H::gen(rng);
        let i = I::gen(rng);
        let j = J::gen(rng);
        let k = K::gen(rng);
        let l = L::gen(rng);
        let m = M::gen(rng);
        let n = N::gen(rng);
        (a, b, c, d, e, f, g, h, i, j, k, l, m, n)
    }

    fn gen_range(rng: &mut ThreadRng, range: PropRange<Self>) -> (value: Self) {
        let a = A::gen_range(rng, PropRange::new(range.start.0, range.end.0, range.inclusive));
        let b = B::gen_range(rng, PropRange::new(range.start.1, range.end.1, range.inclusive));
        let c = C::gen_range(rng, PropRange::new(range.start.2, range.end.2, range.inclusive));
        let d = D::gen_range(rng, PropRange::new(range.start.3, range.end.3, range.inclusive));
        let e = E::gen_range(rng, PropRange::new(range.start.4, range.end.4, range.inclusive));
        let f = F::gen_range(rng, PropRange::new(range.start.5, range.end.5, range.inclusive));
        let g = G::gen_range(rng, PropRange::new(range.start.6, range.end.6, range.inclusive));
        let h = H::gen_range(rng, PropRange::new(range.start.7, range.end.7, range.inclusive));
        let i = I::gen_range(rng, PropRange::new(range.start.8, range.end.8, range.inclusive));
        let j = J::gen_range(rng, PropRange::new(range.start.9, range.end.9, range.inclusive));
        let k = K::gen_range(rng, PropRange::new(range.start.10, range.end.10, range.inclusive));
        let l = L::gen_range(rng, PropRange::new(range.start.11, range.end.11, range.inclusive));
        let m = M::gen_range(rng, PropRange::new(range.start.12, range.end.12, range.inclusive));
        let n = N::gen_range(rng, PropRange::new(range.start.13, range.end.13, range.inclusive));
        (a, b, c, d, e, f, g, h, i, j, k, l, m, n)
    }
}

impl<
    A: PropRand + Copy,
    B: PropRand + Copy,
    C: PropRand + Copy,
    D: PropRand + Copy,
    E: PropRand + Copy,
    F: PropRand + Copy,
    G: PropRand + Copy,
    H: PropRand + Copy,
    I: PropRand + Copy,
    J: PropRand + Copy,
    K: PropRand + Copy,
    L: PropRand + Copy,
    M: PropRand + Copy,
    N: PropRand + Copy,
    O: PropRand + Copy,
> PropRand for (A, B, C, D, E, F, G, H, I, J, K, L, M, N, O) {
    open spec fn can_sample(range: PropRange<Self>) -> bool {
        &&& A::can_sample(PropRange::new(range.start.0, range.end.0, range.inclusive))
        &&& B::can_sample(PropRange::new(range.start.1, range.end.1, range.inclusive))
        &&& C::can_sample(PropRange::new(range.start.2, range.end.2, range.inclusive))
        &&& D::can_sample(PropRange::new(range.start.3, range.end.3, range.inclusive))
        &&& E::can_sample(PropRange::new(range.start.4, range.end.4, range.inclusive))
        &&& F::can_sample(PropRange::new(range.start.5, range.end.5, range.inclusive))
        &&& G::can_sample(PropRange::new(range.start.6, range.end.6, range.inclusive))
        &&& H::can_sample(PropRange::new(range.start.7, range.end.7, range.inclusive))
        &&& I::can_sample(PropRange::new(range.start.8, range.end.8, range.inclusive))
        &&& J::can_sample(PropRange::new(range.start.9, range.end.9, range.inclusive))
        &&& K::can_sample(PropRange::new(range.start.10, range.end.10, range.inclusive))
        &&& L::can_sample(PropRange::new(range.start.11, range.end.11, range.inclusive))
        &&& M::can_sample(PropRange::new(range.start.12, range.end.12, range.inclusive))
        &&& N::can_sample(PropRange::new(range.start.13, range.end.13, range.inclusive))
        &&& O::can_sample(PropRange::new(range.start.14, range.end.14, range.inclusive))
    }

    open spec fn lies_in(self, range: PropRange<Self>) -> bool {
        &&& self.0.lies_in(PropRange::new(range.start.0, range.end.0, range.inclusive))
        &&& self.1.lies_in(PropRange::new(range.start.1, range.end.1, range.inclusive))
        &&& self.2.lies_in(PropRange::new(range.start.2, range.end.2, range.inclusive))
        &&& self.3.lies_in(PropRange::new(range.start.3, range.end.3, range.inclusive))
        &&& self.4.lies_in(PropRange::new(range.start.4, range.end.4, range.inclusive))
        &&& self.5.lies_in(PropRange::new(range.start.5, range.end.5, range.inclusive))
        &&& self.6.lies_in(PropRange::new(range.start.6, range.end.6, range.inclusive))
        &&& self.7.lies_in(PropRange::new(range.start.7, range.end.7, range.inclusive))
        &&& self.8.lies_in(PropRange::new(range.start.8, range.end.8, range.inclusive))
        &&& self.9.lies_in(PropRange::new(range.start.9, range.end.9, range.inclusive))
        &&& self.10.lies_in(PropRange::new(range.start.10, range.end.10, range.inclusive))
        &&& self.11.lies_in(PropRange::new(range.start.11, range.end.11, range.inclusive))
        &&& self.12.lies_in(PropRange::new(range.start.12, range.end.12, range.inclusive))
        &&& self.13.lies_in(PropRange::new(range.start.13, range.end.13, range.inclusive))
        &&& self.14.lies_in(PropRange::new(range.start.14, range.end.14, range.inclusive))
    }

    fn check_range(range: &PropRange<Self>) -> (ok: bool) {
        A::check_range(&PropRange::new(range.start.0, range.end.0, range.inclusive))
            && B::check_range(&PropRange::new(range.start.1, range.end.1, range.inclusive))
            && C::check_range(&PropRange::new(range.start.2, range.end.2, range.inclusive))
            && D::check_range(&PropRange::new(range.start.3, range.end.3, range.inclusive))
            && E::check_range(&PropRange::new(range.start.4, range.end.4, range.inclusive))
            && F::check_range(&PropRange::new(range.start.5, range.end.5, range.inclusive))
            && G::check_range(&PropRange::new(range.start.6, range.end.6, range.inclusive))
            && H::check_range(&PropRange::new(range.start.7, range.end.7, range.inclusive))
            && I::check_range(&PropRange::new(range.start.8, range.end.8, range.inclusive))
            && J::check_range(&PropRange::new(range.start.9, range.end.9, range.inclusive))
            && K::check_range(&PropRange::new(range.start.10, range.end.10, range.inclusive))
            && L::check_range(&PropRange::new(range.start.11, range.end.11, range.inclusive))
            && M::check_range(&PropRange::new(range.start.12, range.end.12, range.inclusive))
            && N::check_range(&PropRange::new(range.start.13, range.end.13, range.inclusive))
            && O::check_range(&PropRange::new(range.start.14, range.end.14, range.inclusive))
    }

    fn gen(rng: &mut ThreadRng) -> Self {
        let a = A::gen(rng);
        let b = B::gen(rng);
        let c = C::gen(rng);
        let d = D::gen(rng);
        let e = E::gen(rng);
        let f = F::gen(rng);
        let g = G::gen(rng);
        let h = H::gen(rng);
        let i = I::gen(rng);
        let j = J::gen(rng);
        let k = K::gen(rng);
        let l = L::gen(rng);
        let m = M::gen(rng);
        let n = N::gen(rng);
        let o = O::gen(rng);
        (a, b, c, d, e, f, g, h, i, j, k, l, m, n, o)
    }

    fn gen_range(rng: &mut ThreadRng, range: PropRange<Self>) -> (value: Self) {
        let a = A::gen_range(rng, PropRange::new(range.start.0, range.end.0, range.inclusive));
        let b = B::gen_range(rng, PropRange::new(range.start.1, range.end.1, range.inclusive));
        let c = C::gen_range(rng, PropRange::new(range.start.2, range.end.2, range.inclusive));
        let d = D::gen_range(rng, PropRange::new(range.start.3, range.end.3, range.inclusive));
        let e = E::gen_range(rng, PropRange::new(range.start.4, range.end.4, range.inclusive));
        let f = F::gen_range(rng, PropRange::new(range.start.5, range.end.5, range.inclusive));
        let g = G::gen_range(rng, PropRange::new(range.start.6, range.end.6, range.inclusive));
        let h = H::gen_range(rng, PropRange::new(range.start.7, range.end.7, range.inclusive));
        let i = I::gen_range(rng, PropRange::new(range.start.8, range.end.8, range.inclusive));
        let j = J::gen_range(rng, PropRange::new(range.start.9, range.end.9, range.inclusive));
        let k = K::gen_range(rng, PropRange::new(range.start.10, range.end.10, range.inclusive));
        let l = L::gen_range(rng, PropRange::new(range.start.11, range.end.11, range.inclusive));
        let m = M::gen_range(rng, PropRange::new(range.start.12, range.end.12, range.inclusive));
        let n = N::gen_range(rng, PropRange::new(range.start.13, range.end.13, range.inclusive));
        let o = O::gen_range(rng, PropRange::new(range.start.14, range.end.14, range.inclusive));
        (a, b, c, d, e, f, g, h, i, j, k, l, m, n, o)
    }
}

impl<
    A: PropRand + Copy,
    B: PropRand + Copy,
    C: PropRand + Copy,
    D: PropRand + Copy,
    E: PropRand + Copy,
    F: PropRand + Copy,
    G: PropRand + Copy,
    H: PropRand + Copy,
    I: PropRand + Copy,
    J: PropRand + Copy,
    K: PropRand + Copy,
    L: PropRand + Copy,
    M: PropRand + Copy,
    N: PropRand + Copy,
    O: PropRand + Copy,
    P: PropRand + Copy,
> PropRand for (A, B, C, D, E, F, G, H, I, J, K, L, M, N, O, P) {
    open spec fn can_sample(range: PropRange<Self>) -> bool {
        &&& A::can_sample(PropRange::new(range.start.0, range.end.0, range.inclusive))
        &&& B::can_sample(PropRange::new(range.start.1, range.end.1, range.inclusive))
        &&& C::can_sample(PropRange::new(range.start.2, range.end.2, range.inclusive))
        &&& D::can_sample(PropRange::new(range.start.3, range.end.3, range.inclusive))
        &&& E::can_sample(PropRange::new(range.start.4, range.end.4, range.inclusive))
        &&& F::can_sample(PropRange::new(range.start.5, range.end.5, range.inclusive))
        &&& G::can_sample(PropRange::new(range.start.6, range.end.6, range.inclusive))
        &&& H::can_sample(PropRange::new(range.start.7, range.end.7, range.inclusive))
        &&& I::can_sample(PropRange::new(range.start.8, range.end.8, range.inclusive))
        &&& J::can_sample(PropRange::new(range.start.9, range.end.9, range.inclusive))
        &&& K::can_sample(PropRange::new(range.start.10, range.end.10, range.inclusive))
        &&& L::can_sample(PropRange::new(range.start.11, range.end.11, range.inclusive))
        &&& M::can_sample(PropRange::new(range.start.12, range.end.12, range.inclusive))
        &&& N::can_sample(PropRange::new(range.start.13, range.end.13, range.inclusive))
        &&& O::can_sample(PropRange::new(range.start.14, range.end.14, range.inclusive))
        &&& P::can_sample(PropRange::new(range.start.15, range.end.15, range.inclusive))
    }

    open spec fn lies_in(self, range: PropRange<Self>) -> bool {
        &&& self.0.lies_in(PropRange::new(range.start.0, range.end.0, range.inclusive))
        &&& self.1.lies_in(PropRange::new(range.start.1, range.end.1, range.inclusive))
        &&& self.2.lies_in(PropRange::new(range.start.2, range.end.2, range.inclusive))
        &&& self.3.lies_in(PropRange::new(range.start.3, range.end.3, range.inclusive))
        &&& self.4.lies_in(PropRange::new(range.start.4, range.end.4, range.inclusive))
        &&& self.5.lies_in(PropRange::new(range.start.5, range.end.5, range.inclusive))
        &&& self.6.lies_in(PropRange::new(range.start.6, range.end.6, range.inclusive))
        &&& self.7.lies_in(PropRange::new(range.start.7, range.end.7, range.inclusive))
        &&& self.8.lies_in(PropRange::new(range.start.8, range.end.8, range.inclusive))
        &&& self.9.lies_in(PropRange::new(range.start.9, range.end.9, range.inclusive))
        &&& self.10.lies_in(PropRange::new(range.start.10, range.end.10, range.inclusive))
        &&& self.11.lies_in(PropRange::new(range.start.11, range.end.11, range.inclusive))
        &&& self.12.lies_in(PropRange::new(range.start.12, range.end.12, range.inclusive))
        &&& self.13.lies_in(PropRange::new(range.start.13, range.end.13, range.inclusive))
        &&& self.14.lies_in(PropRange::new(range.start.14, range.end.14, range.inclusive))
        &&& self.15.lies_in(PropRange::new(range.start.15, range.end.15, range.inclusive))
    }

    fn check_range(range: &PropRange<Self>) -> (ok: bool) {
        A::check_range(&PropRange::new(range.start.0, range.end.0, range.inclusive))
            && B::check_range(&PropRange::new(range.start.1, range.end.1, range.inclusive))
            && C::check_range(&PropRange::new(range.start.2, range.end.2, range.inclusive))
            && D::check_range(&PropRange::new(range.start.3, range.end.3, range.inclusive))
            && E::check_range(&PropRange::new(range.start.4, range.end.4, range.inclusive))
            && F::check_range(&PropRange::new(range.start.5, range.end.5, range.inclusive))
            && G::check_range(&PropRange::new(range.start.6, range.end.6, range.inclusive))
            && H::check_range(&PropRange::new(range.start.7, range.end.7, range.inclusive))
            && I::check_range(&PropRange::new(range.start.8, range.end.8, range.inclusive))
            && J::check_range(&PropRange::new(range.start.9, range.end.9, range.inclusive))
            && K::check_range(&PropRange::new(range.start.10, range.end.10, range.inclusive))
            && L::check_range(&PropRange::new(range.start.11, range.end.11, range.inclusive))
            && M::check_range(&PropRange::new(range.start.12, range.end.12, range.inclusive))
            && N::check_range(&PropRange::new(range.start.13, range.end.13, range.inclusive))
            && O::check_range(&PropRange::new(range.start.14, range.end.14, range.inclusive))
            && P::check_range(&PropRange::new(range.start.15, range.end.15, range.inclusive))
    }

    fn gen(rng: &mut ThreadRng) -> Self {
        let a = A::gen(rng);
        let b = B::gen(rng);
        let c = C::gen(rng);
        let d = D::gen(rng);
        let e = E::gen(rng);
        let f = F::gen(rng);
        let g = G::gen(rng);
        let h = H::gen(rng);
        let i = I::gen(rng);
        let j = J::gen(rng);
        let k = K::gen(rng);
        let l = L::gen(rng);
        let m = M::gen(rng);
        let n = N::gen(rng);
        let o = O::gen(rng);
        let p = P::gen(rng);
        (a, b, c, d, e, f, g, h, i, j, k, l, m, n, o, p)
    }

    fn gen_range(rng: &mut ThreadRng, range: PropRange<Self>) -> (value: Self) {
        let a = A::gen_range(rng, PropRange::new(range.start.0, range.end.0, range.inclusive));
        let b = B::gen_range(rng, PropRange::new(range.start.1, range.end.1, range.inclusive));
        let c = C::gen_range(rng, PropRange::new(range.start.2, range.end.2, range.inclusive));
        let d = D::gen_range(rng, PropRange::new(range.start.3, range.end.3, range.inclusive));
        let e = E::gen_range(rng, PropRange::new(range.start.4, range.end.4, range.inclusive));
        let f = F::gen_range(rng, PropRange::new(range.start.5, range.end.5, range.inclusive));
        let g = G::gen_range(rng, PropRange::new(range.start.6, range.end.6, range.inclusive));
        let h = H::gen_range(rng, PropRange::new(range.start.7, range.end.7, range.inclusive));
        let i = I::gen_range(rng, PropRange::new(range.start.8, range.end.8, range.inclusive));
        let j = J::gen_range(rng, PropRange::new(range.start.9, range.end.9, range.inclusive));
        let k = K::gen_range(rng, PropRange::new(range.start.10, range.end.10, range.inclusive));
        let l = L::gen_range(rng, PropRange::new(range.start.11, range.end.11, range.inclusive));
        let m = M::gen_range(rng, PropRange::new(range.start.12, range.end.12, range.inclusive));
        let n = N::gen_range(rng, PropRange::new(range.start.13, range.end.13, range.inclusive));
        let o = O::gen_range(rng, PropRange::new(range.start.14, range.end.14, range.inclusive));
        let p = P::gen_range(rng, PropRange::new(range.start.15, range.end.15, range.inclusive));
        (a, b, c, d, e, f, g, h, i, j, k, l, m, n, o, p)
    }
}

} // verus!
