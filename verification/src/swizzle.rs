//! Swizzles: new vectors of two, three or four components picked, in any order and
//! with repetition, from the x, y, z and w components of a vector. A missing z or w
//! component reads as the default value.
use crate::vector::{comp, lemma_vector_len, Vector};
use crate::VectorizedType;
use vstd::prelude::*;

verus! {

broadcast use lemma_vector_len;

impl<T: VectorizedType, const N: usize> Vector<T, N> {
    /// The vector `(x, x)` of this vector's components.
    pub fn xx(&self) -> (r: Vector<T, 2>)
        requires
            N >= 1,
        ensures
            r@ == seq![comp(*self, 0), comp(*self, 0)],
    {
        let r = Vector::<T, 2>::new([self.x(), self.x()]);
        assert(r@ =~= seq![comp(*self, 0), comp(*self, 0)]);
        r
    }

    /// The vector `(x, y)` of this vector's components.
    pub fn xy(&self) -> (r: Vector<T, 2>)
        requires
            N >= 2,
        ensures
            r@ == seq![comp(*self, 0), comp(*self, 1)],
    {
        let r = Vector::<T, 2>::new([self.x(), self.y()]);
        assert(r@ =~= seq![comp(*self, 0), comp(*self, 1)]);
        r
    }

    /// The vector `(x, z)` of this vector's components.
    pub fn xz(&self) -> (r: Vector<T, 2>)
        requires
            N >= 1,
        ensures
            r@ == seq![comp(*self, 0), comp(*self, 2)],
    {
        let r = Vector::<T, 2>::new([self.x(), self.z()]);
        assert(r@ =~= seq![comp(*self, 0), comp(*self, 2)]);
        r
    }

    /// The vector `(x, w)` of this vector's components.
    pub fn xw(&self) -> (r: Vector<T, 2>)
        requires
            N >= 1,
        ensures
            r@ == seq![comp(*self, 0), comp(*self, 3)],
    {
        let r = Vector::<T, 2>::new([self.x(), self.w()]);
        assert(r@ =~= seq![comp(*self, 0), comp(*self, 3)]);
        r
    }

    /// The vector `(y, x)` of this vector's components.
    pub fn yx(&self) -> (r: Vector<T, 2>)
        requires
            N >= 2,
        ensures
            r@ == seq![comp(*self, 1), comp(*self, 0)],
    {
        let r = Vector::<T, 2>::new([self.y(), self.x()]);
        assert(r@ =~= seq![comp(*self, 1), comp(*self, 0)]);
        r
    }

    /// The vector `(y, y)` of this vector's components.
    pub fn yy(&self) -> (r: Vector<T, 2>)
        requires
            N >= 2,
        ensures
            r@ == seq![comp(*self, 1), comp(*self, 1)],
    {
        let r = Vector::<T, 2>::new([self.y(), self.y()]);
        assert(r@ =~= seq![comp(*self, 1), comp(*self, 1)]);
        r
    }

    /// The vector `(y, z)` of this vector's components.
    pub fn yz(&self) -> (r: Vector<T, 2>)
        requires
            N >= 2,
        ensures
            r@ == seq![comp(*self, 1), comp(*self, 2)],
    {
        let r = Vector::<T, 2>::new([self.y(), self.z()]);
        assert(r@ =~= seq![comp(*self, 1), comp(*self, 2)]);
        r
    }

    /// The vector `(y, w)` of this vector's components.
    pub fn yw(&self) -> (r: Vector<T, 2>)
        requires
            N >= 2,
        ensures
            r@ == seq![comp(*self, 1), comp(*self, 3)],
    {
        let r = Vector::<T, 2>::new([self.y(), self.w()]);
        assert(r@ =~= seq![comp(*self, 1), comp(*self, 3)]);
        r
    }

    /// The vector `(z, x)` of this vector's components.
    pub fn zx(&self) -> (r: Vector<T, 2>)
        requires
            N >= 1,
        ensures
            r@ == seq![comp(*self, 2), comp(*self, 0)],
    {
        let r = Vector::<T, 2>::new([self.z(), self.x()]);
        assert(r@ =~= seq![comp(*self, 2), comp(*self, 0)]);
        r
    }

    /// The vector `(z, y)` of this vector's components.
    pub fn zy(&self) -> (r: Vector<T, 2>)
        requires
            N >= 2,
        ensures
            r@ == seq![comp(*self, 2), comp(*self, 1)],
    {
        let r = Vector::<T, 2>::new([self.z(), self.y()]);
        assert(r@ =~= seq![comp(*self, 2), comp(*self, 1)]);
        r
    }

    /// The vector `(z, z)` of this vector's components.
    pub fn zz(&self) -> (r: Vector<T, 2>)
        ensures
            r@ == seq![comp(*self, 2), comp(*self, 2)],
    {
        let r = Vector::<T, 2>::new([self.z(), self.z()]);
        assert(r@ =~= seq![comp(*self, 2), comp(*self, 2)]);
        r
    }

    /// The vector `(z, w)` of this vector's components.
    pub fn zw(&self) -> (r: Vector<T, 2>)
        ensures
            r@ == seq![comp(*self, 2), comp(*self, 3)],
    {
        let r = Vector::<T, 2>::new([self.z(), self.w()]);
        assert(r@ =~= seq![comp(*self, 2), comp(*self, 3)]);
        r
    }

    /// The vector `(w, x)` of this vector's components.
    pub fn wx(&self) -> (r: Vector<T, 2>)
        requires
            N >= 1,
        ensures
            r@ == seq![comp(*self, 3), comp(*self, 0)],
    {
        let r = Vector::<T, 2>::new([self.w(), self.x()]);
        assert(r@ =~= seq![comp(*self, 3), comp(*self, 0)]);
        r
    }

    /// The vector `(w, y)` of this vector's components.
    pub fn wy(&self) -> (r: Vector<T, 2>)
        requires
            N >= 2,
        ensures
            r@ == seq![comp(*self, 3), comp(*self, 1)],
    {
        let r = Vector::<T, 2>::new([self.w(), self.y()]);
        assert(r@ =~= seq![comp(*self, 3), comp(*self, 1)]);
        r
    }

    /// The vector `(w, z)` of this vector's components.
    pub fn wz(&self) -> (r: Vector<T, 2>)
        ensures
            r@ == seq![comp(*self, 3), comp(*self, 2)],
    {
        let r = Vector::<T, 2>::new([self.w(), self.z()]);
        assert(r@ =~= seq![comp(*self, 3), comp(*self, 2)]);
        r
    }

    /// The vector `(w, w)` of this vector's components.
    pub fn ww(&self) -> (r: Vector<T, 2>)
        ensures
            r@ == seq![comp(*self, 3), comp(*self, 3)],
    {
        let r = Vector::<T, 2>::new([self.w(), self.w()]);
        assert(r@ =~= seq![comp(*self, 3), comp(*self, 3)]);
        r
    }

    /// The vector `(x, x, x)` of this vector's components.
    pub fn xxx(&self) -> (r: Vector<T, 3>)
        requires
            N >= 1,
        ensures
            r@ == seq![comp(*self, 0), comp(*self, 0), comp(*self, 0)],
    {
        let r = Vector::<T, 3>::new([self.x(), self.x(), self.x()]);
        assert(r@ =~= seq![comp(*self, 0), comp(*self, 0), comp(*self, 0)]);
        r
    }

    /// The vector `(x, x, y)` of this vector's components.
    pub fn xxy(&self) -> (r: Vector<T, 3>)
        requires
            N >= 2,
        ensures
            r@ == seq![comp(*self, 0), comp(*self, 0), comp(*self, 1)],
    {
        let r = Vector::<T, 3>::new([self.x(), self.x(), self.y()]);
        assert(r@ =~= seq![comp(*self, 0), comp(*self, 0), comp(*self, 1)]);
        r
    }

    /// The vector `(x, x, z)` of this vector's components.
    pub fn xxz(&self) -> (r: Vector<T, 3>)
        requires
            N >= 1,
        ensures
            r@ == seq![comp(*self, 0), comp(*self, 0), comp(*self, 2)],
    {
        let r = Vector::<T, 3>::new([self.x(), self.x(), self.z()]);
        assert(r@ =~= seq![comp(*self, 0), comp(*self, 0), comp(*self, 2)]);
        r
    }

    /// The vector `(x, x, w)` of this vector's components.
    pub fn xxw(&self) -> (r: Vector<T, 3>)
        requires
            N >= 1,
        ensures
            r@ == seq![comp(*self, 0), comp(*self, 0), comp(*self, 3)],
    {
        let r = Vector::<T, 3>::new([self.x(), self.x(), self.w()]);
        assert(r@ =~= seq![comp(*self, 0), comp(*self, 0), comp(*self, 3)]);
        r
    }

    /// The vector `(x, y, x)` of this vector's components.
    pub fn xyx(&self) -> (r: Vector<T, 3>)
        requires
            N >= 2,
        ensures
            r@ == seq![comp(*self, 0), comp(*self, 1), comp(*self, 0)],
    {
        let r = Vector::<T, 3>::new([self.x(), self.y(), self.x()]);
        assert(r@ =~= seq![comp(*self, 0), comp(*self, 1), comp(*self, 0)]);
        r
    }

    /// The vector `(x, y, y)` of this vector's components.
    pub fn xyy(&self) -> (r: Vector<T, 3>)
        requires
            N >= 2,
        ensures
            r@ == seq![comp(*self, 0), comp(*self, 1), comp(*self, 1)],
    {
        let r = Vector::<T, 3>::new([self.x(), self.y(), self.y()]);
        assert(r@ =~= seq![comp(*self, 0), comp(*self, 1), comp(*self, 1)]);
        r
    }

    /// The vector `(x, y, z)` of this vector's components.
    pub fn xyz(&self) -> (r: Vector<T, 3>)
        requires
            N >= 2,
        ensures
            r@ == seq![comp(*self, 0), comp(*self, 1), comp(*self, 2)],
    {
        let r = Vector::<T, 3>::new([self.x(), self.y(), self.z()]);
        assert(r@ =~= seq![comp(*self, 0), comp(*self, 1), comp(*self, 2)]);
        r
    }

    /// The vector `(x, y, w)` of this vector's components.
    pub fn xyw(&self) -> (r: Vector<T, 3>)
        requires
            N >= 2,
        ensures
            r@ == seq![comp(*self, 0), comp(*self, 1), comp(*self, 3)],
    {
        let r = Vector::<T, 3>::new([self.x(), self.y(), self.w()]);
        assert(r@ =~= seq![comp(*self, 0), comp(*self, 1), comp(*self, 3)]);
        r
    }

    /// The vector `(x, z, x)` of this vector's components.
    pub fn xzx(&self) -> (r: Vector<T, 3>)
        requires
            N >= 1,
        ensures
            r@ == seq![comp(*self, 0), comp(*self, 2), comp(*self, 0)],
    {
        let r = Vector::<T, 3>::new([self.x(), self.z(), self.x()]);
        assert(r@ =~= seq![comp(*self, 0), comp(*self, 2), comp(*self, 0)]);
        r
    }

    /// The vector `(x, z, y)` of this vector's components.
    pub fn xzy(&self) -> (r: Vector<T, 3>)
        requires
            N >= 2,
        ensures
            r@ == seq![comp(*self, 0), comp(*self, 2), comp(*self, 1)],
    {
        let r = Vector::<T, 3>::new([self.x(), self.z(), self.y()]);
        assert(r@ =~= seq![comp(*self, 0), comp(*self, 2), comp(*self, 1)]);
        r
    }

    /// The vector `(x, z, z)` of this vector's components.
    pub fn xzz(&self) -> (r: Vector<T, 3>)
        requires
            N >= 1,
        ensures
            r@ == seq![comp(*self, 0), comp(*self, 2), comp(*self, 2)],
    {
        let r = Vector::<T, 3>::new([self.x(), self.z(), self.z()]);
        assert(r@ =~= seq![comp(*self, 0), comp(*self, 2), comp(*self, 2)]);
        r
    }

    /// The vector `(x, z, w)` of this vector's components.
    pub fn xzw(&self) -> (r: Vector<T, 3>)
        requires
            N >= 1,
        ensures
            r@ == seq![comp(*self, 0), comp(*self, 2), comp(*self, 3)],
    {
        let r = Vector::<T, 3>::new([self.x(), self.z(), self.w()]);
        assert(r@ =~= seq![comp(*self, 0), comp(*self, 2), comp(*self, 3)]);
        r
    }

    /// The vector `(x, w, x)` of this vector's components.
    pub fn xwx(&self) -> (r: Vector<T, 3>)
        requires
            N >= 1,
        ensures
            r@ == seq![comp(*self, 0), comp(*self, 3), comp(*self, 0)],
    {
        let r = Vector::<T, 3>::new([self.x(), self.w(), self.x()]);
        assert(r@ =~= seq![comp(*self, 0), comp(*self, 3), comp(*self, 0)]);
        r
    }

    /// The vector `(x, w, y)` of this vector's components.
    pub fn xwy(&self) -> (r: Vector<T, 3>)
        requires
            N >= 2,
        ensures
            r@ == seq![comp(*self, 0), comp(*self, 3), comp(*self, 1)],
    {
        let r = Vector::<T, 3>::new([self.x(), self.w(), self.y()]);
        assert(r@ =~= seq![comp(*self, 0), comp(*self, 3), comp(*self, 1)]);
        r
    }

    /// The vector `(x, w, z)` of this vector's components.
    pub fn xwz(&self) -> (r: Vector<T, 3>)
        requires
            N >= 1,
        ensures
            r@ == seq![comp(*self, 0), comp(*self, 3), comp(*self, 2)],
    {
        let r = Vector::<T, 3>::new([self.x(), self.w(), self.z()]);
        assert(r@ =~= seq![comp(*self, 0), comp(*self, 3), comp(*self, 2)]);
        r
    }

    /// The vector `(x, w, w)` of this vector's components.
    pub fn xww(&self) -> (r: Vector<T, 3>)
        requires
            N >= 1,
        ensures
            r@ == seq![comp(*self, 0), comp(*self, 3), comp(*self, 3)],
    {
        let r = Vector::<T, 3>::new([self.x(), self.w(), self.w()]);
        assert(r@ =~= seq![comp(*self, 0), comp(*self, 3), comp(*self, 3)]);
        r
    }

    /// The vector `(y, x, x)` of this vector's components.
    pub fn yxx(&self) -> (r: Vector<T, 3>)
        requires
            N >= 2,
        ensures
            r@ == seq![comp(*self, 1), comp(*self, 0), comp(*self, 0)],
    {
        let r = Vector::<T, 3>::new([self.y(), self.x(), self.x()]);
        assert(r@ =~= seq![comp(*self, 1), comp(*self, 0), comp(*self, 0)]);
        r
    }

    /// The vector `(y, x, y)` of this vector's components.
    pub fn yxy(&self) -> (r: Vector<T, 3>)
        requires
            N >= 2,
        ensures
            r@ == seq![comp(*self, 1), comp(*self, 0), comp(*self, 1)],
    {
        let r = Vector::<T, 3>::new([self.y(), self.x(), self.y()]);
        assert(r@ =~= seq![comp(*self, 1), comp(*self, 0), comp(*self, 1)]);
        r
    }

    /// The vector `(y, x, z)` of this vector's components.
    pub fn yxz(&self) -> (r: Vector<T, 3>)
        requires
            N >= 2,
        ensures
            r@ == seq![comp(*self, 1), comp(*self, 0), comp(*self, 2)],
    {
        let r = Vector::<T, 3>::new([self.y(), self.x(), self.z()]);
        assert(r@ =~= seq![comp(*self, 1), comp(*self, 0), comp(*self, 2)]);
        r
    }

    /// The vector `(y, x, w)` of this vector's components.
    pub fn yxw(&self) -> (r: Vector<T, 3>)
        requires
            N >= 2,
        ensures
            r@ == seq![comp(*self, 1), comp(*self, 0), comp(*self, 3)],
    {
        let r = Vector::<T, 3>::new([self.y(), self.x(), self.w()]);
        assert(r@ =~= seq![comp(*self, 1), comp(*self, 0), comp(*self, 3)]);
        r
    }

    /// The vector `(y, y, x)` of this vector's components.
    pub fn yyx(&self) -> (r: Vector<T, 3>)
        requires
            N >= 2,
        ensures
            r@ == seq![comp(*self, 1), comp(*self, 1), comp(*self, 0)],
    {
        let r = Vector::<T, 3>::new([self.y(), self.y(), self.x()]);
        assert(r@ =~= seq![comp(*self, 1), comp(*self, 1), comp(*self, 0)]);
        r
    }

    /// The vector `(y, y, y)` of this vector's components.
    pub fn yyy(&self) -> (r: Vector<T, 3>)
        requires
            N >= 2,
        ensures
            r@ == seq![comp(*self, 1), comp(*self, 1), comp(*self, 1)],
    {
        let r = Vector::<T, 3>::new([self.y(), self.y(), self.y()]);
        assert(r@ =~= seq![comp(*self, 1), comp(*self, 1), comp(*self, 1)]);
        r
    }

    /// The vector `(y, y, z)` of this vector's components.
    pub fn yyz(&self) -> (r: Vector<T, 3>)
        requires
            N >= 2,
        ensures
            r@ == seq![comp(*self, 1), comp(*self, 1), comp(*self, 2)],
    {
        let r = Vector::<T, 3>::new([self.y(), self.y(), self.z()]);
        assert(r@ =~= seq![comp(*self, 1), comp(*self, 1), comp(*self, 2)]);
        r
    }

    /// The vector `(y, y, w)` of this vector's components.
    pub fn yyw(&self) -> (r: Vector<T, 3>)
        requires
            N >= 2,
        ensures
            r@ == seq![comp(*self, 1), comp(*self, 1), comp(*self, 3)],
    {
        let r = Vector::<T, 3>::new([self.y(), self.y(), self.w()]);
        assert(r@ =~= seq![comp(*self, 1), comp(*self, 1), comp(*self, 3)]);
        r
    }

    /// The vector `(y, z, x)` of this vector's components.
    pub fn yzx(&self) -> (r: Vector<T, 3>)
        requires
            N >= 2,
        ensures
            r@ == seq![comp(*self, 1), comp(*self, 2), comp(*self, 0)],
    {
        let r = Vector::<T, 3>::new([self.y(), self.z(), self.x()]);
        assert(r@ =~= seq![comp(*self, 1), comp(*self, 2), comp(*self, 0)]);
        r
    }

    /// The vector `(y, z, y)` of this vector's components.
    pub fn yzy(&self) -> (r: Vector<T, 3>)
        requires
            N >= 2,
        ensures
            r@ == seq![comp(*self, 1), comp(*self, 2), comp(*self, 1)],
    {
        let r = Vector::<T, 3>::new([self.y(), self.z(), self.y()]);
        assert(r@ =~= seq![comp(*self, 1), comp(*self, 2), comp(*self, 1)]);
        r
    }

    /// The vector `(y, z, z)` of this vector's components.
    pub fn yzz(&self) -> (r: Vector<T, 3>)
        requires
            N >= 2,
        ensures
            r@ == seq![comp(*self, 1), comp(*self, 2), comp(*self, 2)],
    {
        let r = Vector::<T, 3>::new([self.y(), self.z(), self.z()]);
        assert(r@ =~= seq![comp(*self, 1), comp(*self, 2), comp(*self, 2)]);
        r
    }

    /// The vector `(y, z, w)` of this vector's components.
    pub fn yzw(&self) -> (r: Vector<T, 3>)
        requires
            N >= 2,
        ensures
            r@ == seq![comp(*self, 1), comp(*self, 2), comp(*self, 3)],
    {
        let r = Vector::<T, 3>::new([self.y(), self.z(), self.w()]);
        assert(r@ =~= seq![comp(*self, 1), comp(*self, 2), comp(*self, 3)]);
        r
    }

    /// The vector `(y, w, x)` of this vector's components.
    pub fn ywx(&self) -> (r: Vector<T, 3>)
        requires
            N >= 2,
        ensures
            r@ == seq![comp(*self, 1), comp(*self, 3), comp(*self, 0)],
    {
        let r = Vector::<T, 3>::new([self.y(), self.w(), self.x()]);
        assert(r@ =~= seq![comp(*self, 1), comp(*self, 3), comp(*self, 0)]);
        r
    }

    /// The vector `(y, w, y)` of this vector's components.
    pub fn ywy(&self) -> (r: Vector<T, 3>)
        requires
            N >= 2,
        ensures
            r@ == seq![comp(*self, 1), comp(*self, 3), comp(*self, 1)],
    {
        let r = Vector::<T, 3>::new([self.y(), self.w(), self.y()]);
        assert(r@ =~= seq![comp(*self, 1), comp(*self, 3), comp(*self, 1)]);
        r
    }

    /// The vector `(y, w, z)` of this vector's components.
    pub fn ywz(&self) -> (r: Vector<T, 3>)
        requires
            N >= 2,
        ensures
            r@ == seq![comp(*self, 1), comp(*self, 3), comp(*self, 2)],
    {
        let r = Vector::<T, 3>::new([self.y(), self.w(), self.z()]);
        assert(r@ =~= seq![comp(*self, 1), comp(*self, 3), comp(*self, 2)]);
        r
    }

    /// The vector `(y, w, w)` of this vector's components.
    pub fn yww(&self) -> (r: Vector<T, 3>)
        requires
            N >= 2,
        ensures
            r@ == seq![comp(*self, 1), comp(*self, 3), comp(*self, 3)],
    {
        let r = Vector::<T, 3>::new([self.y(), self.w(), self.w()]);
        assert(r@ =~= seq![comp(*self, 1), comp(*self, 3), comp(*self, 3)]);
        r
    }

    /// The vector `(z, x, x)` of this vector's components.
    pub fn zxx(&self) -> (r: Vector<T, 3>)
        requires
            N >= 1,
        ensures
            r@ == seq![comp(*self, 2), comp(*self, 0), comp(*self, 0)],
    {
        let r = Vector::<T, 3>::new([self.z(), self.x(), self.x()]);
        assert(r@ =~= seq![comp(*self, 2), comp(*self, 0), comp(*self, 0)]);
        r
    }

    /// The vector `(z, x, y)` of this vector's components.
    pub fn zxy(&self) -> (r: Vector<T, 3>)
        requires
            N >= 2,
        ensures
            r@ == seq![comp(*self, 2), comp(*self, 0), comp(*self, 1)],
    {
        let r = Vector::<T, 3>::new([self.z(), self.x(), self.y()]);
        assert(r@ =~= seq![comp(*self, 2), comp(*self, 0), comp(*self, 1)]);
        r
    }

    /// The vector `(z, x, z)` of this vector's components.
    pub fn zxz(&self) -> (r: Vector<T, 3>)
        requires
            N >= 1,
        ensures
            r@ == seq![comp(*self, 2), comp(*self, 0), comp(*self, 2)],
    {
        let r = Vector::<T, 3>::new([self.z(), self.x(), self.z()]);
        assert(r@ =~= seq![comp(*self, 2), comp(*self, 0), comp(*self, 2)]);
        r
    }

    /// The vector `(z, x, w)` of this vector's components.
    pub fn zxw(&self) -> (r: Vector<T, 3>)
        requires
            N >= 1,
        ensures
            r@ == seq![comp(*self, 2), comp(*self, 0), comp(*self, 3)],
    {
        let r = Vector::<T, 3>::new([self.z(), self.x(), self.w()]);
        assert(r@ =~= seq![comp(*self, 2), comp(*self, 0), comp(*self, 3)]);
        r
    }

    /// The vector `(z, y, x)` of this vector's components.
    pub fn zyx(&self) -> (r: Vector<T, 3>)
        requires
            N >= 2,
        ensures
            r@ == seq![comp(*self, 2), comp(*self, 1), comp(*self, 0)],
    {
        let r = Vector::<T, 3>::new([self.z(), self.y(), self.x()]);
        assert(r@ =~= seq![comp(*self, 2), comp(*self, 1), comp(*self, 0)]);
        r
    }

    /// The vector `(z, y, y)` of this vector's components.
    pub fn zyy(&self) -> (r: Vector<T, 3>)
        requires
            N >= 2,
        ensures
            r@ == seq![comp(*self, 2), comp(*self, 1), comp(*self, 1)],
    {
        let r = Vector::<T, 3>::new([self.z(), self.y(), self.y()]);
        assert(r@ =~= seq![comp(*self, 2), comp(*self, 1), comp(*self, 1)]);
        r
    }

    /// The vector `(z, y, z)` of this vector's components.
    pub fn zyz(&self) -> (r: Vector<T, 3>)
        requires
            N >= 2,
        ensures
            r@ == seq![comp(*self, 2), comp(*self, 1), comp(*self, 2)],
    {
        let r = Vector::<T, 3>::new([self.z(), self.y(), self.z()]);
        assert(r@ =~= seq![comp(*self, 2), comp(*self, 1), comp(*self, 2)]);
        r
    }

    /// The vector `(z, y, w)` of this vector's components.
    pub fn zyw(&self) -> (r: Vector<T, 3>)
        requires
            N >= 2,
        ensures
            r@ == seq![comp(*self, 2), comp(*self, 1), comp(*self, 3)],
    {
        let r = Vector::<T, 3>::new([self.z(), self.y(), self.w()]);
        assert(r@ =~= seq![comp(*self, 2), comp(*self, 1), comp(*self, 3)]);
        r
    }

    /// The vector `(z, z, x)` of this vector's components.
    pub fn zzx(&self) -> (r: Vector<T, 3>)
        requires
            N >= 1,
        ensures
            r@ == seq![comp(*self, 2), comp(*self, 2), comp(*self, 0)],
    {
        let r = Vector::<T, 3>::new([self.z(), self.z(), self.x()]);
        assert(r@ =~= seq![comp(*self, 2), comp(*self, 2), comp(*self, 0)]);
        r
    }

    /// The vector `(z, z, y)` of this vector's components.
    pub fn zzy(&self) -> (r: Vector<T, 3>)
        requires
            N >= 2,
        ensures
            r@ == seq![comp(*self, 2), comp(*self, 2), comp(*self, 1)],
    {
        let r = Vector::<T, 3>::new([self.z(), self.z(), self.y()]);
        assert(r@ =~= seq![comp(*self, 2), comp(*self, 2), comp(*self, 1)]);
        r
    }

    /// The vector `(z, z, z)` of this vector's components.
    pub fn zzz(&self) -> (r: Vector<T, 3>)
        ensures
            r@ == seq![comp(*self, 2), comp(*self, 2), comp(*self, 2)],
    {
        let r = Vector::<T, 3>::new([self.z(), self.z(), self.z()]);
        assert(r@ =~= seq![comp(*self, 2), comp(*self, 2), comp(*self, 2)]);
        r
    }

    /// The vector `(z, z, w)` of this vector's components.
    pub fn zzw(&self) -> (r: Vector<T, 3>)
        ensures
            r@ == seq![comp(*self, 2), comp(*self, 2), comp(*self, 3)],
    {
        let r = Vector::<T, 3>::new([self.z(), self.z(), self.w()]);
        assert(r@ =~= seq![comp(*self, 2), comp(*self, 2), comp(*self, 3)]);
        r
    }

    /// The vector `(z, w, x)` of this vector's components.
    pub fn zwx(&self) -> (r: Vector<T, 3>)
        requires
            N >= 1,
        ensures
            r@ == seq![comp(*self, 2), comp(*self, 3), comp(*self, 0)],
    {
        let r = Vector::<T, 3>::new([self.z(), self.w(), self.x()]);
        assert(r@ =~= seq![comp(*self, 2), comp(*self, 3), comp(*self, 0)]);
        r
    }

    /// The vector `(z, w, y)` of this vector's components.
    pub fn zwy(&self) -> (r: Vector<T, 3>)
        requires
            N >= 2,
        ensures
            r@ == seq![comp(*self, 2), comp(*self, 3), comp(*self, 1)],
    {
        let r = Vector::<T, 3>::new([self.z(), self.w(), self.y()]);
        assert(r@ =~= seq![comp(*self, 2), comp(*self, 3), comp(*self, 1)]);
        r
    }

    /// The vector `(z, w, z)` of this vector's components.
    pub fn zwz(&self) -> (r: Vector<T, 3>)
        ensures
            r@ == seq![comp(*self, 2), comp(*self, 3), comp(*self, 2)],
    {
        let r = Vector::<T, 3>::new([self.z(), self.w(), self.z()]);
        assert(r@ =~= seq![comp(*self, 2), comp(*self, 3), comp(*self, 2)]);
        r
    }

    /// The vector `(z, w, w)` of this vector's components.
    pub fn zww(&self) -> (r: Vector<T, 3>)
        ensures
            r@ == seq![comp(*self, 2), comp(*self, 3), comp(*self, 3)],
    {
        let r = Vector::<T, 3>::new([self.z(), self.w(), self.w()]);
        assert(r@ =~= seq![comp(*self, 2), comp(*self, 3), comp(*self, 3)]);
        r
    }

    /// The vector `(w, x, x)` of this vector's components.
    pub fn wxx(&self) -> (r: Vector<T, 3>)
        requires
            N >= 1,
        ensures
            r@ == seq![comp(*self, 3), comp(*self, 0), comp(*self, 0)],
    {
        let r = Vector::<T, 3>::new([self.w(), self.x(), self.x()]);
        assert(r@ =~= seq![comp(*self, 3), comp(*self, 0), comp(*self, 0)]);
        r
    }

    /// The vector `(w, x, y)` of this vector's components.
    pub fn wxy(&self) -> (r: Vector<T, 3>)
        requires
            N >= 2,
        ensures
            r@ == seq![comp(*self, 3), comp(*self, 0), comp(*self, 1)],
    {
        let r = Vector::<T, 3>::new([self.w(), self.x(), self.y()]);
        assert(r@ =~= seq![comp(*self, 3), comp(*self, 0), comp(*self, 1)]);
        r
    }

    /// The vector `(w, x, z)` of this vector's components.
    pub fn wxz(&self) -> (r: Vector<T, 3>)
        requires
            N >= 1,
        ensures
            r@ == seq![comp(*self, 3), comp(*self, 0), comp(*self, 2)],
    {
        let r = Vector::<T, 3>::new([self.w(), self.x(), self.z()]);
        assert(r@ =~= seq![comp(*self, 3), comp(*self, 0), comp(*self, 2)]);
        r
    }

    /// The vector `(w, x, w)` of this vector's components.
    pub fn wxw(&self) -> (r: Vector<T, 3>)
        requires
            N >= 1,
        ensures
            r@ == seq![comp(*self, 3), comp(*self, 0), comp(*self, 3)],
    {
        let r = Vector::<T, 3>::new([self.w(), self.x(), self.w()]);
        assert(r@ =~= seq![comp(*self, 3), comp(*self, 0), comp(*self, 3)]);
        r
    }

    /// The vector `(w, y, x)` of this vector's components.
    pub fn wyx(&self) -> (r: Vector<T, 3>)
        requires
            N >= 2,
        ensures
            r@ == seq![comp(*self, 3), comp(*self, 1), comp(*self, 0)],
    {
        let r = Vector::<T, 3>::new([self.w(), self.y(), self.x()]);
        assert(r@ =~= seq![comp(*self, 3), comp(*self, 1), comp(*self, 0)]);
        r
    }

    /// The vector `(w, y, y)` of this vector's components.
    pub fn wyy(&self) -> (r: Vector<T, 3>)
        requires
            N >= 2,
        ensures
            r@ == seq![comp(*self, 3), comp(*self, 1), comp(*self, 1)],
    {
        let r = Vector::<T, 3>::new([self.w(), self.y(), self.y()]);
        assert(r@ =~= seq![comp(*self, 3), comp(*self, 1), comp(*self, 1)]);
        r
    }

    /// The vector `(w, y, z)` of this vector's components.
    pub fn wyz(&self) -> (r: Vector<T, 3>)
        requires
            N >= 2,
        ensures
            r@ == seq![comp(*self, 3), comp(*self, 1), comp(*self, 2)],
    {
        let r = Vector::<T, 3>::new([self.w(), self.y(), self.z()]);
        assert(r@ =~= seq![comp(*self, 3), comp(*self, 1), comp(*self, 2)]);
        r
    }

    /// The vector `(w, y, w)` of this vector's components.
    pub fn wyw(&self) -> (r: Vector<T, 3>)
        requires
            N >= 2,
        ensures
            r@ == seq![comp(*self, 3), comp(*self, 1), comp(*self, 3)],
    {
        let r = Vector::<T, 3>::new([self.w(), self.y(), self.w()]);
        assert(r@ =~= seq![comp(*self, 3), comp(*self, 1), comp(*self, 3)]);
        r
    }

    /// The vector `(w, z, x)` of this vector's components.
    pub fn wzx(&self) -> (r: Vector<T, 3>)
        requires
            N >= 1,
        ensures
            r@ == seq![comp(*self, 3), comp(*self, 2), comp(*self, 0)],
    {
        let r = Vector::<T, 3>::new([self.w(), self.z(), self.x()]);
        assert(r@ =~= seq![comp(*self, 3), comp(*self, 2), comp(*self, 0)]);
        r
    }

    /// The vector `(w, z, y)` of this vector's components.
    pub fn wzy(&self) -> (r: Vector<T, 3>)
        requires
            N >= 2,
        ensures
            r@ == seq![comp(*self, 3), comp(*self, 2), comp(*self, 1)],
    {
        let r = Vector::<T, 3>::new([self.w(), self.z(), self.y()]);
        assert(r@ =~= seq![comp(*self, 3), comp(*self, 2), comp(*self, 1)]);
        r
    }

    /// The vector `(w, z, z)` of this vector's components.
    pub fn wzz(&self) -> (r: Vector<T, 3>)
        ensures
            r@ == seq![comp(*self, 3), comp(*self, 2), comp(*self, 2)],
    {
        let r = Vector::<T, 3>::new([self.w(), self.z(), self.z()]);
        assert(r@ =~= seq![comp(*self, 3), comp(*self, 2), comp(*self, 2)]);
        r
    }

    /// The vector `(w, z, w)` of this vector's components.
    pub fn wzw(&self) -> (r: Vector<T, 3>)
        ensures
            r@ == seq![comp(*self, 3), comp(*self, 2), comp(*self, 3)],
    {
        let r = Vector::<T, 3>::new([self.w(), self.z(), self.w()]);
        assert(r@ =~= seq![comp(*self, 3), comp(*self, 2), comp(*self, 3)]);
        r
    }

    /// The vector `(w, w, x)` of this vector's components.
    pub fn wwx(&self) -> (r: Vector<T, 3>)
        requires
            N >= 1,
        ensures
            r@ == seq![comp(*self, 3), comp(*self, 3), comp(*self, 0)],
    {
        let r = Vector::<T, 3>::new([self.w(), self.w(), self.x()]);
        assert(r@ =~= seq![comp(*self, 3), comp(*self, 3), comp(*self, 0)]);
        r
    }

    /// The vector `(w, w, y)` of this vector's components.
    pub fn wwy(&self) -> (r: Vector<T, 3>)
        requires
            N >= 2,
        ensures
            r@ == seq![comp(*self, 3), comp(*self, 3), comp(*self, 1)],
    {
        let r = Vector::<T, 3>::new([self.w(), self.w(), self.y()]);
        assert(r@ =~= seq![comp(*self, 3), comp(*self, 3), comp(*self, 1)]);
        r
    }

    /// The vector `(w, w, z)` of this vector's components.
    pub fn wwz(&self) -> (r: Vector<T, 3>)
        ensures
            r@ == seq![comp(*self, 3), comp(*self, 3), comp(*self, 2)],
    {
        let r = Vector::<T, 3>::new([self.w(), self.w(), self.z()]);
        assert(r@ =~= seq![comp(*self, 3), comp(*self, 3), comp(*self, 2)]);
        r
    }

    /// The vector `(w, w, w)` of this vector's components.
    pub fn www(&self) -> (r: Vector<T, 3>)
        ensures
            r@ == seq![comp(*self, 3), comp(*self, 3), comp(*self, 3)],
    {
        let r = Vector::<T, 3>::new([self.w(), self.w(), self.w()]);
        assert(r@ =~= seq![comp(*self, 3), comp(*self, 3), comp(*self, 3)]);
        r
    }

    /// The vector `(x, x, x, x)` of this vector's components.
    pub fn xxxx(&self) -> (r: Vector<T, 4>)
        requires
            N >= 1,
        ensures
            r@ == seq![comp(*self, 0), comp(*self, 0), comp(*self, 0), comp(*self, 0)],
    {
        let r = Vector::<T, 4>::new([self.x(), self.x(), self.x(), self.x()]);
        assert(r@ =~= seq![comp(*self, 0), comp(*self, 0), comp(*self, 0), comp(*self, 0)]);
        r
    }

    /// The vector `(x, x, x, y)` of this vector's components.
    pub fn xxxy(&self) -> (r: Vector<T, 4>)
        requires
            N >= 2,
        ensures
            r@ == seq![comp(*self, 0), comp(*self, 0), comp(*self, 0), comp(*self, 1)],
    {
        let r = Vector::<T, 4>::new([self.x(), self.x(), self.x(), self.y()]);
        assert(r@ =~= seq![comp(*self, 0), comp(*self, 0), comp(*self, 0), comp(*self, 1)]);
        r
    }

    /// The vector `(x, x, x, z)` of this vector's components.
    pub fn xxxz(&self) -> (r: Vector<T, 4>)
        requires
            N >= 1,
        ensures
            r@ == seq![comp(*self, 0), comp(*self, 0), comp(*self, 0), comp(*self, 2)],
    {
        let r = Vector::<T, 4>::new([self.x(), self.x(), self.x(), self.z()]);
        assert(r@ =~= seq![comp(*self, 0), comp(*self, 0), comp(*self, 0), comp(*self, 2)]);
        r
    }

    /// The vector `(x, x, x, w)` of this vector's components.
    pub fn xxxw(&self) -> (r: Vector<T, 4>)
        requires
            N >= 1,
        ensures
            r@ == seq![comp(*self, 0), comp(*self, 0), comp(*self, 0), comp(*self, 3)],
    {
        let r = Vector::<T, 4>::new([self.x(), self.x(), self.x(), self.w()]);
        assert(r@ =~= seq![comp(*self, 0), comp(*self, 0), comp(*self, 0), comp(*self, 3)]);
        r
    }

    /// The vector `(x, x, y, x)` of this vector's components.
    pub fn xxyx(&self) -> (r: Vector<T, 4>)
        requires
            N >= 2,
        ensures
            r@ == seq![comp(*self, 0), comp(*self, 0), comp(*self, 1), comp(*self, 0)],
    {
        let r = Vector::<T, 4>::new([self.x(), self.x(), self.y(), self.x()]);
        assert(r@ =~= seq![comp(*self, 0), comp(*self, 0), comp(*self, 1), comp(*self, 0)]);
        r
    }

    /// The vector `(x, x, y, y)` of this vector's components.
    pub fn xxyy(&self) -> (r: Vector<T, 4>)
        requires
            N >= 2,
        ensures
            r@ == seq![comp(*self, 0), comp(*self, 0), comp(*self, 1), comp(*self, 1)],
    {
        let r = Vector::<T, 4>::new([self.x(), self.x(), self.y(), self.y()]);
        assert(r@ =~= seq![comp(*self, 0), comp(*self, 0), comp(*self, 1), comp(*self, 1)]);
        r
    }

    /// The vector `(x, x, y, z)` of this vector's components.
    pub fn xxyz(&self) -> (r: Vector<T, 4>)
        requires
            N >= 2,
        ensures
            r@ == seq![comp(*self, 0), comp(*self, 0), comp(*self, 1), comp(*self, 2)],
    {
        let r = Vector::<T, 4>::new([self.x(), self.x(), self.y(), self.z()]);
        assert(r@ =~= seq![comp(*self, 0), comp(*self, 0), comp(*self, 1), comp(*self, 2)]);
        r
    }

    /// The vector `(x, x, y, w)` of this vector's components.
    pub fn xxyw(&self) -> (r: Vector<T, 4>)
        requires
            N >= 2,
        ensures
            r@ == seq![comp(*self, 0), comp(*self, 0), comp(*self, 1), comp(*self, 3)],
    {
        let r = Vector::<T, 4>::new([self.x(), self.x(), self.y(), self.w()]);
        assert(r@ =~= seq![comp(*self, 0), comp(*self, 0), comp(*self, 1), comp(*self, 3)]);
        r
    }

    /// The vector `(x, x, z, x)` of this vector's components.
    pub fn xxzx(&self) -> (r: Vector<T, 4>)
        requires
            N >= 1,
        ensures
            r@ == seq![comp(*self, 0), comp(*self, 0), comp(*self, 2), comp(*self, 0)],
    {
        let r = Vector::<T, 4>::new([self.x(), self.x(), self.z(), self.x()]);
        assert(r@ =~= seq![comp(*self, 0), comp(*self, 0), comp(*self, 2), comp(*self, 0)]);
        r
    }

    /// The vector `(x, x, z, y)` of this vector's components.
    pub fn xxzy(&self) -> (r: Vector<T, 4>)
        requires
            N >= 2,
        ensures
            r@ == seq![comp(*self, 0), comp(*self, 0), comp(*self, 2), comp(*self, 1)],
    {
        let r = Vector::<T, 4>::new([self.x(), self.x(), self.z(), self.y()]);
        assert(r@ =~= seq![comp(*self, 0), comp(*self, 0), comp(*self, 2), comp(*self, 1)]);
        r
    }

    /// The vector `(x, x, z, z)` of this vector's components.
    pub fn xxzz(&self) -> (r: Vector<T, 4>)
        requires
            N >= 1,
        ensures
            r@ == seq![comp(*self, 0), comp(*self, 0), comp(*self, 2), comp(*self, 2)],
    {
        let r = Vector::<T, 4>::new([self.x(), self.x(), self.z(), self.z()]);
        assert(r@ =~= seq![comp(*self, 0), comp(*self, 0), comp(*self, 2), comp(*self, 2)]);
        r
    }

    /// The vector `(x, x, z, w)` of this vector's components.
    pub fn xxzw(&self) -> (r: Vector<T, 4>)
        requires
            N >= 1,
        ensures
            r@ == seq![comp(*self, 0), comp(*self, 0), comp(*self, 2), comp(*self, 3)],
    {
        let r = Vector::<T, 4>::new([self.x(), self.x(), self.z(), self.w()]);
        assert(r@ =~= seq![comp(*self, 0), comp(*self, 0), comp(*self, 2), comp(*self, 3)]);
        r
    }

    /// The vector `(x, x, w, x)` of this vector's components.
    pub fn xxwx(&self) -> (r: Vector<T, 4>)
        requires
            N >= 1,
        ensures
            r@ == seq![comp(*self, 0), comp(*self, 0), comp(*self, 3), comp(*self, 0)],
    {
        let r = Vector::<T, 4>::new([self.x(), self.x(), self.w(), self.x()]);
        assert(r@ =~= seq![comp(*self, 0), comp(*self, 0), comp(*self, 3), comp(*self, 0)]);
        r
    }

    /// The vector `(x, x, w, y)` of this vector's components.
    pub fn xxwy(&self) -> (r: Vector<T, 4>)
        requires
            N >= 2,
        ensures
            r@ == seq![comp(*self, 0), comp(*self, 0), comp(*self, 3), comp(*self, 1)],
    {
        let r = Vector::<T, 4>::new([self.x(), self.x(), self.w(), self.y()]);
        assert(r@ =~= seq![comp(*self, 0), comp(*self, 0), comp(*self, 3), comp(*self, 1)]);
        r
    }

    /// The vector `(x, x, w, z)` of this vector's components.
    pub fn xxwz(&self) -> (r: Vector<T, 4>)
        requires
            N >= 1,
        ensures
            r@ == seq![comp(*self, 0), comp(*self, 0), comp(*self, 3), comp(*self, 2)],
    {
        let r = Vector::<T, 4>::new([self.x(), self.x(), self.w(), self.z()]);
        assert(r@ =~= seq![comp(*self, 0), comp(*self, 0), comp(*self, 3), comp(*self, 2)]);
        r
    }

    /// The vector `(x, x, w, w)` of this vector's components.
    pub fn xxww(&self) -> (r: Vector<T, 4>)
        requires
            N >= 1,
        ensures
            r@ == seq![comp(*self, 0), comp(*self, 0), comp(*self, 3), comp(*self, 3)],
    {
        let r = Vector::<T, 4>::new([self.x(), self.x(), self.w(), self.w()]);
        assert(r@ =~= seq![comp(*self, 0), comp(*self, 0), comp(*self, 3), comp(*self, 3)]);
        r
    }

    /// The vector `(x, y, x, x)` of this vector's components.
    pub fn xyxx(&self) -> (r: Vector<T, 4>)
        requires
            N >= 2,
        ensures
            r@ == seq![comp(*self, 0), comp(*self, 1), comp(*self, 0), comp(*self, 0)],
    {
        let r = Vector::<T, 4>::new([self.x(), self.y(), self.x(), self.x()]);
        assert(r@ =~= seq![comp(*self, 0), comp(*self, 1), comp(*self, 0), comp(*self, 0)]);
        r
    }

    /// The vector `(x, y, x, y)` of this vector's components.
    pub fn xyxy(&self) -> (r: Vector<T, 4>)
        requires
            N >= 2,
        ensures
            r@ == seq![comp(*self, 0), comp(*self, 1), comp(*self, 0), comp(*self, 1)],
    {
        let r = Vector::<T, 4>::new([self.x(), self.y(), self.x(), self.y()]);
        assert(r@ =~= seq![comp(*self, 0), comp(*self, 1), comp(*self, 0), comp(*self, 1)]);
        r
    }

    /// The vector `(x, y, x, z)` of this vector's components.
    pub fn xyxz(&self) -> (r: Vector<T, 4>)
        requires
            N >= 2,
        ensures
            r@ == seq![comp(*self, 0), comp(*self, 1), comp(*self, 0), comp(*self, 2)],
    {
        let r = Vector::<T, 4>::new([self.x(), self.y(), self.x(), self.z()]);
        assert(r@ =~= seq![comp(*self, 0), comp(*self, 1), comp(*self, 0), comp(*self, 2)]);
        r
    }

    /// The vector `(x, y, x, w)` of this vector's components.
    pub fn xyxw(&self) -> (r: Vector<T, 4>)
        requires
            N >= 2,
        ensures
            r@ == seq![comp(*self, 0), comp(*self, 1), comp(*self, 0), comp(*self, 3)],
    {
        let r = Vector::<T, 4>::new([self.x(), self.y(), self.x(), self.w()]);
        assert(r@ =~= seq![comp(*self, 0), comp(*self, 1), comp(*self, 0), comp(*self, 3)]);
        r
    }

    /// The vector `(x, y, y, x)` of this vector's components.
    pub fn xyyx(&self) -> (r: Vector<T, 4>)
        requires
            N >= 2,
        ensures
            r@ == seq![comp(*self, 0), comp(*self, 1), comp(*self, 1), comp(*self, 0)],
    {
        let r = Vector::<T, 4>::new([self.x(), self.y(), self.y(), self.x()]);
        assert(r@ =~= seq![comp(*self, 0), comp(*self, 1), comp(*self, 1), comp(*self, 0)]);
        r
    }

    /// The vector `(x, y, y, y)` of this vector's components.
    pub fn xyyy(&self) -> (r: Vector<T, 4>)
        requires
            N >= 2,
        ensures
            r@ == seq![comp(*self, 0), comp(*self, 1), comp(*self, 1), comp(*self, 1)],
    {
        let r = Vector::<T, 4>::new([self.x(), self.y(), self.y(), self.y()]);
        assert(r@ =~= seq![comp(*self, 0), comp(*self, 1), comp(*self, 1), comp(*self, 1)]);
        r
    }

    /// The vector `(x, y, y, z)` of this vector's components.
    pub fn xyyz(&self) -> (r: Vector<T, 4>)
        requires
            N >= 2,
        ensures
            r@ == seq![comp(*self, 0), comp(*self, 1), comp(*self, 1), comp(*self, 2)],
    {
        let r = Vector::<T, 4>::new([self.x(), self.y(), self.y(), self.z()]);
        assert(r@ =~= seq![comp(*self, 0), comp(*self, 1), comp(*self, 1), comp(*self, 2)]);
        r
    }

    /// The vector `(x, y, y, w)` of this vector's components.
    pub fn xyyw(&self) -> (r: Vector<T, 4>)
        requires
            N >= 2,
        ensures
            r@ == seq![comp(*self, 0), comp(*self, 1), comp(*self, 1), comp(*self, 3)],
    {
        let r = Vector::<T, 4>::new([self.x(), self.y(), self.y(), self.w()]);
        assert(r@ =~= seq![comp(*self, 0), comp(*self, 1), comp(*self, 1), comp(*self, 3)]);
        r
    }

    /// The vector `(x, y, z, x)` of this vector's components.
    pub fn xyzx(&self) -> (r: Vector<T, 4>)
        requires
            N >= 2,
        ensures
            r@ == seq![comp(*self, 0), comp(*self, 1), comp(*self, 2), comp(*self, 0)],
    {
        let r = Vector::<T, 4>::new([self.x(), self.y(), self.z(), self.x()]);
        assert(r@ =~= seq![comp(*self, 0), comp(*self, 1), comp(*self, 2), comp(*self, 0)]);
        r
    }

    /// The vector `(x, y, z, y)` of this vector's components.
    pub fn xyzy(&self) -> (r: Vector<T, 4>)
        requires
            N >= 2,
        ensures
            r@ == seq![comp(*self, 0), comp(*self, 1), comp(*self, 2), comp(*self, 1)],
    {
        let r = Vector::<T, 4>::new([self.x(), self.y(), self.z(), self.y()]);
        assert(r@ =~= seq![comp(*self, 0), comp(*self, 1), comp(*self, 2), comp(*self, 1)]);
        r
    }

    /// The vector `(x, y, z, z)` of this vector's components.
    pub fn xyzz(&self) -> (r: Vector<T, 4>)
        requires
            N >= 2,
        ensures
            r@ == seq![comp(*self, 0), comp(*self, 1), comp(*self, 2), comp(*self, 2)],
    {
        let r = Vector::<T, 4>::new([self.x(), self.y(), self.z(), self.z()]);
        assert(r@ =~= seq![comp(*self, 0), comp(*self, 1), comp(*self, 2), comp(*self, 2)]);
        r
    }

    /// The vector `(x, y, z, w)` of this vector's components.
    pub fn xyzw(&self) -> (r: Vector<T, 4>)
        requires
            N >= 2,
        ensures
            r@ == seq![comp(*self, 0), comp(*self, 1), comp(*self, 2), comp(*self, 3)],
    {
        let r = Vector::<T, 4>::new([self.x(), self.y(), self.z(), self.w()]);
        assert(r@ =~= seq![comp(*self, 0), comp(*self, 1), comp(*self, 2), comp(*self, 3)]);
        r
    }

    /// The vector `(x, y, w, x)` of this vector's components.
    pub fn xywx(&self) -> (r: Vector<T, 4>)
        requires
            N >= 2,
        ensures
            r@ == seq![comp(*self, 0), comp(*self, 1), comp(*self, 3), comp(*self, 0)],
    {
        let r = Vector::<T, 4>::new([self.x(), self.y(), self.w(), self.x()]);
        assert(r@ =~= seq![comp(*self, 0), comp(*self, 1), comp(*self, 3), comp(*self, 0)]);
        r
    }

    /// The vector `(x, y, w, y)` of this vector's components.
    pub fn xywy(&self) -> (r: Vector<T, 4>)
        requires
            N >= 2,
        ensures
            r@ == seq![comp(*self, 0), comp(*self, 1), comp(*self, 3), comp(*self, 1)],
    {
        let r = Vector::<T, 4>::new([self.x(), self.y(), self.w(), self.y()]);
        assert(r@ =~= seq![comp(*self, 0), comp(*self, 1), comp(*self, 3), comp(*self, 1)]);
        r
    }

    /// The vector `(x, y, w, z)` of this vector's components.
    pub fn xywz(&self) -> (r: Vector<T, 4>)
        requires
            N >= 2,
        ensures
            r@ == seq![comp(*self, 0), comp(*self, 1), comp(*self, 3), comp(*self, 2)],
    {
        let r = Vector::<T, 4>::new([self.x(), self.y(), self.w(), self.z()]);
        assert(r@ =~= seq![comp(*self, 0), comp(*self, 1), comp(*self, 3), comp(*self, 2)]);
        r
    }

    /// The vector `(x, y, w, w)` of this vector's components.
    pub fn xyww(&self) -> (r: Vector<T, 4>)
        requires
            N >= 2,
        ensures
            r@ == seq![comp(*self, 0), comp(*self, 1), comp(*self, 3), comp(*self, 3)],
    {
        let r = Vector::<T, 4>::new([self.x(), self.y(), self.w(), self.w()]);
        assert(r@ =~= seq![comp(*self, 0), comp(*self, 1), comp(*self, 3), comp(*self, 3)]);
        r
    }

    /// The vector `(x, z, x, x)` of this vector's components.
    pub fn xzxx(&self) -> (r: Vector<T, 4>)
        requires
            N >= 1,
        ensures
            r@ == seq![comp(*self, 0), comp(*self, 2), comp(*self, 0), comp(*self, 0)],
    {
        let r = Vector::<T, 4>::new([self.x(), self.z(), self.x(), self.x()]);
        assert(r@ =~= seq![comp(*self, 0), comp(*self, 2), comp(*self, 0), comp(*self, 0)]);
        r
    }

    /// The vector `(x, z, x, y)` of this vector's components.
    pub fn xzxy(&self) -> (r: Vector<T, 4>)
        requires
            N >= 2,
        ensures
            r@ == seq![comp(*self, 0), comp(*self, 2), comp(*self, 0), comp(*self, 1)],
    {
        let r = Vector::<T, 4>::new([self.x(), self.z(), self.x(), self.y()]);
        assert(r@ =~= seq![comp(*self, 0), comp(*self, 2), comp(*self, 0), comp(*self, 1)]);
        r
    }

    /// The vector `(x, z, x, z)` of this vector's components.
    pub fn xzxz(&self) -> (r: Vector<T, 4>)
        requires
            N >= 1,
        ensures
            r@ == seq![comp(*self, 0), comp(*self, 2), comp(*self, 0), comp(*self, 2)],
    {
        let r = Vector::<T, 4>::new([self.x(), self.z(), self.x(), self.z()]);
        assert(r@ =~= seq![comp(*self, 0), comp(*self, 2), comp(*self, 0), comp(*self, 2)]);
        r
    }

    /// The vector `(x, z, x, w)` of this vector's components.
    pub fn xzxw(&self) -> (r: Vector<T, 4>)
        requires
            N >= 1,
        ensures
            r@ == seq![comp(*self, 0), comp(*self, 2), comp(*self, 0), comp(*self, 3)],
    {
        let r = Vector::<T, 4>::new([self.x(), self.z(), self.x(), self.w()]);
        assert(r@ =~= seq![comp(*self, 0), comp(*self, 2), comp(*self, 0), comp(*self, 3)]);
        r
    }

    /// The vector `(x, z, y, x)` of this vector's components.
    pub fn xzyx(&self) -> (r: Vector<T, 4>)
        requires
            N >= 2,
        ensures
            r@ == seq![comp(*self, 0), comp(*self, 2), comp(*self, 1), comp(*self, 0)],
    {
        let r = Vector::<T, 4>::new([self.x(), self.z(), self.y(), self.x()]);
        assert(r@ =~= seq![comp(*self, 0), comp(*self, 2), comp(*self, 1), comp(*self, 0)]);
        r
    }

    /// The vector `(x, z, y, y)` of this vector's components.
    pub fn xzyy(&self) -> (r: Vector<T, 4>)
        requires
            N >= 2,
        ensures
            r@ == seq![comp(*self, 0), comp(*self, 2), comp(*self, 1), comp(*self, 1)],
    {
        let r = Vector::<T, 4>::new([self.x(), self.z(), self.y(), self.y()]);
        assert(r@ =~= seq![comp(*self, 0), comp(*self, 2), comp(*self, 1), comp(*self, 1)]);
        r
    }

    /// The vector `(x, z, y, z)` of this vector's components.
    pub fn xzyz(&self) -> (r: Vector<T, 4>)
        requires
            N >= 2,
        ensures
            r@ == seq![comp(*self, 0), comp(*self, 2), comp(*self, 1), comp(*self, 2)],
    {
        let r = Vector::<T, 4>::new([self.x(), self.z(), self.y(), self.z()]);
        assert(r@ =~= seq![comp(*self, 0), comp(*self, 2), comp(*self, 1), comp(*self, 2)]);
        r
    }

    /// The vector `(x, z, y, w)` of this vector's components.
    pub fn xzyw(&self) -> (r: Vector<T, 4>)
        requires
            N >= 2,
        ensures
            r@ == seq![comp(*self, 0), comp(*self, 2), comp(*self, 1), comp(*self, 3)],
    {
        let r = Vector::<T, 4>::new([self.x(), self.z(), self.y(), self.w()]);
        assert(r@ =~= seq![comp(*self, 0), comp(*self, 2), comp(*self, 1), comp(*self, 3)]);
        r
    }

    /// The vector `(x, z, z, x)` of this vector's components.
    pub fn xzzx(&self) -> (r: Vector<T, 4>)
        requires
            N >= 1,
        ensures
            r@ == seq![comp(*self, 0), comp(*self, 2), comp(*self, 2), comp(*self, 0)],
    {
        let r = Vector::<T, 4>::new([self.x(), self.z(), self.z(), self.x()]);
        assert(r@ =~= seq![comp(*self, 0), comp(*self, 2), comp(*self, 2), comp(*self, 0)]);
        r
    }

    /// The vector `(x, z, z, y)` of this vector's components.
    pub fn xzzy(&self) -> (r: Vector<T, 4>)
        requires
            N >= 2,
        ensures
            r@ == seq![comp(*self, 0), comp(*self, 2), comp(*self, 2), comp(*self, 1)],
    {
        let r = Vector::<T, 4>::new([self.x(), self.z(), self.z(), self.y()]);
        assert(r@ =~= seq![comp(*self, 0), comp(*self, 2), comp(*self, 2), comp(*self, 1)]);
        r
    }

    /// The vector `(x, z, z, z)` of this vector's components.
    pub fn xzzz(&self) -> (r: Vector<T, 4>)
        requires
            N >= 1,
        ensures
            r@ == seq![comp(*self, 0), comp(*self, 2), comp(*self, 2), comp(*self, 2)],
    {
        let r = Vector::<T, 4>::new([self.x(), self.z(), self.z(), self.z()]);
        assert(r@ =~= seq![comp(*self, 0), comp(*self, 2), comp(*self, 2), comp(*self, 2)]);
        r
    }

    /// The vector `(x, z, z, w)` of this vector's components.
    pub fn xzzw(&self) -> (r: Vector<T, 4>)
        requires
            N >= 1,
        ensures
            r@ == seq![comp(*self, 0), comp(*self, 2), comp(*self, 2), comp(*self, 3)],
    {
        let r = Vector::<T, 4>::new([self.x(), self.z(), self.z(), self.w()]);
        assert(r@ =~= seq![comp(*self, 0), comp(*self, 2), comp(*self, 2), comp(*self, 3)]);
        r
    }

    /// The vector `(x, z, w, x)` of this vector's components.
    pub fn xzwx(&self) -> (r: Vector<T, 4>)
        requires
            N >= 1,
        ensures
            r@ == seq![comp(*self, 0), comp(*self, 2), comp(*self, 3), comp(*self, 0)],
    {
        let r = Vector::<T, 4>::new([self.x(), self.z(), self.w(), self.x()]);
        assert(r@ =~= seq![comp(*self, 0), comp(*self, 2), comp(*self, 3), comp(*self, 0)]);
        r
    }

    /// The vector `(x, z, w, y)` of this vector's components.
    pub fn xzwy(&self) -> (r: Vector<T, 4>)
        requires
            N >= 2,
        ensures
            r@ == seq![comp(*self, 0), comp(*self, 2), comp(*self, 3), comp(*self, 1)],
    {
        let r = Vector::<T, 4>::new([self.x(), self.z(), self.w(), self.y()]);
        assert(r@ =~= seq![comp(*self, 0), comp(*self, 2), comp(*self, 3), comp(*self, 1)]);
        r
    }

    /// The vector `(x, z, w, z)` of this vector's components.
    pub fn xzwz(&self) -> (r: Vector<T, 4>)
        requires
            N >= 1,
        ensures
            r@ == seq![comp(*self, 0), comp(*self, 2), comp(*self, 3), comp(*self, 2)],
    {
        let r = Vector::<T, 4>::new([self.x(), self.z(), self.w(), self.z()]);
        assert(r@ =~= seq![comp(*self, 0), comp(*self, 2), comp(*self, 3), comp(*self, 2)]);
        r
    }

    /// The vector `(x, z, w, w)` of this vector's components.
    pub fn xzww(&self) -> (r: Vector<T, 4>)
        requires
            N >= 1,
        ensures
            r@ == seq![comp(*self, 0), comp(*self, 2), comp(*self, 3), comp(*self, 3)],
    {
        let r = Vector::<T, 4>::new([self.x(), self.z(), self.w(), self.w()]);
        assert(r@ =~= seq![comp(*self, 0), comp(*self, 2), comp(*self, 3), comp(*self, 3)]);
        r
    }

    /// The vector `(x, w, x, x)` of this vector's components.
    pub fn xwxx(&self) -> (r: Vector<T, 4>)
        requires
            N >= 1,
        ensures
            r@ == seq![comp(*self, 0), comp(*self, 3), comp(*self, 0), comp(*self, 0)],
    {
        let r = Vector::<T, 4>::new([self.x(), self.w(), self.x(), self.x()]);
        assert(r@ =~= seq![comp(*self, 0), comp(*self, 3), comp(*self, 0), comp(*self, 0)]);
        r
    }

    /// The vector `(x, w, x, y)` of this vector's components.
    pub fn xwxy(&self) -> (r: Vector<T, 4>)
        requires
            N >= 2,
        ensures
            r@ == seq![comp(*self, 0), comp(*self, 3), comp(*self, 0), comp(*self, 1)],
    {
        let r = Vector::<T, 4>::new([self.x(), self.w(), self.x(), self.y()]);
        assert(r@ =~= seq![comp(*self, 0), comp(*self, 3), comp(*self, 0), comp(*self, 1)]);
        r
    }

    /// The vector `(x, w, x, z)` of this vector's components.
    pub fn xwxz(&self) -> (r: Vector<T, 4>)
        requires
            N >= 1,
        ensures
            r@ == seq![comp(*self, 0), comp(*self, 3), comp(*self, 0), comp(*self, 2)],
    {
        let r = Vector::<T, 4>::new([self.x(), self.w(), self.x(), self.z()]);
        assert(r@ =~= seq![comp(*self, 0), comp(*self, 3), comp(*self, 0), comp(*self, 2)]);
        r
    }

    /// The vector `(x, w, x, w)` of this vector's components.
    pub fn xwxw(&self) -> (r: Vector<T, 4>)
        requires
            N >= 1,
        ensures
            r@ == seq![comp(*self, 0), comp(*self, 3), comp(*self, 0), comp(*self, 3)],
    {
        let r = Vector::<T, 4>::new([self.x(), self.w(), self.x(), self.w()]);
        assert(r@ =~= seq![comp(*self, 0), comp(*self, 3), comp(*self, 0), comp(*self, 3)]);
        r
    }

    /// The vector `(x, w, y, x)` of this vector's components.
    pub fn xwyx(&self) -> (r: Vector<T, 4>)
        requires
            N >= 2,
        ensures
            r@ == seq![comp(*self, 0), comp(*self, 3), comp(*self, 1), comp(*self, 0)],
    {
        let r = Vector::<T, 4>::new([self.x(), self.w(), self.y(), self.x()]);
        assert(r@ =~= seq![comp(*self, 0), comp(*self, 3), comp(*self, 1), comp(*self, 0)]);
        r
    }

    /// The vector `(x, w, y, y)` of this vector's components.
    pub fn xwyy(&self) -> (r: Vector<T, 4>)
        requires
            N >= 2,
        ensures
            r@ == seq![comp(*self, 0), comp(*self, 3), comp(*self, 1), comp(*self, 1)],
    {
        let r = Vector::<T, 4>::new([self.x(), self.w(), self.y(), self.y()]);
        assert(r@ =~= seq![comp(*self, 0), comp(*self, 3), comp(*self, 1), comp(*self, 1)]);
        r
    }

    /// The vector `(x, w, y, z)` of this vector's components.
    pub fn xwyz(&self) -> (r: Vector<T, 4>)
        requires
            N >= 2,
        ensures
            r@ == seq![comp(*self, 0), comp(*self, 3), comp(*self, 1), comp(*self, 2)],
    {
        let r = Vector::<T, 4>::new([self.x(), self.w(), self.y(), self.z()]);
        assert(r@ =~= seq![comp(*self, 0), comp(*self, 3), comp(*self, 1), comp(*self, 2)]);
        r
    }

    /// The vector `(x, w, y, w)` of this vector's components.
    pub fn xwyw(&self) -> (r: Vector<T, 4>)
        requires
            N >= 2,
        ensures
            r@ == seq![comp(*self, 0), comp(*self, 3), comp(*self, 1), comp(*self, 3)],
    {
        let r = Vector::<T, 4>::new([self.x(), self.w(), self.y(), self.w()]);
        assert(r@ =~= seq![comp(*self, 0), comp(*self, 3), comp(*self, 1), comp(*self, 3)]);
        r
    }

    /// The vector `(x, w, z, x)` of this vector's components.
    pub fn xwzx(&self) -> (r: Vector<T, 4>)
        requires
            N >= 1,
        ensures
            r@ == seq![comp(*self, 0), comp(*self, 3), comp(*self, 2), comp(*self, 0)],
    {
        let r = Vector::<T, 4>::new([self.x(), self.w(), self.z(), self.x()]);
        assert(r@ =~= seq![comp(*self, 0), comp(*self, 3), comp(*self, 2), comp(*self, 0)]);
        r
    }

    /// The vector `(x, w, z, y)` of this vector's components.
    pub fn xwzy(&self) -> (r: Vector<T, 4>)
        requires
            N >= 2,
        ensures
            r@ == seq![comp(*self, 0), comp(*self, 3), comp(*self, 2), comp(*self, 1)],
    {
        let r = Vector::<T, 4>::new([self.x(), self.w(), self.z(), self.y()]);
        assert(r@ =~= seq![comp(*self, 0), comp(*self, 3), comp(*self, 2), comp(*self, 1)]);
        r
    }

    /// The vector `(x, w, z, z)` of this vector's components.
    pub fn xwzz(&self) -> (r: Vector<T, 4>)
        requires
            N >= 1,
        ensures
            r@ == seq![comp(*self, 0), comp(*self, 3), comp(*self, 2), comp(*self, 2)],
    {
        let r = Vector::<T, 4>::new([self.x(), self.w(), self.z(), self.z()]);
        assert(r@ =~= seq![comp(*self, 0), comp(*self, 3), comp(*self, 2), comp(*self, 2)]);
        r
    }

    /// The vector `(x, w, z, w)` of this vector's components.
    pub fn xwzw(&self) -> (r: Vector<T, 4>)
        requires
            N >= 1,
        ensures
            r@ == seq![comp(*self, 0), comp(*self, 3), comp(*self, 2), comp(*self, 3)],
    {
        let r = Vector::<T, 4>::new([self.x(), self.w(), self.z(), self.w()]);
        assert(r@ =~= seq![comp(*self, 0), comp(*self, 3), comp(*self, 2), comp(*self, 3)]);
        r
    }

    /// The vector `(x, w, w, x)` of this vector's components.
    pub fn xwwx(&self) -> (r: Vector<T, 4>)
        requires
            N >= 1,
        ensures
            r@ == seq![comp(*self, 0), comp(*self, 3), comp(*self, 3), comp(*self, 0)],
    {
        let r = Vector::<T, 4>::new([self.x(), self.w(), self.w(), self.x()]);
        assert(r@ =~= seq![comp(*self, 0), comp(*self, 3), comp(*self, 3), comp(*self, 0)]);
        r
    }

    /// The vector `(x, w, w, y)` of this vector's components.
    pub fn xwwy(&self) -> (r: Vector<T, 4>)
        requires
            N >= 2,
        ensures
            r@ == seq![comp(*self, 0), comp(*self, 3), comp(*self, 3), comp(*self, 1)],
    {
        let r = Vector::<T, 4>::new([self.x(), self.w(), self.w(), self.y()]);
        assert(r@ =~= seq![comp(*self, 0), comp(*self, 3), comp(*self, 3), comp(*self, 1)]);
        r
    }

    /// The vector `(x, w, w, z)` of this vector's components.
    pub fn xwwz(&self) -> (r: Vector<T, 4>)
        requires
            N >= 1,
        ensures
            r@ == seq![comp(*self, 0), comp(*self, 3), comp(*self, 3), comp(*self, 2)],
    {
        let r = Vector::<T, 4>::new([self.x(), self.w(), self.w(), self.z()]);
        assert(r@ =~= seq![comp(*self, 0), comp(*self, 3), comp(*self, 3), comp(*self, 2)]);
        r
    }

    /// The vector `(x, w, w, w)` of this vector's components.
    pub fn xwww(&self) -> (r: Vector<T, 4>)
        requires
            N >= 1,
        ensures
            r@ == seq![comp(*self, 0), comp(*self, 3), comp(*self, 3), comp(*self, 3)],
    {
        let r = Vector::<T, 4>::new([self.x(), self.w(), self.w(), self.w()]);
        assert(r@ =~= seq![comp(*self, 0), comp(*self, 3), comp(*self, 3), comp(*self, 3)]);
        r
    }

    /// The vector `(y, x, x, x)` of this vector's components.
    pub fn yxxx(&self) -> (r: Vector<T, 4>)
        requires
            N >= 2,
        ensures
            r@ == seq![comp(*self, 1), comp(*self, 0), comp(*self, 0), comp(*self, 0)],
    {
        let r = Vector::<T, 4>::new([self.y(), self.x(), self.x(), self.x()]);
        assert(r@ =~= seq![comp(*self, 1), comp(*self, 0), comp(*self, 0), comp(*self, 0)]);
        r
    }

    /// The vector `(y, x, x, y)` of this vector's components.
    pub fn yxxy(&self) -> (r: Vector<T, 4>)
        requires
            N >= 2,
        ensures
            r@ == seq![comp(*self, 1), comp(*self, 0), comp(*self, 0), comp(*self, 1)],
    {
        let r = Vector::<T, 4>::new([self.y(), self.x(), self.x(), self.y()]);
        assert(r@ =~= seq![comp(*self, 1), comp(*self, 0), comp(*self, 0), comp(*self, 1)]);
        r
    }

    /// The vector `(y, x, x, z)` of this vector's components.
    pub fn yxxz(&self) -> (r: Vector<T, 4>)
        requires
            N >= 2,
        ensures
            r@ == seq![comp(*self, 1), comp(*self, 0), comp(*self, 0), comp(*self, 2)],
    {
        let r = Vector::<T, 4>::new([self.y(), self.x(), self.x(), self.z()]);
        assert(r@ =~= seq![comp(*self, 1), comp(*self, 0), comp(*self, 0), comp(*self, 2)]);
        r
    }

    /// The vector `(y, x, x, w)` of this vector's components.
    pub fn yxxw(&self) -> (r: Vector<T, 4>)
        requires
            N >= 2,
        ensures
            r@ == seq![comp(*self, 1), comp(*self, 0), comp(*self, 0), comp(*self, 3)],
    {
        let r = Vector::<T, 4>::new([self.y(), self.x(), self.x(), self.w()]);
        assert(r@ =~= seq![comp(*self, 1), comp(*self, 0), comp(*self, 0), comp(*self, 3)]);
        r
    }

    /// The vector `(y, x, y, x)` of this vector's components.
    pub fn yxyx(&self) -> (r: Vector<T, 4>)
        requires
            N >= 2,
        ensures
            r@ == seq![comp(*self, 1), comp(*self, 0), comp(*self, 1), comp(*self, 0)],
    {
        let r = Vector::<T, 4>::new([self.y(), self.x(), self.y(), self.x()]);
        assert(r@ =~= seq![comp(*self, 1), comp(*self, 0), comp(*self, 1), comp(*self, 0)]);
        r
    }

    /// The vector `(y, x, y, y)` of this vector's components.
    pub fn yxyy(&self) -> (r: Vector<T, 4>)
        requires
            N >= 2,
        ensures
            r@ == seq![comp(*self, 1), comp(*self, 0), comp(*self, 1), comp(*self, 1)],
    {
        let r = Vector::<T, 4>::new([self.y(), self.x(), self.y(), self.y()]);
        assert(r@ =~= seq![comp(*self, 1), comp(*self, 0), comp(*self, 1), comp(*self, 1)]);
        r
    }

    /// The vector `(y, x, y, z)` of this vector's components.
    pub fn yxyz(&self) -> (r: Vector<T, 4>)
        requires
            N >= 2,
        ensures
            r@ == seq![comp(*self, 1), comp(*self, 0), comp(*self, 1), comp(*self, 2)],
    {
        let r = Vector::<T, 4>::new([self.y(), self.x(), self.y(), self.z()]);
        assert(r@ =~= seq![comp(*self, 1), comp(*self, 0), comp(*self, 1), comp(*self, 2)]);
        r
    }

    /// The vector `(y, x, y, w)` of this vector's components.
    pub fn yxyw(&self) -> (r: Vector<T, 4>)
        requires
            N >= 2,
        ensures
            r@ == seq![comp(*self, 1), comp(*self, 0), comp(*self, 1), comp(*self, 3)],
    {
        let r = Vector::<T, 4>::new([self.y(), self.x(), self.y(), self.w()]);
        assert(r@ =~= seq![comp(*self, 1), comp(*self, 0), comp(*self, 1), comp(*self, 3)]);
        r
    }

    /// The vector `(y, x, z, x)` of this vector's components.
    pub fn yxzx(&self) -> (r: Vector<T, 4>)
        requires
            N >= 2,
        ensures
            r@ == seq![comp(*self, 1), comp(*self, 0), comp(*self, 2), comp(*self, 0)],
    {
        let r = Vector::<T, 4>::new([self.y(), self.x(), self.z(), self.x()]);
        assert(r@ =~= seq![comp(*self, 1), comp(*self, 0), comp(*self, 2), comp(*self, 0)]);
        r
    }

    /// The vector `(y, x, z, y)` of this vector's components.
    pub fn yxzy(&self) -> (r: Vector<T, 4>)
        requires
            N >= 2,
        ensures
            r@ == seq![comp(*self, 1), comp(*self, 0), comp(*self, 2), comp(*self, 1)],
    {
        let r = Vector::<T, 4>::new([self.y(), self.x(), self.z(), self.y()]);
        assert(r@ =~= seq![comp(*self, 1), comp(*self, 0), comp(*self, 2), comp(*self, 1)]);
        r
    }

    /// The vector `(y, x, z, z)` of this vector's components.
    pub fn yxzz(&self) -> (r: Vector<T, 4>)
        requires
            N >= 2,
        ensures
            r@ == seq![comp(*self, 1), comp(*self, 0), comp(*self, 2), comp(*self, 2)],
    {
        let r = Vector::<T, 4>::new([self.y(), self.x(), self.z(), self.z()]);
        assert(r@ =~= seq![comp(*self, 1), comp(*self, 0), comp(*self, 2), comp(*self, 2)]);
        r
    }

    /// The vector `(y, x, z, w)` of this vector's components.
    pub fn yxzw(&self) -> (r: Vector<T, 4>)
        requires
            N >= 2,
        ensures
            r@ == seq![comp(*self, 1), comp(*self, 0), comp(*self, 2), comp(*self, 3)],
    {
        let r = Vector::<T, 4>::new([self.y(), self.x(), self.z(), self.w()]);
        assert(r@ =~= seq![comp(*self, 1), comp(*self, 0), comp(*self, 2), comp(*self, 3)]);
        r
    }

    /// The vector `(y, x, w, x)` of this vector's components.
    pub fn yxwx(&self) -> (r: Vector<T, 4>)
        requires
            N >= 2,
        ensures
            r@ == seq![comp(*self, 1), comp(*self, 0), comp(*self, 3), comp(*self, 0)],
    {
        let r = Vector::<T, 4>::new([self.y(), self.x(), self.w(), self.x()]);
        assert(r@ =~= seq![comp(*self, 1), comp(*self, 0), comp(*self, 3), comp(*self, 0)]);
        r
    }

    /// The vector `(y, x, w, y)` of this vector's components.
    pub fn yxwy(&self) -> (r: Vector<T, 4>)
        requires
            N >= 2,
        ensures
            r@ == seq![comp(*self, 1), comp(*self, 0), comp(*self, 3), comp(*self, 1)],
    {
        let r = Vector::<T, 4>::new([self.y(), self.x(), self.w(), self.y()]);
        assert(r@ =~= seq![comp(*self, 1), comp(*self, 0), comp(*self, 3), comp(*self, 1)]);
        r
    }

    /// The vector `(y, x, w, z)` of this vector's components.
    pub fn yxwz(&self) -> (r: Vector<T, 4>)
        requires
            N >= 2,
        ensures
            r@ == seq![comp(*self, 1), comp(*self, 0), comp(*self, 3), comp(*self, 2)],
    {
        let r = Vector::<T, 4>::new([self.y(), self.x(), self.w(), self.z()]);
        assert(r@ =~= seq![comp(*self, 1), comp(*self, 0), comp(*self, 3), comp(*self, 2)]);
        r
    }

    /// The vector `(y, x, w, w)` of this vector's components.
    pub fn yxww(&self) -> (r: Vector<T, 4>)
        requires
            N >= 2,
        ensures
            r@ == seq![comp(*self, 1), comp(*self, 0), comp(*self, 3), comp(*self, 3)],
    {
        let r = Vector::<T, 4>::new([self.y(), self.x(), self.w(), self.w()]);
        assert(r@ =~= seq![comp(*self, 1), comp(*self, 0), comp(*self, 3), comp(*self, 3)]);
        r
    }

    /// The vector `(y, y, x, x)` of this vector's components.
    pub fn yyxx(&self) -> (r: Vector<T, 4>)
        requires
            N >= 2,
        ensures
            r@ == seq![comp(*self, 1), comp(*self, 1), comp(*self, 0), comp(*self, 0)],
    {
        let r = Vector::<T, 4>::new([self.y(), self.y(), self.x(), self.x()]);
        assert(r@ =~= seq![comp(*self, 1), comp(*self, 1), comp(*self, 0), comp(*self, 0)]);
        r
    }

    /// The vector `(y, y, x, y)` of this vector's components.
    pub fn yyxy(&self) -> (r: Vector<T, 4>)
        requires
            N >= 2,
        ensures
            r@ == seq![comp(*self, 1), comp(*self, 1), comp(*self, 0), comp(*self, 1)],
    {
        let r = Vector::<T, 4>::new([self.y(), self.y(), self.x(), self.y()]);
        assert(r@ =~= seq![comp(*self, 1), comp(*self, 1), comp(*self, 0), comp(*self, 1)]);
        r
    }

    /// The vector `(y, y, x, z)` of this vector's components.
    pub fn yyxz(&self) -> (r: Vector<T, 4>)
        requires
            N >= 2,
        ensures
            r@ == seq![comp(*self, 1), comp(*self, 1), comp(*self, 0), comp(*self, 2)],
    {
        let r = Vector::<T, 4>::new([self.y(), self.y(), self.x(), self.z()]);
        assert(r@ =~= seq![comp(*self, 1), comp(*self, 1), comp(*self, 0), comp(*self, 2)]);
        r
    }

    /// The vector `(y, y, x, w)` of this vector's components.
    pub fn yyxw(&self) -> (r: Vector<T, 4>)
        requires
            N >= 2,
        ensures
            r@ == seq![comp(*self, 1), comp(*self, 1), comp(*self, 0), comp(*self, 3)],
    {
        let r = Vector::<T, 4>::new([self.y(), self.y(), self.x(), self.w()]);
        assert(r@ =~= seq![comp(*self, 1), comp(*self, 1), comp(*self, 0), comp(*self, 3)]);
        r
    }

    /// The vector `(y, y, y, x)` of this vector's components.
    pub fn yyyx(&self) -> (r: Vector<T, 4>)
        requires
            N >= 2,
        ensures
            r@ == seq![comp(*self, 1), comp(*self, 1), comp(*self, 1), comp(*self, 0)],
    {
        let r = Vector::<T, 4>::new([self.y(), self.y(), self.y(), self.x()]);
        assert(r@ =~= seq![comp(*self, 1), comp(*self, 1), comp(*self, 1), comp(*self, 0)]);
        r
    }

    /// The vector `(y, y, y, y)` of this vector's components.
    pub fn yyyy(&self) -> (r: Vector<T, 4>)
        requires
            N >= 2,
        ensures
            r@ == seq![comp(*self, 1), comp(*self, 1), comp(*self, 1), comp(*self, 1)],
    {
        let r = Vector::<T, 4>::new([self.y(), self.y(), self.y(), self.y()]);
        assert(r@ =~= seq![comp(*self, 1), comp(*self, 1), comp(*self, 1), comp(*self, 1)]);
        r
    }

    /// The vector `(y, y, y, z)` of this vector's components.
    pub fn yyyz(&self) -> (r: Vector<T, 4>)
        requires
            N >= 2,
        ensures
            r@ == seq![comp(*self, 1), comp(*self, 1), comp(*self, 1), comp(*self, 2)],
    {
        let r = Vector::<T, 4>::new([self.y(), self.y(), self.y(), self.z()]);
        assert(r@ =~= seq![comp(*self, 1), comp(*self, 1), comp(*self, 1), comp(*self, 2)]);
        r
    }

    /// The vector `(y, y, y, w)` of this vector's components.
    pub fn yyyw(&self) -> (r: Vector<T, 4>)
        requires
            N >= 2,
        ensures
            r@ == seq![comp(*self, 1), comp(*self, 1), comp(*self, 1), comp(*self, 3)],
    {
        let r = Vector::<T, 4>::new([self.y(), self.y(), self.y(), self.w()]);
        assert(r@ =~= seq![comp(*self, 1), comp(*self, 1), comp(*self, 1), comp(*self, 3)]);
        r
    }

    /// The vector `(y, y, z, x)` of this vector's components.
    pub fn yyzx(&self) -> (r: Vector<T, 4>)
        requires
            N >= 2,
        ensures
            r@ == seq![comp(*self, 1), comp(*self, 1), comp(*self, 2), comp(*self, 0)],
    {
        let r = Vector::<T, 4>::new([self.y(), self.y(), self.z(), self.x()]);
        assert(r@ =~= seq![comp(*self, 1), comp(*self, 1), comp(*self, 2), comp(*self, 0)]);
        r
    }

    /// The vector `(y, y, z, y)` of this vector's components.
    pub fn yyzy(&self) -> (r: Vector<T, 4>)
        requires
            N >= 2,
        ensures
            r@ == seq![comp(*self, 1), comp(*self, 1), comp(*self, 2), comp(*self, 1)],
    {
        let r = Vector::<T, 4>::new([self.y(), self.y(), self.z(), self.y()]);
        assert(r@ =~= seq![comp(*self, 1), comp(*self, 1), comp(*self, 2), comp(*self, 1)]);
        r
    }

    /// The vector `(y, y, z, z)` of this vector's components.
    pub fn yyzz(&self) -> (r: Vector<T, 4>)
        requires
            N >= 2,
        ensures
            r@ == seq![comp(*self, 1), comp(*self, 1), comp(*self, 2), comp(*self, 2)],
    {
        let r = Vector::<T, 4>::new([self.y(), self.y(), self.z(), self.z()]);
        assert(r@ =~= seq![comp(*self, 1), comp(*self, 1), comp(*self, 2), comp(*self, 2)]);
        r
    }

    /// The vector `(y, y, z, w)` of this vector's components.
    pub fn yyzw(&self) -> (r: Vector<T, 4>)
        requires
            N >= 2,
        ensures
            r@ == seq![comp(*self, 1), comp(*self, 1), comp(*self, 2), comp(*self, 3)],
    {
        let r = Vector::<T, 4>::new([self.y(), self.y(), self.z(), self.w()]);
        assert(r@ =~= seq![comp(*self, 1), comp(*self, 1), comp(*self, 2), comp(*self, 3)]);
        r
    }

    /// The vector `(y, y, w, x)` of this vector's components.
    pub fn yywx(&self) -> (r: Vector<T, 4>)
        requires
            N >= 2,
        ensures
            r@ == seq![comp(*self, 1), comp(*self, 1), comp(*self, 3), comp(*self, 0)],
    {
        let r = Vector::<T, 4>::new([self.y(), self.y(), self.w(), self.x()]);
        assert(r@ =~= seq![comp(*self, 1), comp(*self, 1), comp(*self, 3), comp(*self, 0)]);
        r
    }

    /// The vector `(y, y, w, y)` of this vector's components.
    pub fn yywy(&self) -> (r: Vector<T, 4>)
        requires
            N >= 2,
        ensures
            r@ == seq![comp(*self, 1), comp(*self, 1), comp(*self, 3), comp(*self, 1)],
    {
        let r = Vector::<T, 4>::new([self.y(), self.y(), self.w(), self.y()]);
        assert(r@ =~= seq![comp(*self, 1), comp(*self, 1), comp(*self, 3), comp(*self, 1)]);
        r
    }

    /// The vector `(y, y, w, z)` of this vector's components.
    pub fn yywz(&self) -> (r: Vector<T, 4>)
        requires
            N >= 2,
        ensures
            r@ == seq![comp(*self, 1), comp(*self, 1), comp(*self, 3), comp(*self, 2)],
    {
        let r = Vector::<T, 4>::new([self.y(), self.y(), self.w(), self.z()]);
        assert(r@ =~= seq![comp(*self, 1), comp(*self, 1), comp(*self, 3), comp(*self, 2)]);
        r
    }

    /// The vector `(y, y, w, w)` of this vector's components.
    pub fn yyww(&self) -> (r: Vector<T, 4>)
        requires
            N >= 2,
        ensures
            r@ == seq![comp(*self, 1), comp(*self, 1), comp(*self, 3), comp(*self, 3)],
    {
        let r = Vector::<T, 4>::new([self.y(), self.y(), self.w(), self.w()]);
        assert(r@ =~= seq![comp(*self, 1), comp(*self, 1), comp(*self, 3), comp(*self, 3)]);
        r
    }

    /// The vector `(y, z, x, x)` of this vector's components.
    pub fn yzxx(&self) -> (r: Vector<T, 4>)
        requires
            N >= 2,
        ensures
            r@ == seq![comp(*self, 1), comp(*self, 2), comp(*self, 0), comp(*self, 0)],
    {
        let r = Vector::<T, 4>::new([self.y(), self.z(), self.x(), self.x()]);
        assert(r@ =~= seq![comp(*self, 1), comp(*self, 2), comp(*self, 0), comp(*self, 0)]);
        r
    }

    /// The vector `(y, z, x, y)` of this vector's components.
    pub fn yzxy(&self) -> (r: Vector<T, 4>)
        requires
            N >= 2,
        ensures
            r@ == seq![comp(*self, 1), comp(*self, 2), comp(*self, 0), comp(*self, 1)],
    {
        let r = Vector::<T, 4>::new([self.y(), self.z(), self.x(), self.y()]);
        assert(r@ =~= seq![comp(*self, 1), comp(*self, 2), comp(*self, 0), comp(*self, 1)]);
        r
    }

    /// The vector `(y, z, x, z)` of this vector's components.
    pub fn yzxz(&self) -> (r: Vector<T, 4>)
        requires
            N >= 2,
        ensures
            r@ == seq![comp(*self, 1), comp(*self, 2), comp(*self, 0), comp(*self, 2)],
    {
        let r = Vector::<T, 4>::new([self.y(), self.z(), self.x(), self.z()]);
        assert(r@ =~= seq![comp(*self, 1), comp(*self, 2), comp(*self, 0), comp(*self, 2)]);
        r
    }

    /// The vector `(y, z, x, w)` of this vector's components.
    pub fn yzxw(&self) -> (r: Vector<T, 4>)
        requires
            N >= 2,
        ensures
            r@ == seq![comp(*self, 1), comp(*self, 2), comp(*self, 0), comp(*self, 3)],
    {
        let r = Vector::<T, 4>::new([self.y(), self.z(), self.x(), self.w()]);
        assert(r@ =~= seq![comp(*self, 1), comp(*self, 2), comp(*self, 0), comp(*self, 3)]);
        r
    }

    /// The vector `(y, z, y, x)` of this vector's components.
    pub fn yzyx(&self) -> (r: Vector<T, 4>)
        requires
            N >= 2,
        ensures
            r@ == seq![comp(*self, 1), comp(*self, 2), comp(*self, 1), comp(*self, 0)],
    {
        let r = Vector::<T, 4>::new([self.y(), self.z(), self.y(), self.x()]);
        assert(r@ =~= seq![comp(*self, 1), comp(*self, 2), comp(*self, 1), comp(*self, 0)]);
        r
    }

    /// The vector `(y, z, y, y)` of this vector's components.
    pub fn yzyy(&self) -> (r: Vector<T, 4>)
        requires
            N >= 2,
        ensures
            r@ == seq![comp(*self, 1), comp(*self, 2), comp(*self, 1), comp(*self, 1)],
    {
        let r = Vector::<T, 4>::new([self.y(), self.z(), self.y(), self.y()]);
        assert(r@ =~= seq![comp(*self, 1), comp(*self, 2), comp(*self, 1), comp(*self, 1)]);
        r
    }

    /// The vector `(y, z, y, z)` of this vector's components.
    pub fn yzyz(&self) -> (r: Vector<T, 4>)
        requires
            N >= 2,
        ensures
            r@ == seq![comp(*self, 1), comp(*self, 2), comp(*self, 1), comp(*self, 2)],
    {
        let r = Vector::<T, 4>::new([self.y(), self.z(), self.y(), self.z()]);
        assert(r@ =~= seq![comp(*self, 1), comp(*self, 2), comp(*self, 1), comp(*self, 2)]);
        r
    }

    /// The vector `(y, z, y, w)` of this vector's components.
    pub fn yzyw(&self) -> (r: Vector<T, 4>)
        requires
            N >= 2,
        ensures
            r@ == seq![comp(*self, 1), comp(*self, 2), comp(*self, 1), comp(*self, 3)],
    {
        let r = Vector::<T, 4>::new([self.y(), self.z(), self.y(), self.w()]);
        assert(r@ =~= seq![comp(*self, 1), comp(*self, 2), comp(*self, 1), comp(*self, 3)]);
        r
    }

    /// The vector `(y, z, z, x)` of this vector's components.
    pub fn yzzx(&self) -> (r: Vector<T, 4>)
        requires
            N >= 2,
        ensures
            r@ == seq![comp(*self, 1), comp(*self, 2), comp(*self, 2), comp(*self, 0)],
    {
        let r = Vector::<T, 4>::new([self.y(), self.z(), self.z(), self.x()]);
        assert(r@ =~= seq![comp(*self, 1), comp(*self, 2), comp(*self, 2), comp(*self, 0)]);
        r
    }

    /// The vector `(y, z, z, y)` of this vector's components.
    pub fn yzzy(&self) -> (r: Vector<T, 4>)
        requires
            N >= 2,
        ensures
            r@ == seq![comp(*self, 1), comp(*self, 2), comp(*self, 2), comp(*self, 1)],
    {
        let r = Vector::<T, 4>::new([self.y(), self.z(), self.z(), self.y()]);
        assert(r@ =~= seq![comp(*self, 1), comp(*self, 2), comp(*self, 2), comp(*self, 1)]);
        r
    }

    /// The vector `(y, z, z, z)` of this vector's components.
    pub fn yzzz(&self) -> (r: Vector<T, 4>)
        requires
            N >= 2,
        ensures
            r@ == seq![comp(*self, 1), comp(*self, 2), comp(*self, 2), comp(*self, 2)],
    {
        let r = Vector::<T, 4>::new([self.y(), self.z(), self.z(), self.z()]);
        assert(r@ =~= seq![comp(*self, 1), comp(*self, 2), comp(*self, 2), comp(*self, 2)]);
        r
    }

    /// The vector `(y, z, z, w)` of this vector's components.
    pub fn yzzw(&self) -> (r: Vector<T, 4>)
        requires
            N >= 2,
        ensures
            r@ == seq![comp(*self, 1), comp(*self, 2), comp(*self, 2), comp(*self, 3)],
    {
        let r = Vector::<T, 4>::new([self.y(), self.z(), self.z(), self.w()]);
        assert(r@ =~= seq![comp(*self, 1), comp(*self, 2), comp(*self, 2), comp(*self, 3)]);
        r
    }

    /// The vector `(y, z, w, x)` of this vector's components.
    pub fn yzwx(&self) -> (r: Vector<T, 4>)
        requires
            N >= 2,
        ensures
            r@ == seq![comp(*self, 1), comp(*self, 2), comp(*self, 3), comp(*self, 0)],
    {
        let r = Vector::<T, 4>::new([self.y(), self.z(), self.w(), self.x()]);
        assert(r@ =~= seq![comp(*self, 1), comp(*self, 2), comp(*self, 3), comp(*self, 0)]);
        r
    }

    /// The vector `(y, z, w, y)` of this vector's components.
    pub fn yzwy(&self) -> (r: Vector<T, 4>)
        requires
            N >= 2,
        ensures
            r@ == seq![comp(*self, 1), comp(*self, 2), comp(*self, 3), comp(*self, 1)],
    {
        let r = Vector::<T, 4>::new([self.y(), self.z(), self.w(), self.y()]);
        assert(r@ =~= seq![comp(*self, 1), comp(*self, 2), comp(*self, 3), comp(*self, 1)]);
        r
    }

    /// The vector `(y, z, w, z)` of this vector's components.
    pub fn yzwz(&self) -> (r: Vector<T, 4>)
        requires
            N >= 2,
        ensures
            r@ == seq![comp(*self, 1), comp(*self, 2), comp(*self, 3), comp(*self, 2)],
    {
        let r = Vector::<T, 4>::new([self.y(), self.z(), self.w(), self.z()]);
        assert(r@ =~= seq![comp(*self, 1), comp(*self, 2), comp(*self, 3), comp(*self, 2)]);
        r
    }

    /// The vector `(y, z, w, w)` of this vector's components.
    pub fn yzww(&self) -> (r: Vector<T, 4>)
        requires
            N >= 2,
        ensures
            r@ == seq![comp(*self, 1), comp(*self, 2), comp(*self, 3), comp(*self, 3)],
    {
        let r = Vector::<T, 4>::new([self.y(), self.z(), self.w(), self.w()]);
        assert(r@ =~= seq![comp(*self, 1), comp(*self, 2), comp(*self, 3), comp(*self, 3)]);
        r
    }

    /// The vector `(y, w, x, x)` of this vector's components.
    pub fn ywxx(&self) -> (r: Vector<T, 4>)
        requires
            N >= 2,
        ensures
            r@ == seq![comp(*self, 1), comp(*self, 3), comp(*self, 0), comp(*self, 0)],
    {
        let r = Vector::<T, 4>::new([self.y(), self.w(), self.x(), self.x()]);
        assert(r@ =~= seq![comp(*self, 1), comp(*self, 3), comp(*self, 0), comp(*self, 0)]);
        r
    }

    /// The vector `(y, w, x, y)` of this vector's components.
    pub fn ywxy(&self) -> (r: Vector<T, 4>)
        requires
            N >= 2,
        ensures
            r@ == seq![comp(*self, 1), comp(*self, 3), comp(*self, 0), comp(*self, 1)],
    {
        let r = Vector::<T, 4>::new([self.y(), self.w(), self.x(), self.y()]);
        assert(r@ =~= seq![comp(*self, 1), comp(*self, 3), comp(*self, 0), comp(*self, 1)]);
        r
    }

    /// The vector `(y, w, x, z)` of this vector's components.
    pub fn ywxz(&self) -> (r: Vector<T, 4>)
        requires
            N >= 2,
        ensures
            r@ == seq![comp(*self, 1), comp(*self, 3), comp(*self, 0), comp(*self, 2)],
    {
        let r = Vector::<T, 4>::new([self.y(), self.w(), self.x(), self.z()]);
        assert(r@ =~= seq![comp(*self, 1), comp(*self, 3), comp(*self, 0), comp(*self, 2)]);
        r
    }

    /// The vector `(y, w, x, w)` of this vector's components.
    pub fn ywxw(&self) -> (r: Vector<T, 4>)
        requires
            N >= 2,
        ensures
            r@ == seq![comp(*self, 1), comp(*self, 3), comp(*self, 0), comp(*self, 3)],
    {
        let r = Vector::<T, 4>::new([self.y(), self.w(), self.x(), self.w()]);
        assert(r@ =~= seq![comp(*self, 1), comp(*self, 3), comp(*self, 0), comp(*self, 3)]);
        r
    }

    /// The vector `(y, w, y, x)` of this vector's components.
    pub fn ywyx(&self) -> (r: Vector<T, 4>)
        requires
            N >= 2,
        ensures
            r@ == seq![comp(*self, 1), comp(*self, 3), comp(*self, 1), comp(*self, 0)],
    {
        let r = Vector::<T, 4>::new([self.y(), self.w(), self.y(), self.x()]);
        assert(r@ =~= seq![comp(*self, 1), comp(*self, 3), comp(*self, 1), comp(*self, 0)]);
        r
    }

    /// The vector `(y, w, y, y)` of this vector's components.
    pub fn ywyy(&self) -> (r: Vector<T, 4>)
        requires
            N >= 2,
        ensures
            r@ == seq![comp(*self, 1), comp(*self, 3), comp(*self, 1), comp(*self, 1)],
    {
        let r = Vector::<T, 4>::new([self.y(), self.w(), self.y(), self.y()]);
        assert(r@ =~= seq![comp(*self, 1), comp(*self, 3), comp(*self, 1), comp(*self, 1)]);
        r
    }

    /// The vector `(y, w, y, z)` of this vector's components.
    pub fn ywyz(&self) -> (r: Vector<T, 4>)
        requires
            N >= 2,
        ensures
            r@ == seq![comp(*self, 1), comp(*self, 3), comp(*self, 1), comp(*self, 2)],
    {
        let r = Vector::<T, 4>::new([self.y(), self.w(), self.y(), self.z()]);
        assert(r@ =~= seq![comp(*self, 1), comp(*self, 3), comp(*self, 1), comp(*self, 2)]);
        r
    }

    /// The vector `(y, w, y, w)` of this vector's components.
    pub fn ywyw(&self) -> (r: Vector<T, 4>)
        requires
            N >= 2,
        ensures
            r@ == seq![comp(*self, 1), comp(*self, 3), comp(*self, 1), comp(*self, 3)],
    {
        let r = Vector::<T, 4>::new([self.y(), self.w(), self.y(), self.w()]);
        assert(r@ =~= seq![comp(*self, 1), comp(*self, 3), comp(*self, 1), comp(*self, 3)]);
        r
    }

    /// The vector `(y, w, z, x)` of this vector's components.
    pub fn ywzx(&self) -> (r: Vector<T, 4>)
        requires
            N >= 2,
        ensures
            r@ == seq![comp(*self, 1), comp(*self, 3), comp(*self, 2), comp(*self, 0)],
    {
        let r = Vector::<T, 4>::new([self.y(), self.w(), self.z(), self.x()]);
        assert(r@ =~= seq![comp(*self, 1), comp(*self, 3), comp(*self, 2), comp(*self, 0)]);
        r
    }

    /// The vector `(y, w, z, y)` of this vector's components.
    pub fn ywzy(&self) -> (r: Vector<T, 4>)
        requires
            N >= 2,
        ensures
            r@ == seq![comp(*self, 1), comp(*self, 3), comp(*self, 2), comp(*self, 1)],
    {
        let r = Vector::<T, 4>::new([self.y(), self.w(), self.z(), self.y()]);
        assert(r@ =~= seq![comp(*self, 1), comp(*self, 3), comp(*self, 2), comp(*self, 1)]);
        r
    }

    /// The vector `(y, w, z, z)` of this vector's components.
    pub fn ywzz(&self) -> (r: Vector<T, 4>)
        requires
            N >= 2,
        ensures
            r@ == seq![comp(*self, 1), comp(*self, 3), comp(*self, 2), comp(*self, 2)],
    {
        let r = Vector::<T, 4>::new([self.y(), self.w(), self.z(), self.z()]);
        assert(r@ =~= seq![comp(*self, 1), comp(*self, 3), comp(*self, 2), comp(*self, 2)]);
        r
    }

    /// The vector `(y, w, z, w)` of this vector's components.
    pub fn ywzw(&self) -> (r: Vector<T, 4>)
        requires
            N >= 2,
        ensures
            r@ == seq![comp(*self, 1), comp(*self, 3), comp(*self, 2), comp(*self, 3)],
    {
        let r = Vector::<T, 4>::new([self.y(), self.w(), self.z(), self.w()]);
        assert(r@ =~= seq![comp(*self, 1), comp(*self, 3), comp(*self, 2), comp(*self, 3)]);
        r
    }

    /// The vector `(y, w, w, x)` of this vector's components.
    pub fn ywwx(&self) -> (r: Vector<T, 4>)
        requires
            N >= 2,
        ensures
            r@ == seq![comp(*self, 1), comp(*self, 3), comp(*self, 3), comp(*self, 0)],
    {
        let r = Vector::<T, 4>::new([self.y(), self.w(), self.w(), self.x()]);
        assert(r@ =~= seq![comp(*self, 1), comp(*self, 3), comp(*self, 3), comp(*self, 0)]);
        r
    }

    /// The vector `(y, w, w, y)` of this vector's components.
    pub fn ywwy(&self) -> (r: Vector<T, 4>)
        requires
            N >= 2,
        ensures
            r@ == seq![comp(*self, 1), comp(*self, 3), comp(*self, 3), comp(*self, 1)],
    {
        let r = Vector::<T, 4>::new([self.y(), self.w(), self.w(), self.y()]);
        assert(r@ =~= seq![comp(*self, 1), comp(*self, 3), comp(*self, 3), comp(*self, 1)]);
        r
    }

    /// The vector `(y, w, w, z)` of this vector's components.
    pub fn ywwz(&self) -> (r: Vector<T, 4>)
        requires
            N >= 2,
        ensures
            r@ == seq![comp(*self, 1), comp(*self, 3), comp(*self, 3), comp(*self, 2)],
    {
        let r = Vector::<T, 4>::new([self.y(), self.w(), self.w(), self.z()]);
        assert(r@ =~= seq![comp(*self, 1), comp(*self, 3), comp(*self, 3), comp(*self, 2)]);
        r
    }

    /// The vector `(y, w, w, w)` of this vector's components.
    pub fn ywww(&self) -> (r: Vector<T, 4>)
        requires
            N >= 2,
        ensures
            r@ == seq![comp(*self, 1), comp(*self, 3), comp(*self, 3), comp(*self, 3)],
    {
        let r = Vector::<T, 4>::new([self.y(), self.w(), self.w(), self.w()]);
        assert(r@ =~= seq![comp(*self, 1), comp(*self, 3), comp(*self, 3), comp(*self, 3)]);
        r
    }

    /// The vector `(z, x, x, x)` of this vector's components.
    pub fn zxxx(&self) -> (r: Vector<T, 4>)
        requires
            N >= 1,
        ensures
            r@ == seq![comp(*self, 2), comp(*self, 0), comp(*self, 0), comp(*self, 0)],
    {
        let r = Vector::<T, 4>::new([self.z(), self.x(), self.x(), self.x()]);
        assert(r@ =~= seq![comp(*self, 2), comp(*self, 0), comp(*self, 0), comp(*self, 0)]);
        r
    }

    /// The vector `(z, x, x, y)` of this vector's components.
    pub fn zxxy(&self) -> (r: Vector<T, 4>)
        requires
            N >= 2,
        ensures
            r@ == seq![comp(*self, 2), comp(*self, 0), comp(*self, 0), comp(*self, 1)],
    {
        let r = Vector::<T, 4>::new([self.z(), self.x(), self.x(), self.y()]);
        assert(r@ =~= seq![comp(*self, 2), comp(*self, 0), comp(*self, 0), comp(*self, 1)]);
        r
    }

    /// The vector `(z, x, x, z)` of this vector's components.
    pub fn zxxz(&self) -> (r: Vector<T, 4>)
        requires
            N >= 1,
        ensures
            r@ == seq![comp(*self, 2), comp(*self, 0), comp(*self, 0), comp(*self, 2)],
    {
        let r = Vector::<T, 4>::new([self.z(), self.x(), self.x(), self.z()]);
        assert(r@ =~= seq![comp(*self, 2), comp(*self, 0), comp(*self, 0), comp(*self, 2)]);
        r
    }

    /// The vector `(z, x, x, w)` of this vector's components.
    pub fn zxxw(&self) -> (r: Vector<T, 4>)
        requires
            N >= 1,
        ensures
            r@ == seq![comp(*self, 2), comp(*self, 0), comp(*self, 0), comp(*self, 3)],
    {
        let r = Vector::<T, 4>::new([self.z(), self.x(), self.x(), self.w()]);
        assert(r@ =~= seq![comp(*self, 2), comp(*self, 0), comp(*self, 0), comp(*self, 3)]);
        r
    }

    /// The vector `(z, x, y, x)` of this vector's components.
    pub fn zxyx(&self) -> (r: Vector<T, 4>)
        requires
            N >= 2,
        ensures
            r@ == seq![comp(*self, 2), comp(*self, 0), comp(*self, 1), comp(*self, 0)],
    {
        let r = Vector::<T, 4>::new([self.z(), self.x(), self.y(), self.x()]);
        assert(r@ =~= seq![comp(*self, 2), comp(*self, 0), comp(*self, 1), comp(*self, 0)]);
        r
    }

    /// The vector `(z, x, y, y)` of this vector's components.
    pub fn zxyy(&self) -> (r: Vector<T, 4>)
        requires
            N >= 2,
        ensures
            r@ == seq![comp(*self, 2), comp(*self, 0), comp(*self, 1), comp(*self, 1)],
    {
        let r = Vector::<T, 4>::new([self.z(), self.x(), self.y(), self.y()]);
        assert(r@ =~= seq![comp(*self, 2), comp(*self, 0), comp(*self, 1), comp(*self, 1)]);
        r
    }

    /// The vector `(z, x, y, z)` of this vector's components.
    pub fn zxyz(&self) -> (r: Vector<T, 4>)
        requires
            N >= 2,
        ensures
            r@ == seq![comp(*self, 2), comp(*self, 0), comp(*self, 1), comp(*self, 2)],
    {
        let r = Vector::<T, 4>::new([self.z(), self.x(), self.y(), self.z()]);
        assert(r@ =~= seq![comp(*self, 2), comp(*self, 0), comp(*self, 1), comp(*self, 2)]);
        r
    }

    /// The vector `(z, x, y, w)` of this vector's components.
    pub fn zxyw(&self) -> (r: Vector<T, 4>)
        requires
            N >= 2,
        ensures
            r@ == seq![comp(*self, 2), comp(*self, 0), comp(*self, 1), comp(*self, 3)],
    {
        let r = Vector::<T, 4>::new([self.z(), self.x(), self.y(), self.w()]);
        assert(r@ =~= seq![comp(*self, 2), comp(*self, 0), comp(*self, 1), comp(*self, 3)]);
        r
    }

    /// The vector `(z, x, z, x)` of this vector's components.
    pub fn zxzx(&self) -> (r: Vector<T, 4>)
        requires
            N >= 1,
        ensures
            r@ == seq![comp(*self, 2), comp(*self, 0), comp(*self, 2), comp(*self, 0)],
    {
        let r = Vector::<T, 4>::new([self.z(), self.x(), self.z(), self.x()]);
        assert(r@ =~= seq![comp(*self, 2), comp(*self, 0), comp(*self, 2), comp(*self, 0)]);
        r
    }

    /// The vector `(z, x, z, y)` of this vector's components.
    pub fn zxzy(&self) -> (r: Vector<T, 4>)
        requires
            N >= 2,
        ensures
            r@ == seq![comp(*self, 2), comp(*self, 0), comp(*self, 2), comp(*self, 1)],
    {
        let r = Vector::<T, 4>::new([self.z(), self.x(), self.z(), self.y()]);
        assert(r@ =~= seq![comp(*self, 2), comp(*self, 0), comp(*self, 2), comp(*self, 1)]);
        r
    }

    /// The vector `(z, x, z, z)` of this vector's components.
    pub fn zxzz(&self) -> (r: Vector<T, 4>)
        requires
            N >= 1,
        ensures
            r@ == seq![comp(*self, 2), comp(*self, 0), comp(*self, 2), comp(*self, 2)],
    {
        let r = Vector::<T, 4>::new([self.z(), self.x(), self.z(), self.z()]);
        assert(r@ =~= seq![comp(*self, 2), comp(*self, 0), comp(*self, 2), comp(*self, 2)]);
        r
    }

    /// The vector `(z, x, z, w)` of this vector's components.
    pub fn zxzw(&self) -> (r: Vector<T, 4>)
        requires
            N >= 1,
        ensures
            r@ == seq![comp(*self, 2), comp(*self, 0), comp(*self, 2), comp(*self, 3)],
    {
        let r = Vector::<T, 4>::new([self.z(), self.x(), self.z(), self.w()]);
        assert(r@ =~= seq![comp(*self, 2), comp(*self, 0), comp(*self, 2), comp(*self, 3)]);
        r
    }

    /// The vector `(z, x, w, x)` of this vector's components.
    pub fn zxwx(&self) -> (r: Vector<T, 4>)
        requires
            N >= 1,
        ensures
            r@ == seq![comp(*self, 2), comp(*self, 0), comp(*self, 3), comp(*self, 0)],
    {
        let r = Vector::<T, 4>::new([self.z(), self.x(), self.w(), self.x()]);
        assert(r@ =~= seq![comp(*self, 2), comp(*self, 0), comp(*self, 3), comp(*self, 0)]);
        r
    }

    /// The vector `(z, x, w, y)` of this vector's components.
    pub fn zxwy(&self) -> (r: Vector<T, 4>)
        requires
            N >= 2,
        ensures
            r@ == seq![comp(*self, 2), comp(*self, 0), comp(*self, 3), comp(*self, 1)],
    {
        let r = Vector::<T, 4>::new([self.z(), self.x(), self.w(), self.y()]);
        assert(r@ =~= seq![comp(*self, 2), comp(*self, 0), comp(*self, 3), comp(*self, 1)]);
        r
    }

    /// The vector `(z, x, w, z)` of this vector's components.
    pub fn zxwz(&self) -> (r: Vector<T, 4>)
        requires
            N >= 1,
        ensures
            r@ == seq![comp(*self, 2), comp(*self, 0), comp(*self, 3), comp(*self, 2)],
    {
        let r = Vector::<T, 4>::new([self.z(), self.x(), self.w(), self.z()]);
        assert(r@ =~= seq![comp(*self, 2), comp(*self, 0), comp(*self, 3), comp(*self, 2)]);
        r
    }

    /// The vector `(z, x, w, w)` of this vector's components.
    pub fn zxww(&self) -> (r: Vector<T, 4>)
        requires
            N >= 1,
        ensures
            r@ == seq![comp(*self, 2), comp(*self, 0), comp(*self, 3), comp(*self, 3)],
    {
        let r = Vector::<T, 4>::new([self.z(), self.x(), self.w(), self.w()]);
        assert(r@ =~= seq![comp(*self, 2), comp(*self, 0), comp(*self, 3), comp(*self, 3)]);
        r
    }

    /// The vector `(z, y, x, x)` of this vector's components.
    pub fn zyxx(&self) -> (r: Vector<T, 4>)
        requires
            N >= 2,
        ensures
            r@ == seq![comp(*self, 2), comp(*self, 1), comp(*self, 0), comp(*self, 0)],
    {
        let r = Vector::<T, 4>::new([self.z(), self.y(), self.x(), self.x()]);
        assert(r@ =~= seq![comp(*self, 2), comp(*self, 1), comp(*self, 0), comp(*self, 0)]);
        r
    }

    /// The vector `(z, y, x, y)` of this vector's components.
    pub fn zyxy(&self) -> (r: Vector<T, 4>)
        requires
            N >= 2,
        ensures
            r@ == seq![comp(*self, 2), comp(*self, 1), comp(*self, 0), comp(*self, 1)],
    {
        let r = Vector::<T, 4>::new([self.z(), self.y(), self.x(), self.y()]);
        assert(r@ =~= seq![comp(*self, 2), comp(*self, 1), comp(*self, 0), comp(*self, 1)]);
        r
    }

    /// The vector `(z, y, x, z)` of this vector's components.
    pub fn zyxz(&self) -> (r: Vector<T, 4>)
        requires
            N >= 2,
        ensures
            r@ == seq![comp(*self, 2), comp(*self, 1), comp(*self, 0), comp(*self, 2)],
    {
        let r = Vector::<T, 4>::new([self.z(), self.y(), self.x(), self.z()]);
        assert(r@ =~= seq![comp(*self, 2), comp(*self, 1), comp(*self, 0), comp(*self, 2)]);
        r
    }

    /// The vector `(z, y, x, w)` of this vector's components.
    pub fn zyxw(&self) -> (r: Vector<T, 4>)
        requires
            N >= 2,
        ensures
            r@ == seq![comp(*self, 2), comp(*self, 1), comp(*self, 0), comp(*self, 3)],
    {
        let r = Vector::<T, 4>::new([self.z(), self.y(), self.x(), self.w()]);
        assert(r@ =~= seq![comp(*self, 2), comp(*self, 1), comp(*self, 0), comp(*self, 3)]);
        r
    }

    /// The vector `(z, y, y, x)` of this vector's components.
    pub fn zyyx(&self) -> (r: Vector<T, 4>)
        requires
            N >= 2,
        ensures
            r@ == seq![comp(*self, 2), comp(*self, 1), comp(*self, 1), comp(*self, 0)],
    {
        let r = Vector::<T, 4>::new([self.z(), self.y(), self.y(), self.x()]);
        assert(r@ =~= seq![comp(*self, 2), comp(*self, 1), comp(*self, 1), comp(*self, 0)]);
        r
    }

    /// The vector `(z, y, y, y)` of this vector's components.
    pub fn zyyy(&self) -> (r: Vector<T, 4>)
        requires
            N >= 2,
        ensures
            r@ == seq![comp(*self, 2), comp(*self, 1), comp(*self, 1), comp(*self, 1)],
    {
        let r = Vector::<T, 4>::new([self.z(), self.y(), self.y(), self.y()]);
        assert(r@ =~= seq![comp(*self, 2), comp(*self, 1), comp(*self, 1), comp(*self, 1)]);
        r
    }

    /// The vector `(z, y, y, z)` of this vector's components.
    pub fn zyyz(&self) -> (r: Vector<T, 4>)
        requires
            N >= 2,
        ensures
            r@ == seq![comp(*self, 2), comp(*self, 1), comp(*self, 1), comp(*self, 2)],
    {
        let r = Vector::<T, 4>::new([self.z(), self.y(), self.y(), self.z()]);
        assert(r@ =~= seq![comp(*self, 2), comp(*self, 1), comp(*self, 1), comp(*self, 2)]);
        r
    }

    /// The vector `(z, y, y, w)` of this vector's components.
    pub fn zyyw(&self) -> (r: Vector<T, 4>)
        requires
            N >= 2,
        ensures
            r@ == seq![comp(*self, 2), comp(*self, 1), comp(*self, 1), comp(*self, 3)],
    {
        let r = Vector::<T, 4>::new([self.z(), self.y(), self.y(), self.w()]);
        assert(r@ =~= seq![comp(*self, 2), comp(*self, 1), comp(*self, 1), comp(*self, 3)]);
        r
    }

    /// The vector `(z, y, z, x)` of this vector's components.
    pub fn zyzx(&self) -> (r: Vector<T, 4>)
        requires
            N >= 2,
        ensures
            r@ == seq![comp(*self, 2), comp(*self, 1), comp(*self, 2), comp(*self, 0)],
    {
        let r = Vector::<T, 4>::new([self.z(), self.y(), self.z(), self.x()]);
        assert(r@ =~= seq![comp(*self, 2), comp(*self, 1), comp(*self, 2), comp(*self, 0)]);
        r
    }

    /// The vector `(z, y, z, y)` of this vector's components.
    pub fn zyzy(&self) -> (r: Vector<T, 4>)
        requires
            N >= 2,
        ensures
            r@ == seq![comp(*self, 2), comp(*self, 1), comp(*self, 2), comp(*self, 1)],
    {
        let r = Vector::<T, 4>::new([self.z(), self.y(), self.z(), self.y()]);
        assert(r@ =~= seq![comp(*self, 2), comp(*self, 1), comp(*self, 2), comp(*self, 1)]);
        r
    }

    /// The vector `(z, y, z, z)` of this vector's components.
    pub fn zyzz(&self) -> (r: Vector<T, 4>)
        requires
            N >= 2,
        ensures
            r@ == seq![comp(*self, 2), comp(*self, 1), comp(*self, 2), comp(*self, 2)],
    {
        let r = Vector::<T, 4>::new([self.z(), self.y(), self.z(), self.z()]);
        assert(r@ =~= seq![comp(*self, 2), comp(*self, 1), comp(*self, 2), comp(*self, 2)]);
        r
    }

    /// The vector `(z, y, z, w)` of this vector's components.
    pub fn zyzw(&self) -> (r: Vector<T, 4>)
        requires
            N >= 2,
        ensures
            r@ == seq![comp(*self, 2), comp(*self, 1), comp(*self, 2), comp(*self, 3)],
    {
        let r = Vector::<T, 4>::new([self.z(), self.y(), self.z(), self.w()]);
        assert(r@ =~= seq![comp(*self, 2), comp(*self, 1), comp(*self, 2), comp(*self, 3)]);
        r
    }

    /// The vector `(z, y, w, x)` of this vector's components.
    pub fn zywx(&self) -> (r: Vector<T, 4>)
        requires
            N >= 2,
        ensures
            r@ == seq![comp(*self, 2), comp(*self, 1), comp(*self, 3), comp(*self, 0)],
    {
        let r = Vector::<T, 4>::new([self.z(), self.y(), self.w(), self.x()]);
        assert(r@ =~= seq![comp(*self, 2), comp(*self, 1), comp(*self, 3), comp(*self, 0)]);
        r
    }

    /// The vector `(z, y, w, y)` of this vector's components.
    pub fn zywy(&self) -> (r: Vector<T, 4>)
        requires
            N >= 2,
        ensures
            r@ == seq![comp(*self, 2), comp(*self, 1), comp(*self, 3), comp(*self, 1)],
    {
        let r = Vector::<T, 4>::new([self.z(), self.y(), self.w(), self.y()]);
        assert(r@ =~= seq![comp(*self, 2), comp(*self, 1), comp(*self, 3), comp(*self, 1)]);
        r
    }

    /// The vector `(z, y, w, z)` of this vector's components.
    pub fn zywz(&self) -> (r: Vector<T, 4>)
        requires
            N >= 2,
        ensures
            r@ == seq![comp(*self, 2), comp(*self, 1), comp(*self, 3), comp(*self, 2)],
    {
        let r = Vector::<T, 4>::new([self.z(), self.y(), self.w(), self.z()]);
        assert(r@ =~= seq![comp(*self, 2), comp(*self, 1), comp(*self, 3), comp(*self, 2)]);
        r
    }

    /// The vector `(z, y, w, w)` of this vector's components.
    pub fn zyww(&self) -> (r: Vector<T, 4>)
        requires
            N >= 2,
        ensures
            r@ == seq![comp(*self, 2), comp(*self, 1), comp(*self, 3), comp(*self, 3)],
    {
        let r = Vector::<T, 4>::new([self.z(), self.y(), self.w(), self.w()]);
        assert(r@ =~= seq![comp(*self, 2), comp(*self, 1), comp(*self, 3), comp(*self, 3)]);
        r
    }

    /// The vector `(z, z, x, x)` of this vector's components.
    pub fn zzxx(&self) -> (r: Vector<T, 4>)
        requires
            N >= 1,
        ensures
            r@ == seq![comp(*self, 2), comp(*self, 2), comp(*self, 0), comp(*self, 0)],
    {
        let r = Vector::<T, 4>::new([self.z(), self.z(), self.x(), self.x()]);
        assert(r@ =~= seq![comp(*self, 2), comp(*self, 2), comp(*self, 0), comp(*self, 0)]);
        r
    }

    /// The vector `(z, z, x, y)` of this vector's components.
    pub fn zzxy(&self) -> (r: Vector<T, 4>)
        requires
            N >= 2,
        ensures
            r@ == seq![comp(*self, 2), comp(*self, 2), comp(*self, 0), comp(*self, 1)],
    {
        let r = Vector::<T, 4>::new([self.z(), self.z(), self.x(), self.y()]);
        assert(r@ =~= seq![comp(*self, 2), comp(*self, 2), comp(*self, 0), comp(*self, 1)]);
        r
    }

    /// The vector `(z, z, x, z)` of this vector's components.
    pub fn zzxz(&self) -> (r: Vector<T, 4>)
        requires
            N >= 1,
        ensures
            r@ == seq![comp(*self, 2), comp(*self, 2), comp(*self, 0), comp(*self, 2)],
    {
        let r = Vector::<T, 4>::new([self.z(), self.z(), self.x(), self.z()]);
        assert(r@ =~= seq![comp(*self, 2), comp(*self, 2), comp(*self, 0), comp(*self, 2)]);
        r
    }

    /// The vector `(z, z, x, w)` of this vector's components.
    pub fn zzxw(&self) -> (r: Vector<T, 4>)
        requires
            N >= 1,
        ensures
            r@ == seq![comp(*self, 2), comp(*self, 2), comp(*self, 0), comp(*self, 3)],
    {
        let r = Vector::<T, 4>::new([self.z(), self.z(), self.x(), self.w()]);
        assert(r@ =~= seq![comp(*self, 2), comp(*self, 2), comp(*self, 0), comp(*self, 3)]);
        r
    }

    /// The vector `(z, z, y, x)` of this vector's components.
    pub fn zzyx(&self) -> (r: Vector<T, 4>)
        requires
            N >= 2,
        ensures
            r@ == seq![comp(*self, 2), comp(*self, 2), comp(*self, 1), comp(*self, 0)],
    {
        let r = Vector::<T, 4>::new([self.z(), self.z(), self.y(), self.x()]);
        assert(r@ =~= seq![comp(*self, 2), comp(*self, 2), comp(*self, 1), comp(*self, 0)]);
        r
    }

    /// The vector `(z, z, y, y)` of this vector's components.
    pub fn zzyy(&self) -> (r: Vector<T, 4>)
        requires
            N >= 2,
        ensures
            r@ == seq![comp(*self, 2), comp(*self, 2), comp(*self, 1), comp(*self, 1)],
    {
        let r = Vector::<T, 4>::new([self.z(), self.z(), self.y(), self.y()]);
        assert(r@ =~= seq![comp(*self, 2), comp(*self, 2), comp(*self, 1), comp(*self, 1)]);
        r
    }

    /// The vector `(z, z, y, z)` of this vector's components.
    pub fn zzyz(&self) -> (r: Vector<T, 4>)
        requires
            N >= 2,
        ensures
            r@ == seq![comp(*self, 2), comp(*self, 2), comp(*self, 1), comp(*self, 2)],
    {
        let r = Vector::<T, 4>::new([self.z(), self.z(), self.y(), self.z()]);
        assert(r@ =~= seq![comp(*self, 2), comp(*self, 2), comp(*self, 1), comp(*self, 2)]);
        r
    }

    /// The vector `(z, z, y, w)` of this vector's components.
    pub fn zzyw(&self) -> (r: Vector<T, 4>)
        requires
            N >= 2,
        ensures
            r@ == seq![comp(*self, 2), comp(*self, 2), comp(*self, 1), comp(*self, 3)],
    {
        let r = Vector::<T, 4>::new([self.z(), self.z(), self.y(), self.w()]);
        assert(r@ =~= seq![comp(*self, 2), comp(*self, 2), comp(*self, 1), comp(*self, 3)]);
        r
    }

    /// The vector `(z, z, z, x)` of this vector's components.
    pub fn zzzx(&self) -> (r: Vector<T, 4>)
        requires
            N >= 1,
        ensures
            r@ == seq![comp(*self, 2), comp(*self, 2), comp(*self, 2), comp(*self, 0)],
    {
        let r = Vector::<T, 4>::new([self.z(), self.z(), self.z(), self.x()]);
        assert(r@ =~= seq![comp(*self, 2), comp(*self, 2), comp(*self, 2), comp(*self, 0)]);
        r
    }

    /// The vector `(z, z, z, y)` of this vector's components.
    pub fn zzzy(&self) -> (r: Vector<T, 4>)
        requires
            N >= 2,
        ensures
            r@ == seq![comp(*self, 2), comp(*self, 2), comp(*self, 2), comp(*self, 1)],
    {
        let r = Vector::<T, 4>::new([self.z(), self.z(), self.z(), self.y()]);
        assert(r@ =~= seq![comp(*self, 2), comp(*self, 2), comp(*self, 2), comp(*self, 1)]);
        r
    }

    /// The vector `(z, z, z, z)` of this vector's components.
    pub fn zzzz(&self) -> (r: Vector<T, 4>)
        ensures
            r@ == seq![comp(*self, 2), comp(*self, 2), comp(*self, 2), comp(*self, 2)],
    {
        let r = Vector::<T, 4>::new([self.z(), self.z(), self.z(), self.z()]);
        assert(r@ =~= seq![comp(*self, 2), comp(*self, 2), comp(*self, 2), comp(*self, 2)]);
        r
    }

    /// The vector `(z, z, z, w)` of this vector's components.
    pub fn zzzw(&self) -> (r: Vector<T, 4>)
        ensures
            r@ == seq![comp(*self, 2), comp(*self, 2), comp(*self, 2), comp(*self, 3)],
    {
        let r = Vector::<T, 4>::new([self.z(), self.z(), self.z(), self.w()]);
        assert(r@ =~= seq![comp(*self, 2), comp(*self, 2), comp(*self, 2), comp(*self, 3)]);
        r
    }

    /// The vector `(z, z, w, x)` of this vector's components.
    pub fn zzwx(&self) -> (r: Vector<T, 4>)
        requires
            N >= 1,
        ensures
            r@ == seq![comp(*self, 2), comp(*self, 2), comp(*self, 3), comp(*self, 0)],
    {
        let r = Vector::<T, 4>::new([self.z(), self.z(), self.w(), self.x()]);
        assert(r@ =~= seq![comp(*self, 2), comp(*self, 2), comp(*self, 3), comp(*self, 0)]);
        r
    }

    /// The vector `(z, z, w, y)` of this vector's components.
    pub fn zzwy(&self) -> (r: Vector<T, 4>)
        requires
            N >= 2,
        ensures
            r@ == seq![comp(*self, 2), comp(*self, 2), comp(*self, 3), comp(*self, 1)],
    {
        let r = Vector::<T, 4>::new([self.z(), self.z(), self.w(), self.y()]);
        assert(r@ =~= seq![comp(*self, 2), comp(*self, 2), comp(*self, 3), comp(*self, 1)]);
        r
    }

    /// The vector `(z, z, w, z)` of this vector's components.
    pub fn zzwz(&self) -> (r: Vector<T, 4>)
        ensures
            r@ == seq![comp(*self, 2), comp(*self, 2), comp(*self, 3), comp(*self, 2)],
    {
        let r = Vector::<T, 4>::new([self.z(), self.z(), self.w(), self.z()]);
        assert(r@ =~= seq![comp(*self, 2), comp(*self, 2), comp(*self, 3), comp(*self, 2)]);
        r
    }

    /// The vector `(z, z, w, w)` of this vector's components.
    pub fn zzww(&self) -> (r: Vector<T, 4>)
        ensures
            r@ == seq![comp(*self, 2), comp(*self, 2), comp(*self, 3), comp(*self, 3)],
    {
        let r = Vector::<T, 4>::new([self.z(), self.z(), self.w(), self.w()]);
        assert(r@ =~= seq![comp(*self, 2), comp(*self, 2), comp(*self, 3), comp(*self, 3)]);
        r
    }

    /// The vector `(z, w, x, x)` of this vector's components.
    pub fn zwxx(&self) -> (r: Vector<T, 4>)
        requires
            N >= 1,
        ensures
            r@ == seq![comp(*self, 2), comp(*self, 3), comp(*self, 0), comp(*self, 0)],
    {
        let r = Vector::<T, 4>::new([self.z(), self.w(), self.x(), self.x()]);
        assert(r@ =~= seq![comp(*self, 2), comp(*self, 3), comp(*self, 0), comp(*self, 0)]);
        r
    }

    /// The vector `(z, w, x, y)` of this vector's components.
    pub fn zwxy(&self) -> (r: Vector<T, 4>)
        requires
            N >= 2,
        ensures
            r@ == seq![comp(*self, 2), comp(*self, 3), comp(*self, 0), comp(*self, 1)],
    {
        let r = Vector::<T, 4>::new([self.z(), self.w(), self.x(), self.y()]);
        assert(r@ =~= seq![comp(*self, 2), comp(*self, 3), comp(*self, 0), comp(*self, 1)]);
        r
    }

    /// The vector `(z, w, x, z)` of this vector's components.
    pub fn zwxz(&self) -> (r: Vector<T, 4>)
        requires
            N >= 1,
        ensures
            r@ == seq![comp(*self, 2), comp(*self, 3), comp(*self, 0), comp(*self, 2)],
    {
        let r = Vector::<T, 4>::new([self.z(), self.w(), self.x(), self.z()]);
        assert(r@ =~= seq![comp(*self, 2), comp(*self, 3), comp(*self, 0), comp(*self, 2)]);
        r
    }

    /// The vector `(z, w, x, w)` of this vector's components.
    pub fn zwxw(&self) -> (r: Vector<T, 4>)
        requires
            N >= 1,
        ensures
            r@ == seq![comp(*self, 2), comp(*self, 3), comp(*self, 0), comp(*self, 3)],
    {
        let r = Vector::<T, 4>::new([self.z(), self.w(), self.x(), self.w()]);
        assert(r@ =~= seq![comp(*self, 2), comp(*self, 3), comp(*self, 0), comp(*self, 3)]);
        r
    }

    /// The vector `(z, w, y, x)` of this vector's components.
    pub fn zwyx(&self) -> (r: Vector<T, 4>)
        requires
            N >= 2,
        ensures
            r@ == seq![comp(*self, 2), comp(*self, 3), comp(*self, 1), comp(*self, 0)],
    {
        let r = Vector::<T, 4>::new([self.z(), self.w(), self.y(), self.x()]);
        assert(r@ =~= seq![comp(*self, 2), comp(*self, 3), comp(*self, 1), comp(*self, 0)]);
        r
    }

    /// The vector `(z, w, y, y)` of this vector's components.
    pub fn zwyy(&self) -> (r: Vector<T, 4>)
        requires
            N >= 2,
        ensures
            r@ == seq![comp(*self, 2), comp(*self, 3), comp(*self, 1), comp(*self, 1)],
    {
        let r = Vector::<T, 4>::new([self.z(), self.w(), self.y(), self.y()]);
        assert(r@ =~= seq![comp(*self, 2), comp(*self, 3), comp(*self, 1), comp(*self, 1)]);
        r
    }

    /// The vector `(z, w, y, z)` of this vector's components.
    pub fn zwyz(&self) -> (r: Vector<T, 4>)
        requires
            N >= 2,
        ensures
            r@ == seq![comp(*self, 2), comp(*self, 3), comp(*self, 1), comp(*self, 2)],
    {
        let r = Vector::<T, 4>::new([self.z(), self.w(), self.y(), self.z()]);
        assert(r@ =~= seq![comp(*self, 2), comp(*self, 3), comp(*self, 1), comp(*self, 2)]);
        r
    }

    /// The vector `(z, w, y, w)` of this vector's components.
    pub fn zwyw(&self) -> (r: Vector<T, 4>)
        requires
            N >= 2,
        ensures
            r@ == seq![comp(*self, 2), comp(*self, 3), comp(*self, 1), comp(*self, 3)],
    {
        let r = Vector::<T, 4>::new([self.z(), self.w(), self.y(), self.w()]);
        assert(r@ =~= seq![comp(*self, 2), comp(*self, 3), comp(*self, 1), comp(*self, 3)]);
        r
    }

    /// The vector `(z, w, z, x)` of this vector's components.
    pub fn zwzx(&self) -> (r: Vector<T, 4>)
        requires
            N >= 1,
        ensures
            r@ == seq![comp(*self, 2), comp(*self, 3), comp(*self, 2), comp(*self, 0)],
    {
        let r = Vector::<T, 4>::new([self.z(), self.w(), self.z(), self.x()]);
        assert(r@ =~= seq![comp(*self, 2), comp(*self, 3), comp(*self, 2), comp(*self, 0)]);
        r
    }

    /// The vector `(z, w, z, y)` of this vector's components.
    pub fn zwzy(&self) -> (r: Vector<T, 4>)
        requires
            N >= 2,
        ensures
            r@ == seq![comp(*self, 2), comp(*self, 3), comp(*self, 2), comp(*self, 1)],
    {
        let r = Vector::<T, 4>::new([self.z(), self.w(), self.z(), self.y()]);
        assert(r@ =~= seq![comp(*self, 2), comp(*self, 3), comp(*self, 2), comp(*self, 1)]);
        r
    }

    /// The vector `(z, w, z, z)` of this vector's components.
    pub fn zwzz(&self) -> (r: Vector<T, 4>)
        ensures
            r@ == seq![comp(*self, 2), comp(*self, 3), comp(*self, 2), comp(*self, 2)],
    {
        let r = Vector::<T, 4>::new([self.z(), self.w(), self.z(), self.z()]);
        assert(r@ =~= seq![comp(*self, 2), comp(*self, 3), comp(*self, 2), comp(*self, 2)]);
        r
    }

    /// The vector `(z, w, z, w)` of this vector's components.
    pub fn zwzw(&self) -> (r: Vector<T, 4>)
        ensures
            r@ == seq![comp(*self, 2), comp(*self, 3), comp(*self, 2), comp(*self, 3)],
    {
        let r = Vector::<T, 4>::new([self.z(), self.w(), self.z(), self.w()]);
        assert(r@ =~= seq![comp(*self, 2), comp(*self, 3), comp(*self, 2), comp(*self, 3)]);
        r
    }

    /// The vector `(z, w, w, x)` of this vector's components.
    pub fn zwwx(&self) -> (r: Vector<T, 4>)
        requires
            N >= 1,
        ensures
            r@ == seq![comp(*self, 2), comp(*self, 3), comp(*self, 3), comp(*self, 0)],
    {
        let r = Vector::<T, 4>::new([self.z(), self.w(), self.w(), self.x()]);
        assert(r@ =~= seq![comp(*self, 2), comp(*self, 3), comp(*self, 3), comp(*self, 0)]);
        r
    }

    /// The vector `(z, w, w, y)` of this vector's components.
    pub fn zwwy(&self) -> (r: Vector<T, 4>)
        requires
            N >= 2,
        ensures
            r@ == seq![comp(*self, 2), comp(*self, 3), comp(*self, 3), comp(*self, 1)],
    {
        let r = Vector::<T, 4>::new([self.z(), self.w(), self.w(), self.y()]);
        assert(r@ =~= seq![comp(*self, 2), comp(*self, 3), comp(*self, 3), comp(*self, 1)]);
        r
    }

    /// The vector `(z, w, w, z)` of this vector's components.
    pub fn zwwz(&self) -> (r: Vector<T, 4>)
        ensures
            r@ == seq![comp(*self, 2), comp(*self, 3), comp(*self, 3), comp(*self, 2)],
    {
        let r = Vector::<T, 4>::new([self.z(), self.w(), self.w(), self.z()]);
        assert(r@ =~= seq![comp(*self, 2), comp(*self, 3), comp(*self, 3), comp(*self, 2)]);
        r
    }

    /// The vector `(z, w, w, w)` of this vector's components.
    pub fn zwww(&self) -> (r: Vector<T, 4>)
        ensures
            r@ == seq![comp(*self, 2), comp(*self, 3), comp(*self, 3), comp(*self, 3)],
    {
        let r = Vector::<T, 4>::new([self.z(), self.w(), self.w(), self.w()]);
        assert(r@ =~= seq![comp(*self, 2), comp(*self, 3), comp(*self, 3), comp(*self, 3)]);
        r
    }

    /// The vector `(w, x, x, x)` of this vector's components.
    pub fn wxxx(&self) -> (r: Vector<T, 4>)
        requires
            N >= 1,
        ensures
            r@ == seq![comp(*self, 3), comp(*self, 0), comp(*self, 0), comp(*self, 0)],
    {
        let r = Vector::<T, 4>::new([self.w(), self.x(), self.x(), self.x()]);
        assert(r@ =~= seq![comp(*self, 3), comp(*self, 0), comp(*self, 0), comp(*self, 0)]);
        r
    }

    /// The vector `(w, x, x, y)` of this vector's components.
    pub fn wxxy(&self) -> (r: Vector<T, 4>)
        requires
            N >= 2,
        ensures
            r@ == seq![comp(*self, 3), comp(*self, 0), comp(*self, 0), comp(*self, 1)],
    {
        let r = Vector::<T, 4>::new([self.w(), self.x(), self.x(), self.y()]);
        assert(r@ =~= seq![comp(*self, 3), comp(*self, 0), comp(*self, 0), comp(*self, 1)]);
        r
    }

    /// The vector `(w, x, x, z)` of this vector's components.
    pub fn wxxz(&self) -> (r: Vector<T, 4>)
        requires
            N >= 1,
        ensures
            r@ == seq![comp(*self, 3), comp(*self, 0), comp(*self, 0), comp(*self, 2)],
    {
        let r = Vector::<T, 4>::new([self.w(), self.x(), self.x(), self.z()]);
        assert(r@ =~= seq![comp(*self, 3), comp(*self, 0), comp(*self, 0), comp(*self, 2)]);
        r
    }

    /// The vector `(w, x, x, w)` of this vector's components.
    pub fn wxxw(&self) -> (r: Vector<T, 4>)
        requires
            N >= 1,
        ensures
            r@ == seq![comp(*self, 3), comp(*self, 0), comp(*self, 0), comp(*self, 3)],
    {
        let r = Vector::<T, 4>::new([self.w(), self.x(), self.x(), self.w()]);
        assert(r@ =~= seq![comp(*self, 3), comp(*self, 0), comp(*self, 0), comp(*self, 3)]);
        r
    }

    /// The vector `(w, x, y, x)` of this vector's components.
    pub fn wxyx(&self) -> (r: Vector<T, 4>)
        requires
            N >= 2,
        ensures
            r@ == seq![comp(*self, 3), comp(*self, 0), comp(*self, 1), comp(*self, 0)],
    {
        let r = Vector::<T, 4>::new([self.w(), self.x(), self.y(), self.x()]);
        assert(r@ =~= seq![comp(*self, 3), comp(*self, 0), comp(*self, 1), comp(*self, 0)]);
        r
    }

    /// The vector `(w, x, y, y)` of this vector's components.
    pub fn wxyy(&self) -> (r: Vector<T, 4>)
        requires
            N >= 2,
        ensures
            r@ == seq![comp(*self, 3), comp(*self, 0), comp(*self, 1), comp(*self, 1)],
    {
        let r = Vector::<T, 4>::new([self.w(), self.x(), self.y(), self.y()]);
        assert(r@ =~= seq![comp(*self, 3), comp(*self, 0), comp(*self, 1), comp(*self, 1)]);
        r
    }

    /// The vector `(w, x, y, z)` of this vector's components.
    pub fn wxyz(&self) -> (r: Vector<T, 4>)
        requires
            N >= 2,
        ensures
            r@ == seq![comp(*self, 3), comp(*self, 0), comp(*self, 1), comp(*self, 2)],
    {
        let r = Vector::<T, 4>::new([self.w(), self.x(), self.y(), self.z()]);
        assert(r@ =~= seq![comp(*self, 3), comp(*self, 0), comp(*self, 1), comp(*self, 2)]);
        r
    }

    /// The vector `(w, x, y, w)` of this vector's components.
    pub fn wxyw(&self) -> (r: Vector<T, 4>)
        requires
            N >= 2,
        ensures
            r@ == seq![comp(*self, 3), comp(*self, 0), comp(*self, 1), comp(*self, 3)],
    {
        let r = Vector::<T, 4>::new([self.w(), self.x(), self.y(), self.w()]);
        assert(r@ =~= seq![comp(*self, 3), comp(*self, 0), comp(*self, 1), comp(*self, 3)]);
        r
    }

    /// The vector `(w, x, z, x)` of this vector's components.
    pub fn wxzx(&self) -> (r: Vector<T, 4>)
        requires
            N >= 1,
        ensures
            r@ == seq![comp(*self, 3), comp(*self, 0), comp(*self, 2), comp(*self, 0)],
    {
        let r = Vector::<T, 4>::new([self.w(), self.x(), self.z(), self.x()]);
        assert(r@ =~= seq![comp(*self, 3), comp(*self, 0), comp(*self, 2), comp(*self, 0)]);
        r
    }

    /// The vector `(w, x, z, y)` of this vector's components.
    pub fn wxzy(&self) -> (r: Vector<T, 4>)
        requires
            N >= 2,
        ensures
            r@ == seq![comp(*self, 3), comp(*self, 0), comp(*self, 2), comp(*self, 1)],
    {
        let r = Vector::<T, 4>::new([self.w(), self.x(), self.z(), self.y()]);
        assert(r@ =~= seq![comp(*self, 3), comp(*self, 0), comp(*self, 2), comp(*self, 1)]);
        r
    }

    /// The vector `(w, x, z, z)` of this vector's components.
    pub fn wxzz(&self) -> (r: Vector<T, 4>)
        requires
            N >= 1,
        ensures
            r@ == seq![comp(*self, 3), comp(*self, 0), comp(*self, 2), comp(*self, 2)],
    {
        let r = Vector::<T, 4>::new([self.w(), self.x(), self.z(), self.z()]);
        assert(r@ =~= seq![comp(*self, 3), comp(*self, 0), comp(*self, 2), comp(*self, 2)]);
        r
    }

    /// The vector `(w, x, z, w)` of this vector's components.
    pub fn wxzw(&self) -> (r: Vector<T, 4>)
        requires
            N >= 1,
        ensures
            r@ == seq![comp(*self, 3), comp(*self, 0), comp(*self, 2), comp(*self, 3)],
    {
        let r = Vector::<T, 4>::new([self.w(), self.x(), self.z(), self.w()]);
        assert(r@ =~= seq![comp(*self, 3), comp(*self, 0), comp(*self, 2), comp(*self, 3)]);
        r
    }

    /// The vector `(w, x, w, x)` of this vector's components.
    pub fn wxwx(&self) -> (r: Vector<T, 4>)
        requires
            N >= 1,
        ensures
            r@ == seq![comp(*self, 3), comp(*self, 0), comp(*self, 3), comp(*self, 0)],
    {
        let r = Vector::<T, 4>::new([self.w(), self.x(), self.w(), self.x()]);
        assert(r@ =~= seq![comp(*self, 3), comp(*self, 0), comp(*self, 3), comp(*self, 0)]);
        r
    }

    /// The vector `(w, x, w, y)` of this vector's components.
    pub fn wxwy(&self) -> (r: Vector<T, 4>)
        requires
            N >= 2,
        ensures
            r@ == seq![comp(*self, 3), comp(*self, 0), comp(*self, 3), comp(*self, 1)],
    {
        let r = Vector::<T, 4>::new([self.w(), self.x(), self.w(), self.y()]);
        assert(r@ =~= seq![comp(*self, 3), comp(*self, 0), comp(*self, 3), comp(*self, 1)]);
        r
    }

    /// The vector `(w, x, w, z)` of this vector's components.
    pub fn wxwz(&self) -> (r: Vector<T, 4>)
        requires
            N >= 1,
        ensures
            r@ == seq![comp(*self, 3), comp(*self, 0), comp(*self, 3), comp(*self, 2)],
    {
        let r = Vector::<T, 4>::new([self.w(), self.x(), self.w(), self.z()]);
        assert(r@ =~= seq![comp(*self, 3), comp(*self, 0), comp(*self, 3), comp(*self, 2)]);
        r
    }

    /// The vector `(w, x, w, w)` of this vector's components.
    pub fn wxww(&self) -> (r: Vector<T, 4>)
        requires
            N >= 1,
        ensures
            r@ == seq![comp(*self, 3), comp(*self, 0), comp(*self, 3), comp(*self, 3)],
    {
        let r = Vector::<T, 4>::new([self.w(), self.x(), self.w(), self.w()]);
        assert(r@ =~= seq![comp(*self, 3), comp(*self, 0), comp(*self, 3), comp(*self, 3)]);
        r
    }

    /// The vector `(w, y, x, x)` of this vector's components.
    pub fn wyxx(&self) -> (r: Vector<T, 4>)
        requires
            N >= 2,
        ensures
            r@ == seq![comp(*self, 3), comp(*self, 1), comp(*self, 0), comp(*self, 0)],
    {
        let r = Vector::<T, 4>::new([self.w(), self.y(), self.x(), self.x()]);
        assert(r@ =~= seq![comp(*self, 3), comp(*self, 1), comp(*self, 0), comp(*self, 0)]);
        r
    }

    /// The vector `(w, y, x, y)` of this vector's components.
    pub fn wyxy(&self) -> (r: Vector<T, 4>)
        requires
            N >= 2,
        ensures
            r@ == seq![comp(*self, 3), comp(*self, 1), comp(*self, 0), comp(*self, 1)],
    {
        let r = Vector::<T, 4>::new([self.w(), self.y(), self.x(), self.y()]);
        assert(r@ =~= seq![comp(*self, 3), comp(*self, 1), comp(*self, 0), comp(*self, 1)]);
        r
    }

    /// The vector `(w, y, x, z)` of this vector's components.
    pub fn wyxz(&self) -> (r: Vector<T, 4>)
        requires
            N >= 2,
        ensures
            r@ == seq![comp(*self, 3), comp(*self, 1), comp(*self, 0), comp(*self, 2)],
    {
        let r = Vector::<T, 4>::new([self.w(), self.y(), self.x(), self.z()]);
        assert(r@ =~= seq![comp(*self, 3), comp(*self, 1), comp(*self, 0), comp(*self, 2)]);
        r
    }

    /// The vector `(w, y, x, w)` of this vector's components.
    pub fn wyxw(&self) -> (r: Vector<T, 4>)
        requires
            N >= 2,
        ensures
            r@ == seq![comp(*self, 3), comp(*self, 1), comp(*self, 0), comp(*self, 3)],
    {
        let r = Vector::<T, 4>::new([self.w(), self.y(), self.x(), self.w()]);
        assert(r@ =~= seq![comp(*self, 3), comp(*self, 1), comp(*self, 0), comp(*self, 3)]);
        r
    }

    /// The vector `(w, y, y, x)` of this vector's components.
    pub fn wyyx(&self) -> (r: Vector<T, 4>)
        requires
            N >= 2,
        ensures
            r@ == seq![comp(*self, 3), comp(*self, 1), comp(*self, 1), comp(*self, 0)],
    {
        let r = Vector::<T, 4>::new([self.w(), self.y(), self.y(), self.x()]);
        assert(r@ =~= seq![comp(*self, 3), comp(*self, 1), comp(*self, 1), comp(*self, 0)]);
        r
    }

    /// The vector `(w, y, y, y)` of this vector's components.
    pub fn wyyy(&self) -> (r: Vector<T, 4>)
        requires
            N >= 2,
        ensures
            r@ == seq![comp(*self, 3), comp(*self, 1), comp(*self, 1), comp(*self, 1)],
    {
        let r = Vector::<T, 4>::new([self.w(), self.y(), self.y(), self.y()]);
        assert(r@ =~= seq![comp(*self, 3), comp(*self, 1), comp(*self, 1), comp(*self, 1)]);
        r
    }

    /// The vector `(w, y, y, z)` of this vector's components.
    pub fn wyyz(&self) -> (r: Vector<T, 4>)
        requires
            N >= 2,
        ensures
            r@ == seq![comp(*self, 3), comp(*self, 1), comp(*self, 1), comp(*self, 2)],
    {
        let r = Vector::<T, 4>::new([self.w(), self.y(), self.y(), self.z()]);
        assert(r@ =~= seq![comp(*self, 3), comp(*self, 1), comp(*self, 1), comp(*self, 2)]);
        r
    }

    /// The vector `(w, y, y, w)` of this vector's components.
    pub fn wyyw(&self) -> (r: Vector<T, 4>)
        requires
            N >= 2,
        ensures
            r@ == seq![comp(*self, 3), comp(*self, 1), comp(*self, 1), comp(*self, 3)],
    {
        let r = Vector::<T, 4>::new([self.w(), self.y(), self.y(), self.w()]);
        assert(r@ =~= seq![comp(*self, 3), comp(*self, 1), comp(*self, 1), comp(*self, 3)]);
        r
    }

    /// The vector `(w, y, z, x)` of this vector's components.
    pub fn wyzx(&self) -> (r: Vector<T, 4>)
        requires
            N >= 2,
        ensures
            r@ == seq![comp(*self, 3), comp(*self, 1), comp(*self, 2), comp(*self, 0)],
    {
        let r = Vector::<T, 4>::new([self.w(), self.y(), self.z(), self.x()]);
        assert(r@ =~= seq![comp(*self, 3), comp(*self, 1), comp(*self, 2), comp(*self, 0)]);
        r
    }

    /// The vector `(w, y, z, y)` of this vector's components.
    pub fn wyzy(&self) -> (r: Vector<T, 4>)
        requires
            N >= 2,
        ensures
            r@ == seq![comp(*self, 3), comp(*self, 1), comp(*self, 2), comp(*self, 1)],
    {
        let r = Vector::<T, 4>::new([self.w(), self.y(), self.z(), self.y()]);
        assert(r@ =~= seq![comp(*self, 3), comp(*self, 1), comp(*self, 2), comp(*self, 1)]);
        r
    }

    /// The vector `(w, y, z, z)` of this vector's components.
    pub fn wyzz(&self) -> (r: Vector<T, 4>)
        requires
            N >= 2,
        ensures
            r@ == seq![comp(*self, 3), comp(*self, 1), comp(*self, 2), comp(*self, 2)],
    {
        let r = Vector::<T, 4>::new([self.w(), self.y(), self.z(), self.z()]);
        assert(r@ =~= seq![comp(*self, 3), comp(*self, 1), comp(*self, 2), comp(*self, 2)]);
        r
    }

    /// The vector `(w, y, z, w)` of this vector's components.
    pub fn wyzw(&self) -> (r: Vector<T, 4>)
        requires
            N >= 2,
        ensures
            r@ == seq![comp(*self, 3), comp(*self, 1), comp(*self, 2), comp(*self, 3)],
    {
        let r = Vector::<T, 4>::new([self.w(), self.y(), self.z(), self.w()]);
        assert(r@ =~= seq![comp(*self, 3), comp(*self, 1), comp(*self, 2), comp(*self, 3)]);
        r
    }

    /// The vector `(w, y, w, x)` of this vector's components.
    pub fn wywx(&self) -> (r: Vector<T, 4>)
        requires
            N >= 2,
        ensures
            r@ == seq![comp(*self, 3), comp(*self, 1), comp(*self, 3), comp(*self, 0)],
    {
        let r = Vector::<T, 4>::new([self.w(), self.y(), self.w(), self.x()]);
        assert(r@ =~= seq![comp(*self, 3), comp(*self, 1), comp(*self, 3), comp(*self, 0)]);
        r
    }

    /// The vector `(w, y, w, y)` of this vector's components.
    pub fn wywy(&self) -> (r: Vector<T, 4>)
        requires
            N >= 2,
        ensures
            r@ == seq![comp(*self, 3), comp(*self, 1), comp(*self, 3), comp(*self, 1)],
    {
        let r = Vector::<T, 4>::new([self.w(), self.y(), self.w(), self.y()]);
        assert(r@ =~= seq![comp(*self, 3), comp(*self, 1), comp(*self, 3), comp(*self, 1)]);
        r
    }

    /// The vector `(w, y, w, z)` of this vector's components.
    pub fn wywz(&self) -> (r: Vector<T, 4>)
        requires
            N >= 2,
        ensures
            r@ == seq![comp(*self, 3), comp(*self, 1), comp(*self, 3), comp(*self, 2)],
    {
        let r = Vector::<T, 4>::new([self.w(), self.y(), self.w(), self.z()]);
        assert(r@ =~= seq![comp(*self, 3), comp(*self, 1), comp(*self, 3), comp(*self, 2)]);
        r
    }

    /// The vector `(w, y, w, w)` of this vector's components.
    pub fn wyww(&self) -> (r: Vector<T, 4>)
        requires
            N >= 2,
        ensures
            r@ == seq![comp(*self, 3), comp(*self, 1), comp(*self, 3), comp(*self, 3)],
    {
        let r = Vector::<T, 4>::new([self.w(), self.y(), self.w(), self.w()]);
        assert(r@ =~= seq![comp(*self, 3), comp(*self, 1), comp(*self, 3), comp(*self, 3)]);
        r
    }

    /// The vector `(w, z, x, x)` of this vector's components.
    pub fn wzxx(&self) -> (r: Vector<T, 4>)
        requires
            N >= 1,
        ensures
            r@ == seq![comp(*self, 3), comp(*self, 2), comp(*self, 0), comp(*self, 0)],
    {
        let r = Vector::<T, 4>::new([self.w(), self.z(), self.x(), self.x()]);
        assert(r@ =~= seq![comp(*self, 3), comp(*self, 2), comp(*self, 0), comp(*self, 0)]);
        r
    }

    /// The vector `(w, z, x, y)` of this vector's components.
    pub fn wzxy(&self) -> (r: Vector<T, 4>)
        requires
            N >= 2,
        ensures
            r@ == seq![comp(*self, 3), comp(*self, 2), comp(*self, 0), comp(*self, 1)],
    {
        let r = Vector::<T, 4>::new([self.w(), self.z(), self.x(), self.y()]);
        assert(r@ =~= seq![comp(*self, 3), comp(*self, 2), comp(*self, 0), comp(*self, 1)]);
        r
    }

    /// The vector `(w, z, x, z)` of this vector's components.
    pub fn wzxz(&self) -> (r: Vector<T, 4>)
        requires
            N >= 1,
        ensures
            r@ == seq![comp(*self, 3), comp(*self, 2), comp(*self, 0), comp(*self, 2)],
    {
        let r = Vector::<T, 4>::new([self.w(), self.z(), self.x(), self.z()]);
        assert(r@ =~= seq![comp(*self, 3), comp(*self, 2), comp(*self, 0), comp(*self, 2)]);
        r
    }

    /// The vector `(w, z, x, w)` of this vector's components.
    pub fn wzxw(&self) -> (r: Vector<T, 4>)
        requires
            N >= 1,
        ensures
            r@ == seq![comp(*self, 3), comp(*self, 2), comp(*self, 0), comp(*self, 3)],
    {
        let r = Vector::<T, 4>::new([self.w(), self.z(), self.x(), self.w()]);
        assert(r@ =~= seq![comp(*self, 3), comp(*self, 2), comp(*self, 0), comp(*self, 3)]);
        r
    }

    /// The vector `(w, z, y, x)` of this vector's components.
    pub fn wzyx(&self) -> (r: Vector<T, 4>)
        requires
            N >= 2,
        ensures
            r@ == seq![comp(*self, 3), comp(*self, 2), comp(*self, 1), comp(*self, 0)],
    {
        let r = Vector::<T, 4>::new([self.w(), self.z(), self.y(), self.x()]);
        assert(r@ =~= seq![comp(*self, 3), comp(*self, 2), comp(*self, 1), comp(*self, 0)]);
        r
    }

    /// The vector `(w, z, y, y)` of this vector's components.
    pub fn wzyy(&self) -> (r: Vector<T, 4>)
        requires
            N >= 2,
        ensures
            r@ == seq![comp(*self, 3), comp(*self, 2), comp(*self, 1), comp(*self, 1)],
    {
        let r = Vector::<T, 4>::new([self.w(), self.z(), self.y(), self.y()]);
        assert(r@ =~= seq![comp(*self, 3), comp(*self, 2), comp(*self, 1), comp(*self, 1)]);
        r
    }

    /// The vector `(w, z, y, z)` of this vector's components.
    pub fn wzyz(&self) -> (r: Vector<T, 4>)
        requires
            N >= 2,
        ensures
            r@ == seq![comp(*self, 3), comp(*self, 2), comp(*self, 1), comp(*self, 2)],
    {
        let r = Vector::<T, 4>::new([self.w(), self.z(), self.y(), self.z()]);
        assert(r@ =~= seq![comp(*self, 3), comp(*self, 2), comp(*self, 1), comp(*self, 2)]);
        r
    }

    /// The vector `(w, z, y, w)` of this vector's components.
    pub fn wzyw(&self) -> (r: Vector<T, 4>)
        requires
            N >= 2,
        ensures
            r@ == seq![comp(*self, 3), comp(*self, 2), comp(*self, 1), comp(*self, 3)],
    {
        let r = Vector::<T, 4>::new([self.w(), self.z(), self.y(), self.w()]);
        assert(r@ =~= seq![comp(*self, 3), comp(*self, 2), comp(*self, 1), comp(*self, 3)]);
        r
    }

    /// The vector `(w, z, z, x)` of this vector's components.
    pub fn wzzx(&self) -> (r: Vector<T, 4>)
        requires
            N >= 1,
        ensures
            r@ == seq![comp(*self, 3), comp(*self, 2), comp(*self, 2), comp(*self, 0)],
    {
        let r = Vector::<T, 4>::new([self.w(), self.z(), self.z(), self.x()]);
        assert(r@ =~= seq![comp(*self, 3), comp(*self, 2), comp(*self, 2), comp(*self, 0)]);
        r
    }

    /// The vector `(w, z, z, y)` of this vector's components.
    pub fn wzzy(&self) -> (r: Vector<T, 4>)
        requires
            N >= 2,
        ensures
            r@ == seq![comp(*self, 3), comp(*self, 2), comp(*self, 2), comp(*self, 1)],
    {
        let r = Vector::<T, 4>::new([self.w(), self.z(), self.z(), self.y()]);
        assert(r@ =~= seq![comp(*self, 3), comp(*self, 2), comp(*self, 2), comp(*self, 1)]);
        r
    }

    /// The vector `(w, z, z, z)` of this vector's components.
    pub fn wzzz(&self) -> (r: Vector<T, 4>)
        ensures
            r@ == seq![comp(*self, 3), comp(*self, 2), comp(*self, 2), comp(*self, 2)],
    {
        let r = Vector::<T, 4>::new([self.w(), self.z(), self.z(), self.z()]);
        assert(r@ =~= seq![comp(*self, 3), comp(*self, 2), comp(*self, 2), comp(*self, 2)]);
        r
    }

    /// The vector `(w, z, z, w)` of this vector's components.
    pub fn wzzw(&self) -> (r: Vector<T, 4>)
        ensures
            r@ == seq![comp(*self, 3), comp(*self, 2), comp(*self, 2), comp(*self, 3)],
    {
        let r = Vector::<T, 4>::new([self.w(), self.z(), self.z(), self.w()]);
        assert(r@ =~= seq![comp(*self, 3), comp(*self, 2), comp(*self, 2), comp(*self, 3)]);
        r
    }

    /// The vector `(w, z, w, x)` of this vector's components.
    pub fn wzwx(&self) -> (r: Vector<T, 4>)
        requires
            N >= 1,
        ensures
            r@ == seq![comp(*self, 3), comp(*self, 2), comp(*self, 3), comp(*self, 0)],
    {
        let r = Vector::<T, 4>::new([self.w(), self.z(), self.w(), self.x()]);
        assert(r@ =~= seq![comp(*self, 3), comp(*self, 2), comp(*self, 3), comp(*self, 0)]);
        r
    }

    /// The vector `(w, z, w, y)` of this vector's components.
    pub fn wzwy(&self) -> (r: Vector<T, 4>)
        requires
            N >= 2,
        ensures
            r@ == seq![comp(*self, 3), comp(*self, 2), comp(*self, 3), comp(*self, 1)],
    {
        let r = Vector::<T, 4>::new([self.w(), self.z(), self.w(), self.y()]);
        assert(r@ =~= seq![comp(*self, 3), comp(*self, 2), comp(*self, 3), comp(*self, 1)]);
        r
    }

    /// The vector `(w, z, w, z)` of this vector's components.
    pub fn wzwz(&self) -> (r: Vector<T, 4>)
        ensures
            r@ == seq![comp(*self, 3), comp(*self, 2), comp(*self, 3), comp(*self, 2)],
    {
        let r = Vector::<T, 4>::new([self.w(), self.z(), self.w(), self.z()]);
        assert(r@ =~= seq![comp(*self, 3), comp(*self, 2), comp(*self, 3), comp(*self, 2)]);
        r
    }

    /// The vector `(w, z, w, w)` of this vector's components.
    pub fn wzww(&self) -> (r: Vector<T, 4>)
        ensures
            r@ == seq![comp(*self, 3), comp(*self, 2), comp(*self, 3), comp(*self, 3)],
    {
        let r = Vector::<T, 4>::new([self.w(), self.z(), self.w(), self.w()]);
        assert(r@ =~= seq![comp(*self, 3), comp(*self, 2), comp(*self, 3), comp(*self, 3)]);
        r
    }

    /// The vector `(w, w, x, x)` of this vector's components.
    pub fn wwxx(&self) -> (r: Vector<T, 4>)
        requires
            N >= 1,
        ensures
            r@ == seq![comp(*self, 3), comp(*self, 3), comp(*self, 0), comp(*self, 0)],
    {
        let r = Vector::<T, 4>::new([self.w(), self.w(), self.x(), self.x()]);
        assert(r@ =~= seq![comp(*self, 3), comp(*self, 3), comp(*self, 0), comp(*self, 0)]);
        r
    }

    /// The vector `(w, w, x, y)` of this vector's components.
    pub fn wwxy(&self) -> (r: Vector<T, 4>)
        requires
            N >= 2,
        ensures
            r@ == seq![comp(*self, 3), comp(*self, 3), comp(*self, 0), comp(*self, 1)],
    {
        let r = Vector::<T, 4>::new([self.w(), self.w(), self.x(), self.y()]);
        assert(r@ =~= seq![comp(*self, 3), comp(*self, 3), comp(*self, 0), comp(*self, 1)]);
        r
    }

    /// The vector `(w, w, x, z)` of this vector's components.
    pub fn wwxz(&self) -> (r: Vector<T, 4>)
        requires
            N >= 1,
        ensures
            r@ == seq![comp(*self, 3), comp(*self, 3), comp(*self, 0), comp(*self, 2)],
    {
        let r = Vector::<T, 4>::new([self.w(), self.w(), self.x(), self.z()]);
        assert(r@ =~= seq![comp(*self, 3), comp(*self, 3), comp(*self, 0), comp(*self, 2)]);
        r
    }

    /// The vector `(w, w, x, w)` of this vector's components.
    pub fn wwxw(&self) -> (r: Vector<T, 4>)
        requires
            N >= 1,
        ensures
            r@ == seq![comp(*self, 3), comp(*self, 3), comp(*self, 0), comp(*self, 3)],
    {
        let r = Vector::<T, 4>::new([self.w(), self.w(), self.x(), self.w()]);
        assert(r@ =~= seq![comp(*self, 3), comp(*self, 3), comp(*self, 0), comp(*self, 3)]);
        r
    }

    /// The vector `(w, w, y, x)` of this vector's components.
    pub fn wwyx(&self) -> (r: Vector<T, 4>)
        requires
            N >= 2,
        ensures
            r@ == seq![comp(*self, 3), comp(*self, 3), comp(*self, 1), comp(*self, 0)],
    {
        let r = Vector::<T, 4>::new([self.w(), self.w(), self.y(), self.x()]);
        assert(r@ =~= seq![comp(*self, 3), comp(*self, 3), comp(*self, 1), comp(*self, 0)]);
        r
    }

    /// The vector `(w, w, y, y)` of this vector's components.
    pub fn wwyy(&self) -> (r: Vector<T, 4>)
        requires
            N >= 2,
        ensures
            r@ == seq![comp(*self, 3), comp(*self, 3), comp(*self, 1), comp(*self, 1)],
    {
        let r = Vector::<T, 4>::new([self.w(), self.w(), self.y(), self.y()]);
        assert(r@ =~= seq![comp(*self, 3), comp(*self, 3), comp(*self, 1), comp(*self, 1)]);
        r
    }

    /// The vector `(w, w, y, z)` of this vector's components.
    pub fn wwyz(&self) -> (r: Vector<T, 4>)
        requires
            N >= 2,
        ensures
            r@ == seq![comp(*self, 3), comp(*self, 3), comp(*self, 1), comp(*self, 2)],
    {
        let r = Vector::<T, 4>::new([self.w(), self.w(), self.y(), self.z()]);
        assert(r@ =~= seq![comp(*self, 3), comp(*self, 3), comp(*self, 1), comp(*self, 2)]);
        r
    }

    /// The vector `(w, w, y, w)` of this vector's components.
    pub fn wwyw(&self) -> (r: Vector<T, 4>)
        requires
            N >= 2,
        ensures
            r@ == seq![comp(*self, 3), comp(*self, 3), comp(*self, 1), comp(*self, 3)],
    {
        let r = Vector::<T, 4>::new([self.w(), self.w(), self.y(), self.w()]);
        assert(r@ =~= seq![comp(*self, 3), comp(*self, 3), comp(*self, 1), comp(*self, 3)]);
        r
    }

    /// The vector `(w, w, z, x)` of this vector's components.
    pub fn wwzx(&self) -> (r: Vector<T, 4>)
        requires
            N >= 1,
        ensures
            r@ == seq![comp(*self, 3), comp(*self, 3), comp(*self, 2), comp(*self, 0)],
    {
        let r = Vector::<T, 4>::new([self.w(), self.w(), self.z(), self.x()]);
        assert(r@ =~= seq![comp(*self, 3), comp(*self, 3), comp(*self, 2), comp(*self, 0)]);
        r
    }

    /// The vector `(w, w, z, y)` of this vector's components.
    pub fn wwzy(&self) -> (r: Vector<T, 4>)
        requires
            N >= 2,
        ensures
            r@ == seq![comp(*self, 3), comp(*self, 3), comp(*self, 2), comp(*self, 1)],
    {
        let r = Vector::<T, 4>::new([self.w(), self.w(), self.z(), self.y()]);
        assert(r@ =~= seq![comp(*self, 3), comp(*self, 3), comp(*self, 2), comp(*self, 1)]);
        r
    }

    /// The vector `(w, w, z, z)` of this vector's components.
    pub fn wwzz(&self) -> (r: Vector<T, 4>)
        ensures
            r@ == seq![comp(*self, 3), comp(*self, 3), comp(*self, 2), comp(*self, 2)],
    {
        let r = Vector::<T, 4>::new([self.w(), self.w(), self.z(), self.z()]);
        assert(r@ =~= seq![comp(*self, 3), comp(*self, 3), comp(*self, 2), comp(*self, 2)]);
        r
    }

    /// The vector `(w, w, z, w)` of this vector's components.
    pub fn wwzw(&self) -> (r: Vector<T, 4>)
        ensures
            r@ == seq![comp(*self, 3), comp(*self, 3), comp(*self, 2), comp(*self, 3)],
    {
        let r = Vector::<T, 4>::new([self.w(), self.w(), self.z(), self.w()]);
        assert(r@ =~= seq![comp(*self, 3), comp(*self, 3), comp(*self, 2), comp(*self, 3)]);
        r
    }

    /// The vector `(w, w, w, x)` of this vector's components.
    pub fn wwwx(&self) -> (r: Vector<T, 4>)
        requires
            N >= 1,
        ensures
            r@ == seq![comp(*self, 3), comp(*self, 3), comp(*self, 3), comp(*self, 0)],
    {
        let r = Vector::<T, 4>::new([self.w(), self.w(), self.w(), self.x()]);
        assert(r@ =~= seq![comp(*self, 3), comp(*self, 3), comp(*self, 3), comp(*self, 0)]);
        r
    }

    /// The vector `(w, w, w, y)` of this vector's components.
    pub fn wwwy(&self) -> (r: Vector<T, 4>)
        requires
            N >= 2,
        ensures
            r@ == seq![comp(*self, 3), comp(*self, 3), comp(*self, 3), comp(*self, 1)],
    {
        let r = Vector::<T, 4>::new([self.w(), self.w(), self.w(), self.y()]);
        assert(r@ =~= seq![comp(*self, 3), comp(*self, 3), comp(*self, 3), comp(*self, 1)]);
        r
    }

    /// The vector `(w, w, w, z)` of this vector's components.
    pub fn wwwz(&self) -> (r: Vector<T, 4>)
        ensures
            r@ == seq![comp(*self, 3), comp(*self, 3), comp(*self, 3), comp(*self, 2)],
    {
        let r = Vector::<T, 4>::new([self.w(), self.w(), self.w(), self.z()]);
        assert(r@ =~= seq![comp(*self, 3), comp(*self, 3), comp(*self, 3), comp(*self, 2)]);
        r
    }

    /// The vector `(w, w, w, w)` of this vector's components.
    pub fn wwww(&self) -> (r: Vector<T, 4>)
        ensures
            r@ == seq![comp(*self, 3), comp(*self, 3), comp(*self, 3), comp(*self, 3)],
    {
        let r = Vector::<T, 4>::new([self.w(), self.w(), self.w(), self.w()]);
        assert(r@ =~= seq![comp(*self, 3), comp(*self, 3), comp(*self, 3), comp(*self, 3)]);
        r
    }
}

} // verus!
