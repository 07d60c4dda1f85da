//! Plain-value carriers for everything the pipeline hands to the GPU.
//!
//! The renderer never computes on the numeric contents of a uniform: values
//! are read out of instance parameters and bound to a compiled program
//! unchanged.  Each single-precision value is therefore carried by its raw
//! IEEE-754 bit pattern, which keeps every contract about "which value ends
//! up in which uniform" exact.

use vstd::prelude::*;

verus! {

/// A single-precision value, carried by its bit pattern.
#[derive(Clone, Copy, Debug, PartialEq, Eq, Structural)]
pub struct Scalar {
    pub bits: u32,
}

/// Bit pattern of 1.0 in single precision.
pub const ONE_BITS: u32 = 0x3f80_0000;

impl Scalar {
    /// The value 0.0.
    pub fn zero() -> (r: Scalar)
        ensures
            r == (Scalar { bits: 0 }),
    {
        Scalar { bits: 0 }
    }

    /// The value 1.0.
    pub fn one() -> (r: Scalar)
        ensures
            r == (Scalar { bits: ONE_BITS }),
    {
        Scalar { bits: ONE_BITS }
    }
}

/// A three-component vector.
#[derive(Clone, Copy, Debug, PartialEq, Eq, Structural)]
pub struct Vec3 {
    pub x: Scalar,
    pub y: Scalar,
    pub z: Scalar,
}

impl Vec3 {
    pub open spec fn spec_zeros() -> Vec3 {
        Vec3 { x: Scalar { bits: 0 }, y: Scalar { bits: 0 }, z: Scalar { bits: 0 } }
    }

    /// The zero vector; also the coordinates of the origin point.
    pub fn zeros() -> (r: Vec3)
        ensures
            r == Vec3::spec_zeros(),
    {
        Vec3 { x: Scalar::zero(), y: Scalar::zero(), z: Scalar::zero() }
    }
}

/// A four-component vector; colors are carried as (r, g, b, a).
#[derive(Clone, Copy, Debug, PartialEq, Eq, Structural)]
pub struct Vec4 {
    pub x: Scalar,
    pub y: Scalar,
    pub z: Scalar,
    pub w: Scalar,
}

impl Vec4 {
    pub open spec fn spec_zeros() -> Vec4 {
        Vec4 {
            x: Scalar { bits: 0 },
            y: Scalar { bits: 0 },
            z: Scalar { bits: 0 },
            w: Scalar { bits: 0 },
        }
    }

    pub open spec fn spec_ones() -> Vec4 {
        Vec4 {
            x: Scalar { bits: ONE_BITS },
            y: Scalar { bits: ONE_BITS },
            z: Scalar { bits: ONE_BITS },
            w: Scalar { bits: ONE_BITS },
        }
    }

    pub fn zeros() -> (r: Vec4)
        ensures
            r == Vec4::spec_zeros(),
    {
        Vec4 { x: Scalar::zero(), y: Scalar::zero(), z: Scalar::zero(), w: Scalar::zero() }
    }

    /// All components 1.0; as a color this is opaque white.
    pub fn ones() -> (r: Vec4)
        ensures
            r == Vec4::spec_ones(),
    {
        Vec4 { x: Scalar::one(), y: Scalar::one(), z: Scalar::one(), w: Scalar::one() }
    }
}

/// A 4x4 matrix, stored as four columns.
#[derive(Clone, Copy, Debug, PartialEq, Eq, Structural)]
pub struct Mat4 {
    pub c0: Vec4,
    pub c1: Vec4,
    pub c2: Vec4,
    pub c3: Vec4,
}

impl Mat4 {
    pub open spec fn spec_identity() -> Mat4 {
        Mat4 {
            c0: Vec4 {
                x: Scalar { bits: ONE_BITS },
                y: Scalar { bits: 0 },
                z: Scalar { bits: 0 },
                w: Scalar { bits: 0 },
            },
            c1: Vec4 {
                x: Scalar { bits: 0 },
                y: Scalar { bits: ONE_BITS },
                z: Scalar { bits: 0 },
                w: Scalar { bits: 0 },
            },
            c2: Vec4 {
                x: Scalar { bits: 0 },
                y: Scalar { bits: 0 },
                z: Scalar { bits: ONE_BITS },
                w: Scalar { bits: 0 },
            },
            c3: Vec4 {
                x: Scalar { bits: 0 },
                y: Scalar { bits: 0 },
                z: Scalar { bits: 0 },
                w: Scalar { bits: ONE_BITS },
            },
        }
    }

    /// The identity transform.
    pub fn identity() -> (r: Mat4)
        ensures
            r == Mat4::spec_identity(),
    {
        Mat4 {
            c0: Vec4 { x: Scalar::one(), y: Scalar::zero(), z: Scalar::zero(), w: Scalar::zero() },
            c1: Vec4 { x: Scalar::zero(), y: Scalar::one(), z: Scalar::zero(), w: Scalar::zero() },
            c2: Vec4 { x: Scalar::zero(), y: Scalar::zero(), z: Scalar::one(), w: Scalar::zero() },
            c3: Vec4 { x: Scalar::zero(), y: Scalar::zero(), z: Scalar::zero(), w: Scalar::one() },
        }
    }
}

/// One typed value bound to a uniform name for the duration of a draw call.
#[derive(Clone, Copy, Debug, PartialEq, Eq, Structural)]
pub enum UniformValue {
    Float(Scalar),
    Vec3(Vec3),
    Vec4(Vec4),
    Mat4(Mat4),
    Bool(bool),
}

/// A uniform name together with the value bound to it.
#[derive(Clone, Debug, PartialEq)]
pub struct UniformBinding {
    pub name: String,
    pub value: UniformValue,
}

impl View for UniformBinding {
    type V = (Seq<char>, UniformValue);

    open spec fn view(&self) -> (Seq<char>, UniformValue) {
        (self.name@, self.value)
    }
}

/// An ordered set of uniform bindings, visited front to back when the set is
/// bound for a draw call.  Names are not deduplicated: with a duplicate name
/// the binding visited last wins, matching the behaviour of the underlying
/// graphics interface.
#[derive(Clone, Debug)]
pub struct UniformList {
    pub bindings: Vec<UniformBinding>,
}

impl View for UniformList {
    type V = Seq<(Seq<char>, UniformValue)>;

    open spec fn view(&self) -> Seq<(Seq<char>, UniformValue)> {
        self.bindings@.map_values(|b: UniformBinding| b@)
    }
}

impl UniformList {
    /// An empty binding set.
    pub fn new() -> (r: UniformList)
        ensures
            r@ == Seq::<(Seq<char>, UniformValue)>::empty(),
    {
        let r = UniformList { bindings: Vec::new() };
        proof {
            assert(r@ =~= Seq::<(Seq<char>, UniformValue)>::empty());
        }
        r
    }

    pub fn len(&self) -> (n: usize)
        ensures
            n == self@.len(),
    {
        self.bindings.len()
    }

    pub fn get(&self, i: usize) -> (b: &UniformBinding)
        requires
            i < self@.len(),
        ensures
            b@ == self@[i as int],
    {
        &self.bindings[i]
    }

    /// Appends one binding at the back of the visitation order.
    pub fn push(&mut self, name: String, value: UniformValue)
        ensures
            final(self)@ == old(self)@.push((name@, value)),
    {
        let ghost n = name@;
        self.bindings.push(UniformBinding { name, value });
        proof {
            assert(self@ =~= old(self)@.push((n, value)));
        }
    }

    /// A fresh list holding the same bindings in the same order.
    pub fn duplicate(&self) -> (r: UniformList)
        ensures
            r@ == self@,
    {
        let mut out = UniformList::new();
        out.extend_from(self);
        proof {
            assert(Seq::<(Seq<char>, UniformValue)>::empty() + self@ =~= self@);
        }
        out
    }

    /// Appends every binding of `other`, keeping its order.
    pub fn extend_from(&mut self, other: &UniformList)
        ensures
            final(self)@ == old(self)@ + other@,
    {
        let ghost base = self@;
        let mut i: usize = 0;
        while i < other.bindings.len()
            invariant
                i <= other.bindings.len(),
                self@ == base + other@.take(i as int),
            decreases other.bindings.len() - i,
        {
            let b = &other.bindings[i];
            let name = b.name.clone();
            self.push(name, b.value);
            proof {
                assert(other@.take(i + 1 as int).drop_last() =~= other@.take(i as int));
                assert(other@.take(i + 1 as int) =~= other@.take(i as int).push(other@[i as int]));
                assert(base + other@.take(i + 1 as int) =~= (base + other@.take(
                    i as int,
                )).push(other@[i as int]));
            }
            i = i + 1;
        }
        proof {
            assert(other@.take(other@.len() as int) =~= other@);
        }
    }
}

} // verus!
