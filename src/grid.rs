//! A caller-owned three-dimensional grid of binary32 values in row-major
//! order, with dimensions `(frames, height, width)`.

use vstd::prelude::*;

verus! {

/// The number of elements that a grid of dimensions `d` holds.
pub open spec fn element_count(d: (usize, usize, usize)) -> int {
    d.0 as int * d.1 as int * d.2 as int
}

/// A copy of the elements of `s`.
pub fn copy_of<T: Copy>(s: &[T]) -> (r: Vec<T>)
    ensures
        r@ == s@,
{
    let mut r: Vec<T> = Vec::new();
    let mut i: usize = 0;
    while i < s.len()
        invariant
            i <= s@.len(),
            r@ == s@.subrange(0, i as int),
        decreases s@.len() - i,
    {
        r.push(s[i]);
        i = i + 1;
        proof {
            assert(r@ =~= s@.subrange(0, i as int));
        }
    }
    proof {
        assert(r@ =~= s@);
    }
    r
}

/// The element count of dimensions `dim`, or `None` when it does not fit in
/// `usize`.
pub fn checked_count(dim: (usize, usize, usize)) -> (r: Option<usize>)
    ensures
        r is Some <==> element_count(dim) <= usize::MAX,
        r matches Some(n) ==> n == element_count(dim),
{
    let (f, h, w) = dim;
    if w == 0 {
        proof {
            assert(element_count(dim) == 0) by (nonlinear_arith)
                requires
                    w == 0,
                    element_count(dim) == f as int * h as int * w as int,
            ;
        }
        return Some(0);
    }
    match f.checked_mul(h) {
        Some(fh) => {
            let r = fh.checked_mul(w);
            proof {
                assert(element_count(dim) == fh as int * w as int) by (nonlinear_arith)
                    requires
                        fh as int == f as int * h as int,
                        element_count(dim) == f as int * h as int * w as int,
                ;
            }
            r
        },
        None => {
            proof {
                assert(element_count(dim) > usize::MAX) by (nonlinear_arith)
                    requires
                        f as int * h as int > usize::MAX,
                        element_count(dim) == f as int * h as int * w as int,
                        w >= 1,
                ;
            }
            None
        },
    }
}

/// A grid of binary32 bit patterns. Its element count always equals the
/// product of its dimensions.
#[derive(Debug, Clone)]
pub struct Grid {
    frames: usize,
    height: usize,
    width: usize,
    values: Vec<u32>,
}

impl Grid {
    /// The dimensions `(frames, height, width)`.
    pub closed spec fn dims(&self) -> (usize, usize, usize) {
        (self.frames, self.height, self.width)
    }

    /// The elements in row-major order.
    pub closed spec fn elems(&self) -> Seq<u32> {
        self.values@
    }

    /// The grid holds exactly as many elements as its dimensions imply.
    pub open spec fn wf(&self) -> bool {
        self.elems().len() == element_count(self.dims())
    }

    /// The grid of dimensions `dim` holding `values` in row-major order, or
    /// `None` when the number of values does not match the dimensions.
    pub fn from_shape_vec(dim: (usize, usize, usize), values: Vec<u32>) -> (r: Option<Grid>)
        ensures
            r is Some <==> values@.len() == element_count(dim),
            r matches Some(g) ==> g.wf() && g.dims() == dim && g.elems() == values@,
    {
        let len = values.len();
        match checked_count(dim) {
            Some(n) => {
                if n == len {
                    Some(Grid { frames: dim.0, height: dim.1, width: dim.2, values })
                } else {
                    None
                }
            },
            None => None,
        }
    }

    /// The grid of dimensions `dim` whose elements are all `0.0`, or `None`
    /// when its element count does not fit in `usize`.
    pub fn zeros(dim: (usize, usize, usize)) -> (r: Option<Grid>)
        ensures
            r is Some <==> element_count(dim) <= usize::MAX,
            r matches Some(g) ==> g.wf() && g.dims() == dim && forall|i: int|
                0 <= i < g.elems().len() ==> g.elems()[i] == 0,
    {
        let n = match checked_count(dim) {
            Some(n) => n,
            None => {
                return None;
            },
        };
        let mut values: Vec<u32> = Vec::new();
        let mut i: usize = 0;
        while i < n
            invariant
                i <= n,
                values@.len() == i,
                forall|j: int| 0 <= j < i ==> values@[j] == 0,
            decreases n - i,
        {
            values.push(0);
            i = i + 1;
        }
        Some(Grid { frames: dim.0, height: dim.1, width: dim.2, values })
    }

    /// The dimensions `(frames, height, width)`.
    pub fn dim(&self) -> (r: (usize, usize, usize))
        ensures
            r == self.dims(),
    {
        (self.frames, self.height, self.width)
    }

    /// The number of elements.
    pub fn len(&self) -> (r: usize)
        ensures
            r == self.elems().len(),
    {
        self.values.len()
    }

    /// The elements in row-major order.
    pub fn values(&self) -> (r: &[u32])
        ensures
            r@ == self.elems(),
    {
        self.values.as_slice()
    }

    /// Replaces every element, keeping the dimensions.
    pub fn assign(&mut self, values: Vec<u32>)
        requires
            values@.len() == old(self).elems().len(),
        ensures
            final(self).dims() == old(self).dims(),
            final(self).elems() == values@,
    {
        self.values = values;
    }
}

} // verus!
