use vstd::prelude::*;

verus! {

/// An immutable, fixed-arity vector of parameter scalars, one order code per
/// optimized dimension. Coordinate `i` always belongs to dimension `i`: the
/// pairing is positional and must never vary between the ask that produced
/// the vector and the tell that consumes it.
pub struct ParameterVector {
    values: Vec<u64>,
}

impl View for ParameterVector {
    type V = Seq<u64>;

    closed spec fn view(&self) -> Seq<u64> {
        self.values@
    }
}

impl ParameterVector {
    /// Wraps per-dimension scalars, given in dimension order, as a vector.
    pub fn new(values: Vec<u64>) -> (r: ParameterVector)
        ensures
            r@ == values@,
    {
        ParameterVector { values }
    }

    /// The number of dimensions.
    pub fn len(&self) -> (r: usize)
        ensures
            r == self@.len(),
    {
        self.values.len()
    }

    /// The scalar that belongs to dimension `i`.
    pub fn value(&self, i: usize) -> (r: u64)
        requires
            i < self@.len(),
        ensures
            r == self@[i as int],
    {
        self.values[i]
    }
}

impl Clone for ParameterVector {
    /// Copies coordinate by coordinate, so the copy is known to carry
    /// exactly the same scalars in the same dimension order.
    fn clone(&self) -> (r: Self)
        ensures
            r@ == self@,
    {
        let mut values: Vec<u64> = Vec::new();
        let mut i: usize = 0;
        while i < self.values.len()
            invariant
                i <= self.values@.len(),
                values@ == self.values@.take(i as int),
            decreases self.values@.len() - i,
        {
            assert(self.values@.take((i + 1) as int) =~= self.values@.take(i as int).push(
                self.values@[i as int],
            ));
            values.push(self.values[i]);
            i = i + 1;
        }
        assert(values@ =~= self.values@);
        ParameterVector { values }
    }
}

} // verus!
