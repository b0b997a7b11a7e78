use vstd::prelude::*;

use crate::error::CwtError;

verus! {

/// The coefficient matrix of a transform: one row per scale, in scale order, each row as
/// long as the input signal. Rows are appended while the transform runs; a complete result
/// holds `num_scales` rows.
#[derive(Debug)]
pub struct CwtResult<T> {
    scales: usize,
    samples: usize,
    data: Vec<Vec<T>>,
}

impl<T> View for CwtResult<T> {
    type V = Seq<Seq<T>>;

    /// The rows appended so far.
    closed spec fn view(&self) -> Seq<Seq<T>> {
        self.data@.map_values(|row: Vec<T>| row@)
    }
}

impl<T> CwtResult<T> {
    /// The number of rows the matrix is made for.
    pub closed spec fn spec_num_scales(&self) -> nat {
        self.scales as nat
    }

    /// The length of every row.
    pub closed spec fn spec_num_samples(&self) -> nat {
        self.samples as nat
    }

    /// No more rows than scales, and every row of the same length.
    pub open spec fn well_formed(&self) -> bool {
        &&& self@.len() <= self.spec_num_scales()
        &&& forall|y: int| 0 <= y < self@.len() ==> (#[trigger] self@[y]).len() == self.spec_num_samples()
    }

    /// The matrix holds all of its rows.
    pub open spec fn complete(&self) -> bool {
        self@.len() == self.spec_num_scales()
    }

    /// An empty matrix for `scales` rows of `samples` coefficients each.
    pub fn new(scales: usize, samples: usize) -> (r: CwtResult<T>)
        ensures
            r.spec_num_scales() == scales,
            r.spec_num_samples() == samples,
            r@ == Seq::<Seq<T>>::empty(),
            r.well_formed(),
    {
        let r = CwtResult { scales, samples, data: Vec::new() };
        assert(r@ =~= Seq::<Seq<T>>::empty());
        r
    }

    /// Gets the number of scales.
    pub fn num_scales(&self) -> (r: usize)
        ensures
            r == self.spec_num_scales(),
    {
        self.scales
    }

    /// Gets the number of samples per scale.
    pub fn num_samples(&self) -> (r: usize)
        ensures
            r == self.spec_num_samples(),
    {
        self.samples
    }

    /// The rows appended so far.
    pub fn rows(&self) -> (r: &Vec<Vec<T>>)
        ensures
            r@.len() == self@.len(),
            forall|y: int| 0 <= y < r@.len() ==> (#[trigger] r@[y])@ == self@[y],
    {
        &self.data
    }

    /// The number of rows appended so far.
    pub fn len(&self) -> (r: usize)
        ensures
            r == self@.len(),
    {
        self.data.len()
    }

    /// Whether every scale has its row.
    pub fn is_complete(&self) -> (r: bool)
        requires
            self.well_formed(),
        ensures
            r == self.complete(),
    {
        self.data.len() == self.scales
    }

    /// Appends the row of the next scale.
    pub fn push_row(&mut self, value: Vec<T>)
        requires
            old(self).well_formed(),
            old(self)@.len() < old(self).spec_num_scales(),
            value@.len() == old(self).spec_num_samples(),
        ensures
            final(self)@ == old(self)@.push(value@),
            final(self).well_formed(),
            final(self).spec_num_scales() == old(self).spec_num_scales(),
            final(self).spec_num_samples() == old(self).spec_num_samples(),
    {
        let ghost before = self@;
        self.data.push(value);
        assert(self@ =~= before.push(value@));
        assert forall|y: int| 0 <= y < self@.len() implies (#[trigger] self@[y]).len()
            == self.spec_num_samples() by {
            if y < before.len() {
                assert(self@[y] == before[y]);
            }
        }
    }

    /// Removes every row, keeping the dimensions.
    pub fn clear(&mut self)
        requires
            old(self).well_formed(),
        ensures
            final(self).well_formed(),
            final(self)@ == Seq::<Seq<T>>::empty(),
            final(self).spec_num_scales() == old(self).spec_num_scales(),
            final(self).spec_num_samples() == old(self).spec_num_samples(),
    {
        self.data.clear();
        assert(self@ =~= Seq::<Seq<T>>::empty());
    }

    /// Row `y`. Fails with `IndexOutOfRange` unless that row has been appended.
    pub fn row(&self, y: usize) -> (r: Result<&Vec<T>, CwtError>)
        ensures
            (r is Ok) == (y < self@.len()),
            r matches Ok(row) ==> row@ == self@[y as int],
            r matches Err(e) ==> e == CwtError::IndexOutOfRange,
    {
        if y < self.data.len() {
            Ok(&self.data[y])
        } else {
            Err(CwtError::IndexOutOfRange)
        }
    }

    /// Coefficient `x` of row `y`. Fails with `IndexOutOfRange` unless row `y` has been
    /// appended and `x` is below the row length.
    pub fn get(&self, y: usize, x: usize) -> (r: Result<&T, CwtError>)
        requires
            self.well_formed(),
        ensures
            (r is Ok) == (y < self@.len() && x < self.spec_num_samples()),
            r matches Ok(v) ==> *v == self@[y as int][x as int],
            r matches Err(e) ==> e == CwtError::IndexOutOfRange,
    {
        if y < self.data.len() && x < self.samples {
            assert(self@[y as int].len() == self.spec_num_samples());
            Ok(&self.data[y][x])
        } else {
            Err(CwtError::IndexOutOfRange)
        }
    }

    /// Hands the rows out, consuming the matrix.
    pub fn into_rows(self) -> (r: Vec<Vec<T>>)
        ensures
            r@.len() == self@.len(),
            forall|y: int| 0 <= y < r@.len() ==> (#[trigger] r@[y])@ == self@[y],
    {
        self.data
    }
}

} // verus!
