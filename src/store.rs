use vstd::prelude::*;

verus! {

broadcast use vstd::std_specs::vec::group_vec_axioms;

/// Foreign storage for instance records. A record is placed once by
/// `allocate` and released once by `finalize`; each handle owns at most one
/// record, and a released handle stays empty.
pub struct ForeignStore<T> {
    cells: Vec<Option<T>>,
}

/// The cells after finalizing handle `h`: a handle in range becomes empty, any
/// other leaves the store as it was.
pub open spec fn finalized<T>(cells: Seq<Option<T>>, h: int) -> Seq<Option<T>> {
    if 0 <= h < cells.len() {
        cells.update(h, None)
    } else {
        cells
    }
}

/// Whether finalizing `h` releases a record.
pub open spec fn releases<T>(cells: Seq<Option<T>>, h: int) -> bool {
    0 <= h < cells.len() && cells[h] is Some
}

impl<T> View for ForeignStore<T> {
    type V = Seq<Option<T>>;

    closed spec fn view(&self) -> Seq<Option<T>> {
        self.cells@
    }
}

/// Finalizing the same handle twice releases nothing the second time and
/// leaves the store as the first time left it.
pub proof fn lemma_finalize_idempotent<T>(cells: Seq<Option<T>>, h: int)
    ensures
        !releases(finalized(cells, h), h),
        finalized(finalized(cells, h), h) == finalized(cells, h),
{
    assert(finalized(finalized(cells, h), h) =~= finalized(cells, h));
}

impl<T> ForeignStore<T> {
    pub fn new() -> (r: ForeignStore<T>)
        ensures
            r@ == Seq::<Option<T>>::empty(),
    {
        ForeignStore { cells: Vec::new() }
    }

    /// Places `record` in new storage and returns its handle.
    pub fn allocate(&mut self, record: T) -> (h: usize)
        requires
            old(self)@.len() < usize::MAX,
        ensures
            h == old(self)@.len(),
            final(self)@ == old(self)@.push(Some(record)),
    {
        let h = self.cells.len();
        self.cells.push(Some(record));
        h
    }

    /// The record behind handle `h`, if it is still there.
    pub fn get(&self, h: usize) -> (r: Option<&T>)
        ensures
            match r {
                Some(x) => h < self@.len() && self@[h as int] == Some(*x),
                None => h >= self@.len() || self@[h as int] is None,
            },
    {
        if h < self.cells.len() {
            match &self.cells[h] {
                Some(x) => Some(x),
                None => None,
            }
        } else {
            None
        }
    }

    /// Releases the record behind handle `h`, if there is one, and empties the
    /// handle; an empty or unknown handle is left alone. Returns whether a
    /// record was released.
    pub fn finalize(&mut self, h: usize) -> (released: bool)
        ensures
            released == releases(old(self)@, h as int),
            final(self)@ == finalized(old(self)@, h as int),
    {
        if h < self.cells.len() {
            let released = self.cells[h].is_some();
            self.cells.set(h, None);
            released
        } else {
            false
        }
    }
}

} // verus!
