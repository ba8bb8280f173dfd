use vstd::prelude::*;
use vstd::pervasive::VecAdditionalExecFns;
use vstd::pervasive::cloned;
use core::marker::PhantomData;

verus! {

/// The reactive state store: an ordered, growable sequence of typed,
/// independently mutable cells. A cell is created once and lives as long
/// as the store; slots are never removed or reused, so a handle stays
/// valid forever. The store is threaded explicitly into every reader and
/// writer rather than held behind a process-wide reference.
pub struct Runtime<T> {
    cells: Vec<T>,
}

impl<T> View for Runtime<T> {
    type V = Seq<T>;

    closed spec fn view(&self) -> Seq<T> {
        self.cells@
    }
}

impl<T> Runtime<T> {
    /// A store with no cells.
    pub fn new() -> (r: Runtime<T>)
        ensures
            r@ == Seq::<T>::empty(),
    {
        Runtime { cells: Vec::new() }
    }

    /// The number of cells created so far.
    pub fn len(&self) -> (n: usize)
        ensures
            n == self@.len(),
    {
        self.cells.len()
    }

    /// Append a new cell holding `value` and hand back a handle to it; the
    /// handle points at `value` in the grown store, and every existing cell
    /// is untouched.
    pub fn create_state(&mut self, value: T) -> (s: State<T>)
        ensures
            final(self)@ == old(self)@.push(value),
            s.id == old(self)@.len(),
            s.read_from(final(self)@) == value,
    {
        let id = self.cells.len();
        self.cells.push(value);
        State { id, marker: PhantomData }
    }
}

impl<T> Default for Runtime<T> {
    fn default() -> (r: Runtime<T>)
        ensures
            r@ == Seq::<T>::empty(),
    {
        Runtime::new()
    }
}

/// A typed handle to one cell of a [`Runtime`]: nothing but the slot's
/// index and the cell's type. Handles are freely copyable; mutation goes
/// through the shared cell, not the handle.
pub struct State<T> {
    pub id: usize,
    pub marker: PhantomData<T>,
}

impl<T> Clone for State<T> {
    fn clone(&self) -> (r: Self)
        ensures
            r == *self,
    {
        State { id: self.id, marker: PhantomData }
    }
}

impl<T> Copy for State<T> {

}

impl<T> State<T> {
    /// The value this handle denotes in a store whose cells are `cells`.
    pub open spec fn read_from(self, cells: Seq<T>) -> T {
        cells[self.id as int]
    }

    /// The handle points at an existing cell of `rt`.
    pub open spec fn is_valid_for(self, rt: &Runtime<T>) -> bool {
        self.id < rt@.len()
    }

    /// Replace the cell's value; every other cell is untouched.
    pub fn set(&self, rt: &mut Runtime<T>, value: T)
        requires
            self.is_valid_for(old(rt)),
        ensures
            final(rt)@ == old(rt)@.update(self.id as int, value),
            self.read_from(final(rt)@) == value,
    {
        rt.cells.set(self.id, value);
    }
}

impl<T: Clone> State<T> {
    /// Read the cell: returns a clone of the current value.
    pub fn get(&self, rt: &Runtime<T>) -> (r: T)
        requires
            self.is_valid_for(rt),
        ensures
            cloned(self.read_from(rt@), r),
    {
        let cell = &rt.cells[self.id];
        cell.clone()
    }
}

/// A cell read back immediately after its creation holds the initial value:
/// the handle returned for a store with cells `cells` denotes `v` in the
/// grown store.
pub proof fn lemma_create_then_read<T>(cells: Seq<T>, s: State<T>, v: T)
    requires
        s.id == cells.len(),
    ensures
        s.read_from(cells.push(v)) == v,
{
}

/// Last write wins: after two writes to the same cell, the cell holds the
/// second value, with no merging.
pub proof fn lemma_last_write_wins<T>(cells: Seq<T>, s: State<T>, v1: T, v2: T)
    requires
        s.id < cells.len(),
    ensures
        s.read_from(cells.update(s.id as int, v1).update(s.id as int, v2)) == v2,
{
}

/// Two distinct handles never alias: writing through one leaves the value
/// the other denotes unchanged.
pub proof fn lemma_states_do_not_alias<T>(cells: Seq<T>, a: State<T>, b: State<T>, v: T)
    requires
        a.id != b.id,
        a.id < cells.len(),
        b.id < cells.len(),
    ensures
        b.read_from(cells.update(a.id as int, v)) == b.read_from(cells),
{
}

} // verus!
