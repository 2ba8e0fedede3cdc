//! A generic double-buffer for any `Clone` type.
//!
//! A `DoubleBuffered<T>` holds two values of `T`: a read side, which is what
//! readers observe, and a write side, which is where changes are staged.
//! Changes made to the write side stay invisible to readers until `update`
//! publishes them by cloning the write side into the read side.
use vstd::prelude::*;

pub mod laws;

verus! {

/// Something that is double-buffered. The buffered type must be `Clone`, so
/// that the read side can be refreshed from the write side on `update`.
pub struct DoubleBuffered<T: Clone> {
    rbuf: T,
    wbuf: T,
}

impl<T: Clone> DoubleBuffered<T> {
    /// The value that readers currently observe.
    pub closed spec fn read_side(&self) -> T {
        self.rbuf
    }

    /// The value that is currently being staged.
    pub closed spec fn write_side(&self) -> T {
        self.wbuf
    }

    /// Initialises both sides with clones of `value`.
    pub fn new(value: T) -> (r: Self)
        ensures
            cloned(value, r.read_side()),
            cloned(value, r.write_side()),
    {
        DoubleBuffered { rbuf: value.clone(), wbuf: value.clone() }
    }

    /// Builds each side with its own call of `constructor`. The two calls
    /// are independent: a constructor that does not always return the same
    /// value may leave the two sides different from the start.
    pub fn construct_with<F: Fn() -> T>(constructor: F) -> (r: Self)
        requires
            constructor.requires(()),
        ensures
            constructor.ensures((), r.read_side()),
            constructor.ensures((), r.write_side()),
    {
        DoubleBuffered { rbuf: constructor(), wbuf: constructor() }
    }

    /// The read side, which changes only when something is published.
    pub fn read(&self) -> (r: &T)
        ensures
            *r == self.read_side(),
    {
        &self.rbuf
    }

    /// The write side, for staging changes. What is done through the
    /// returned reference reaches the write side only; readers see it after
    /// the next `update`.
    pub fn write(&mut self) -> (w: &mut T)
        ensures
            *w == old(self).write_side(),
            final(self).write_side() == *final(w),
            final(self).read_side() == old(self).read_side(),
    {
        &mut self.wbuf
    }

    /// Publishes the write side: the read side becomes a clone of it. The
    /// write side itself is left as it was.
    pub fn update(&mut self)
        ensures
            cloned(old(self).write_side(), final(self).read_side()),
            final(self).write_side() == old(self).write_side(),
    {
        self.rbuf = self.wbuf.clone();
    }

    /// Stages `value` on the write side and publishes it at once.
    pub fn upsert(&mut self, value: T)
        ensures
            final(self).write_side() == value,
            cloned(value, final(self).read_side()),
    {
        *self.write() = value;
        self.update();
    }

    /// Gives up the buffer and returns its read side, without publishing
    /// what was staged.
    pub fn unbuffer_read(self) -> (r: T)
        ensures
            r == self.read_side(),
    {
        self.rbuf
    }

    /// Gives up the buffer and returns its write side.
    pub fn unbuffer_write(self) -> (r: T)
        ensures
            r == self.write_side(),
    {
        self.wbuf
    }
}

impl<T: Clone> std::ops::Deref for DoubleBuffered<T> {
    type Target = T;

    /// Reading through the buffer reads its read side, as `read` does.
    fn deref(&self) -> (r: &T)
        ensures
            *r == self.read_side(),
    {
        self.read()
    }
}

impl<T: Clone> std::ops::DerefMut for DoubleBuffered<T> {
    /// Writing through the buffer writes its write side, as `write` does.
    fn deref_mut(&mut self) -> (w: &mut T)
        ensures
            *w == old(self).write_side(),
            final(self).write_side() == *final(w),
            final(self).read_side() == old(self).read_side(),
    {
        self.write()
    }
}

impl<T: Default + Clone> Default for DoubleBuffered<T> {
    /// Builds each side with its own call of `T::default`.
    fn default() -> (r: Self)
        ensures
            call_ensures(T::default, (), r.read_side()),
            call_ensures(T::default, (), r.write_side()),
    {
        Self::construct_with(T::default)
    }
}

impl<I, T: std::ops::Index<I> + Clone> std::ops::Index<I> for DoubleBuffered<T> {
    type Output = <T as std::ops::Index<I>>::Output;

    /// Indexing the buffer indexes its read side.
    fn index(&self, index: I) -> (r: &Self::Output)
        ensures
            call_ensures(T::index, (&self.read_side(), index), r),
    {
        &self.rbuf[index]
    }
}

/// The buffer may be indexed wherever its read side may.
impl<I, T: std::ops::Index<I> + Clone> vstd::std_specs::core::IndexSpecImpl<I> for DoubleBuffered<T> {
    open spec fn index_req(&self, index: &I) -> bool {
        vstd::std_specs::core::IndexSpec::<I>::index_req(&self.read_side(), index)
    }
}

impl<I, T: std::ops::IndexMut<I> + Clone> std::ops::IndexMut<I> for DoubleBuffered<T> {
    /// Indexing the buffer mutably indexes its write side, and is allowed
    /// wherever indexing the write side is; the read side is left alone.
    fn index_mut(&mut self, index: I) -> (w: &mut Self::Output)
        requires
            vstd::std_specs::core::IndexSpec::<I>::index_req(&old(self).write_side(), &index),
        ensures
            final(self).read_side() == old(self).read_side(),
    {
        index_mut_of(&mut self.wbuf, index)
    }
}

/// Relies on `std::ops::IndexMut::index_mut` of the buffered type, which
/// hands out a mutable reference into `container`. It is called only where
/// indexing `container` is allowed (a `Vec` panics on an index past its
/// end). The trait says nothing of which element the reference designates,
/// so nothing is stated of it.
#[verifier::external_body]
fn index_mut_of<I, T: std::ops::IndexMut<I>>(container: &mut T, index: I) -> (w: &mut T::Output)
    requires
        vstd::std_specs::core::IndexSpec::<I>::index_req(&*old(container), &index),
{
    container.index_mut(index)
}

} // verus!
