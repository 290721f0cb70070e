//! A growable buffer laid out as the runtime's own dynamic array: the start of
//! the data, the end of the data, the end of the storage.

use vstd::prelude::*;
use crate::Il2CppError;
use crate::Il2CppResult;

verus! {

/// The number of slots a buffer of `capacity` slots has once it was grown,
/// doubling each time, until `needed` elements fit. A buffer without storage
/// takes `needed` slots at once.
pub open spec fn grown_capacity(capacity: nat, needed: nat) -> nat
    decreases
        (if needed > capacity {
            needed - capacity
        } else {
            0
        }),
{
    if needed <= capacity {
        capacity
    } else if capacity == 0 {
        needed
    } else {
        grown_capacity(2 * capacity, needed)
    }
}

/// The number of slots after one growth step: twice as many, or `baseline`
/// where there were none.
pub open spec fn doubled_capacity(capacity: nat, baseline: nat) -> nat {
    if capacity == 0 {
        baseline
    } else {
        2 * capacity
    }
}

/// The number of slots after a push into a buffer of `len` elements and
/// `capacity` slots.
pub open spec fn capacity_after_push(len: nat, capacity: nat) -> nat {
    if len < capacity {
        capacity
    } else {
        doubled_capacity(capacity, 1)
    }
}

/// The number of slots after a request for room for `additional` more elements.
pub open spec fn capacity_after_reserve(len: nat, capacity: nat, additional: nat) -> nat {
    if len + additional <= capacity {
        capacity
    } else {
        doubled_capacity(capacity, additional)
    }
}

/// Growing never stops short of what is needed, nor below what there was.
pub proof fn lemma_grown_capacity_bounds(capacity: nat, needed: nat)
    ensures
        grown_capacity(capacity, needed) >= capacity,
        grown_capacity(capacity, needed) >= needed,
    decreases
        (if needed > capacity {
            needed - capacity
        } else {
            0
        }),
{
    if needed > capacity && capacity != 0 {
        lemma_grown_capacity_bounds(2 * capacity, needed);
    }
}

/// A growable buffer. Its elements lie between the start and the end of the
/// data; the slots between the end of the data and the end of the storage are
/// free.
#[derive(Debug)]
pub struct CppVector<T> {
    items: Vec<T>,
    slots: usize,
}

impl<T> View for CppVector<T> {
    type V = Seq<T>;

    closed spec fn view(&self) -> Seq<T> {
        self.items@
    }
}

impl<T> CppVector<T> {
    #[verifier::type_invariant]
    spec fn within_storage(&self) -> bool {
        self.items@.len() <= self.slots
    }

    /// The number of slots between the start and the end of the storage.
    pub closed spec fn spec_capacity(&self) -> nat {
        self.slots as nat
    }

    /// A buffer without storage.
    pub fn new() -> (r: Self)
        ensures
            r@ == Seq::<T>::empty(),
            r.spec_capacity() == 0,
    {
        CppVector { items: Vec::new(), slots: 0 }
    }

    /// An empty buffer with storage for `cap` elements.
    pub fn with_capacity(cap: usize) -> (r: Self)
        ensures
            r@ == Seq::<T>::empty(),
            r.spec_capacity() == cap,
    {
        CppVector { items: Vec::with_capacity(cap), slots: cap }
    }

    /// Takes the elements and the number of slots out of the buffer, which is
    /// left without storage.
    fn take_storage(&mut self) -> (r: (Vec<T>, usize))
        ensures
            r.0@ == old(self)@,
            r.1 == old(self).spec_capacity(),
            r.0@.len() <= r.1,
            final(self)@ == Seq::<T>::empty(),
            final(self).spec_capacity() == 0,
    {
        proof {
            use_type_invariant(&*self);
        }
        let mut taken: CppVector<T> = CppVector { items: Vec::new(), slots: 0 };
        core::mem::swap(self, &mut taken);
        (taken.items, taken.slots)
    }

    /// Moves the elements into storage of twice as many slots, or of `baseline`
    /// slots where there was no storage.
    fn realloc(&mut self, baseline: usize)
        requires
            doubled_capacity(old(self).spec_capacity(), baseline as nat) <= usize::MAX,
            old(self)@.len() <= doubled_capacity(old(self).spec_capacity(), baseline as nat),
        ensures
            final(self)@ == old(self)@,
            final(self).spec_capacity() == doubled_capacity(
                old(self).spec_capacity(),
                baseline as nat,
            ),
    {
        let (mut items, current_capacity) = self.take_storage();
        let new_capacity: usize = if current_capacity == 0 {
            baseline
        } else {
            current_capacity * 2
        };
        let mut moved: Vec<T> = Vec::with_capacity(new_capacity);
        moved.append(&mut items);
        assert(moved@ =~= old(self)@);
        *self = CppVector { items: moved, slots: new_capacity };
    }

    /// Appends `val`, growing the storage first where no slot is free.
    pub fn push(&mut self, val: T)
        requires
            capacity_after_push(old(self)@.len(), old(self).spec_capacity()) <= usize::MAX,
        ensures
            final(self)@ == old(self)@.push(val),
            final(self).spec_capacity() == capacity_after_push(
                old(self)@.len(),
                old(self).spec_capacity(),
            ),
    {
        proof {
            use_type_invariant(&*self);
        }
        if self.items.len() >= self.slots {
            self.realloc(1);
        }
        let (mut items, slots) = self.take_storage();
        items.push(val);
        *self = CppVector { items, slots };
    }

    /// Makes room for `additional` more elements by at most one growth step.
    pub fn reserve(&mut self, additional: usize)
        requires
            capacity_after_reserve(
                old(self)@.len(),
                old(self).spec_capacity(),
                additional as nat,
            ) <= usize::MAX,
        ensures
            final(self)@ == old(self)@,
            final(self).spec_capacity() == capacity_after_reserve(
                old(self)@.len(),
                old(self).spec_capacity(),
                additional as nat,
            ),
    {
        proof {
            use_type_invariant(&*self);
        }
        if additional > self.slots - self.items.len() {
            self.realloc(additional);
        }
    }

    /// Appends the elements of `slice` in order, growing the storage first,
    /// step by step, until all of them fit.
    pub fn extend_from_slice(&mut self, slice: &[T]) where T: Copy
        requires
            grown_capacity(old(self).spec_capacity(), old(self)@.len() + slice@.len())
                <= usize::MAX,
        ensures
            final(self)@ == old(self)@ + slice@,
            final(self).spec_capacity() == grown_capacity(
                old(self).spec_capacity(),
                old(self)@.len() + slice@.len(),
            ),
    {
        proof {
            use_type_invariant(&*self);
        }
        let count: usize = slice.len();
        let ghost needed: nat = old(self)@.len() + slice@.len();
        while count > self.slots - self.items.len()
            invariant
                self.items@.len() <= self.slots,
                self@ == old(self)@,
                count == slice@.len(),
                needed == old(self)@.len() + slice@.len(),
                grown_capacity(self.spec_capacity(), needed) == grown_capacity(
                    old(self).spec_capacity(),
                    needed,
                ),
                grown_capacity(self.spec_capacity(), needed) <= usize::MAX,
            decreases
                (if needed > self.spec_capacity() {
                    needed - self.spec_capacity()
                } else {
                    0
                }),
        {
            proof {
                lemma_grown_capacity_bounds(
                    doubled_capacity(self.spec_capacity(), count as nat),
                    needed,
                );
            }
            self.realloc(count);
            proof {
                use_type_invariant(&*self);
            }
        }
        let (mut items, slots) = self.take_storage();
        let mut copied: usize = 0;
        while copied < count
            invariant
                copied <= count,
                count == slice@.len(),
                items@ == old(self)@ + slice@.subrange(0, copied as int),
                old(self)@.len() + count <= slots,
            decreases count - copied,
        {
            items.push(slice[copied]);
            copied += 1;
            assert(items@ =~= old(self)@ + slice@.subrange(0, copied as int));
        }
        assert(slice@.subrange(0, count as int) =~= slice@);
        *self = CppVector { items, slots };
    }

    /// A buffer that holds a copy of each element of `slice`, in order, with
    /// no free slot.
    pub fn from_slice(slice: &[T]) -> (r: Self) where T: Copy
        ensures
            r@ == slice@,
            r.spec_capacity() == slice@.len(),
    {
        let count: usize = slice.len();
        let mut items: Vec<T> = Vec::with_capacity(count);
        let mut copied: usize = 0;
        while copied < count
            invariant
                copied <= count,
                count == slice@.len(),
                items@ == slice@.subrange(0, copied as int),
            decreases count - copied,
        {
            items.push(slice[copied]);
            copied += 1;
            assert(items@ =~= slice@.subrange(0, copied as int));
        }
        assert(slice@.subrange(0, count as int) =~= slice@);
        CppVector { items, slots: count }
    }

    /// A buffer that holds a clone of each element of `slice`, in order, with
    /// no free slot.
    pub fn clone_from_slice(slice: &[T]) -> (r: Self) where T: Clone
        ensures
            r@.len() == slice@.len(),
            forall|i: int| 0 <= i < slice@.len() ==> cloned::<T>(slice@[i], #[trigger] r@[i]),
            r.spec_capacity() == slice@.len(),
    {
        let count: usize = slice.len();
        let mut items: Vec<T> = Vec::with_capacity(count);
        let mut copied: usize = 0;
        while copied < count
            invariant
                copied <= count,
                count == slice@.len(),
                items@.len() == copied,
                forall|i: int| 0 <= i < copied ==> cloned::<T>(slice@[i], #[trigger] items@[i]),
            decreases count - copied,
        {
            items.push(slice[copied].clone());
            copied += 1;
        }
        CppVector { items, slots: count }
    }

    /// The elements, in order.
    pub fn as_slice(&self) -> (r: &[T])
        ensures
            r@ == self@,
    {
        self.items.as_slice()
    }

    /// The element at `index`, or `OutOfBounds` where the buffer has no such
    /// element. The buffer stays as it is either way.
    pub fn index(&self, index: usize) -> (r: Il2CppResult<&T>)
        ensures
            index < self@.len() ==> r == Ok::<&T, Il2CppError>(&self@[index as int]),
            index >= self@.len() ==> r == Err::<&T, Il2CppError>(Il2CppError::OutOfBounds),
    {
        if index < self.items.len() {
            Ok(&self.items[index])
        } else {
            Err(Il2CppError::OutOfBounds)
        }
    }

    /// The elements from `start` up to, not including, `end`, or `OutOfBounds`
    /// where the range is not one of the buffer.
    pub fn range(&self, start: usize, end: usize) -> (r: Il2CppResult<&[T]>)
        ensures
            start <= end <= self@.len() ==> r is Ok && r->Ok_0@ == self@.subrange(
                start as int,
                end as int,
            ),
            !(start <= end <= self@.len()) ==> r == Err::<&[T], Il2CppError>(
                Il2CppError::OutOfBounds,
            ),
    {
        if start <= end && end <= self.items.len() {
            Ok(vstd::slice::slice_subrange(self.items.as_slice(), start, end))
        } else {
            Err(Il2CppError::OutOfBounds)
        }
    }

    /// The element at `index`, to be changed in place, or `OutOfBounds`
    /// where the buffer has no such element. What is written to the element
    /// is what the buffer holds at `index` from then on; the other elements
    /// and the storage stay as they are.
    pub fn index_mut(&mut self, index: usize) -> (r: Il2CppResult<&mut T>)
        ensures
            index < old(self)@.len() ==> r is Ok && *r->Ok_0 == old(self)@[index as int]
                && final(self)@ == old(self)@.update(index as int, *final(r->Ok_0)),
            index >= old(self)@.len() ==> r is Err && r->Err_0 is OutOfBounds && *final(self)
                == *old(self),
            final(self).spec_capacity() == old(self).spec_capacity(),
        no_unwind
    {
        proof {
            use_type_invariant(&*self);
        }
        if index < self.items.len() {
            Ok(&mut self.items[index])
        } else {
            Err(Il2CppError::OutOfBounds)
        }
    }

    /// A cursor over the elements, with all of them still to come.
    pub fn iter(&self) -> (r: CppVectorIterator<'_, T>)
        ensures
            r@ == self@,
    {
        let r = CppVectorIterator { vector: self, front: 0, back: self.items.len() };
        assert(self@.subrange(0, self@.len() as int) =~= self@);
        r
    }

    /// A cursor over the elements, with all of them still to come, each to
    /// be changed in place.
    pub fn iter_mut(&mut self) -> (r: CppVectorIteratorMut<'_, T>)
        ensures
            *r.vector == *old(self),
            r.front == 0,
            r.back == old(self)@.len(),
            r.wf(),
            r.remaining() == old(self)@,
            *final(r.vector) == *final(self),
    {
        let back: usize = self.items.len();
        CppVectorIteratorMut { vector: self, front: 0, back }
    }

    /// The number of elements.
    pub fn len(&self) -> (n: usize)
        ensures
            n == self@.len(),
    {
        self.items.len()
    }

    /// The three marks of the buffer, counted in elements from the start of
    /// the data: the start of the data, the end of the data, the end of the
    /// storage. They never cross.
    pub fn marks(&self) -> (r: (usize, usize, usize))
        ensures
            r.0 == 0,
            r.1 == self@.len(),
            r.2 == self.spec_capacity(),
            r.0 <= r.1 <= r.2,
    {
        proof {
            use_type_invariant(self);
        }
        (0, self.items.len(), self.slots)
    }

    /// The number of slots.
    pub fn capacity(&self) -> (n: usize)
        ensures
            n == self.spec_capacity(),
            self@.len() <= n,
    {
        proof {
            use_type_invariant(self);
        }
        self.slots
    }
}

impl<T> Default for CppVector<T> {
    fn default() -> (r: Self)
        ensures
            r@ == Seq::<T>::empty(),
            r.spec_capacity() == 0,
    {
        CppVector::new()
    }
}

/// A cursor over the elements of a buffer that hands them out from the front
/// and from the back, each one once.
pub struct CppVectorIterator<'a, T> {
    vector: &'a CppVector<T>,
    front: usize,
    back: usize,
}

impl<'a, T> View for CppVectorIterator<'a, T> {
    type V = Seq<T>;

    /// The elements still to come, in the buffer's order.
    closed spec fn view(&self) -> Seq<T> {
        self.vector@.subrange(self.front as int, self.back as int)
    }
}

impl<'a, T> CppVectorIterator<'a, T> {
    #[verifier::type_invariant]
    spec fn within_buffer(&self) -> bool {
        self.front <= self.back <= self.vector@.len()
    }

    /// The first of the elements still to come, if there is one.
    pub fn next(&mut self) -> (r: Option<&'a T>)
        ensures
            old(self)@.len() == 0 ==> r.is_none() && final(self)@ == old(self)@,
            old(self)@.len() > 0 ==> r == Some(&old(self)@.first()) && final(self)@ == old(
                self,
            )@.drop_first(),
    {
        proof {
            use_type_invariant(&*self);
        }
        if self.front < self.back {
            let vector: &'a CppVector<T> = self.vector;
            let element: &'a T = &vector.items[self.front];
            self.front = self.front + 1;
            assert(self@ =~= old(self)@.drop_first());
            Some(element)
        } else {
            None
        }
    }

    /// The last of the elements still to come, if there is one.
    pub fn next_back(&mut self) -> (r: Option<&'a T>)
        ensures
            old(self)@.len() == 0 ==> r.is_none() && final(self)@ == old(self)@,
            old(self)@.len() > 0 ==> r == Some(&old(self)@.last()) && final(self)@ == old(
                self,
            )@.drop_last(),
    {
        proof {
            use_type_invariant(&*self);
        }
        if self.front < self.back {
            let vector: &'a CppVector<T> = self.vector;
            self.back = self.back - 1;
            let element: &'a T = &vector.items[self.back];
            assert(self@ =~= old(self)@.drop_last());
            Some(element)
        } else {
            None
        }
    }
}

/// A cursor over the elements of a buffer that hands them out from the front
/// and from the back, each one once, to be changed in place.
pub struct CppVectorIteratorMut<'a, T> {
    /// The buffer that the cursor runs over.
    pub vector: &'a mut CppVector<T>,
    /// The position of the first element still to come.
    pub front: usize,
    /// The position behind the last element still to come.
    pub back: usize,
}

impl<'a, T> CppVectorIteratorMut<'a, T> {
    /// Whether the element at the front is still to come.
    pub open spec fn has_front(&self) -> bool {
        self.front < self.back && self.front < self.vector@.len()
    }

    /// Whether the element before the back is still to come.
    pub open spec fn has_back(&self) -> bool {
        self.front < self.back && self.back <= self.vector@.len()
    }

    /// Whether the cursor lies within its buffer, as every cursor that a
    /// buffer hands out does.
    pub open spec fn wf(&self) -> bool {
        self.front <= self.back <= self.vector@.len()
    }

    /// The elements still to come, as the buffer holds them now.
    pub open spec fn remaining(&self) -> Seq<T>
        recommends
            self.front <= self.back <= self.vector@.len(),
    {
        self.vector@.subrange(self.front as int, self.back as int)
    }

    /// The first of the elements still to come, if there is one, to be
    /// changed in place. What is written to it is what the buffer holds in
    /// its place from then on.
    pub fn next(&mut self) -> (r: Option<&mut T>)
        ensures
            !old(self).has_front() ==> r is None && *final(self).vector == *old(self).vector
                && final(self).front == old(self).front,
            old(self).has_front() ==> r is Some
                && *r->Some_0 == old(self).vector@[old(self).front as int],
            old(self).has_front() ==> final(self).vector@ == old(self).vector@.update(
                old(self).front as int,
                *final(r->Some_0),
            ),
            old(self).has_front() ==> final(self).front == old(self).front + 1,
            final(self).back == old(self).back,
            final(self).vector.spec_capacity() == old(self).vector.spec_capacity(),
            *final(final(self).vector) == *final(old(self).vector),
            old(self).wf() ==> final(self).wf(),
            old(self).wf() && old(self).has_front() ==> final(self).remaining()
                == old(self).remaining().drop_first(),
    {
        if self.front < self.back {
            let at: usize = self.front;
            match self.vector.index_mut(at) {
                Ok(element) => {
                    self.front = at + 1;
                    Some(element)
                },
                Err(_) => None,
            }
        } else {
            None
        }
    }

    /// The last of the elements still to come, if there is one, to be
    /// changed in place. What is written to it is what the buffer holds in
    /// its place from then on.
    pub fn next_back(&mut self) -> (r: Option<&mut T>)
        ensures
            !old(self).has_back() ==> r is None && *final(self).vector == *old(self).vector
                && final(self).back == old(self).back,
            old(self).has_back() ==> r is Some && *r->Some_0 == old(self).vector@[old(self).back
                - 1],
            old(self).has_back() ==> final(self).vector@ == old(self).vector@.update(
                old(self).back - 1,
                *final(r->Some_0),
            ),
            old(self).has_back() ==> final(self).back == old(self).back - 1,
            final(self).front == old(self).front,
            final(self).vector.spec_capacity() == old(self).vector.spec_capacity(),
            *final(final(self).vector) == *final(old(self).vector),
            old(self).wf() ==> final(self).wf(),
            old(self).wf() && old(self).has_back() ==> final(self).remaining()
                == old(self).remaining().drop_last(),
    {
        if self.front < self.back {
            let at: usize = self.back - 1;
            match self.vector.index_mut(at) {
                Ok(element) => {
                    self.back = at;
                    Some(element)
                },
                Err(_) => None,
            }
        } else {
            None
        }
    }
}

/// The elements of a buffer that held `start` after each of `values` was
/// pushed, in order.
pub open spec fn pushed_all<T>(start: Seq<T>, values: Seq<T>) -> Seq<T>
    decreases values.len(),
{
    if values.len() == 0 {
        start
    } else {
        pushed_all(start.push(values.first()), values.drop_first())
    }
}

/// The number of slots of a buffer of `len` elements and `capacity` slots
/// after `count` pushes.
pub open spec fn capacity_after_pushes(len: nat, capacity: nat, count: nat) -> nat
    decreases count,
{
    if count == 0 {
        capacity
    } else {
        capacity_after_pushes(len + 1, capacity_after_push(len, capacity), (count - 1) as nat)
    }
}

/// Pushing keeps what the buffer held and puts the new elements behind it in
/// the order of the pushes.
pub proof fn lemma_pushed_all_appends<T>(start: Seq<T>, values: Seq<T>)
    ensures
        pushed_all(start, values) == start + values,
    decreases values.len(),
{
    if values.len() == 0 {
        assert(start + values =~= start);
    } else {
        lemma_pushed_all_appends(start.push(values.first()), values.drop_first());
        assert(start.push(values.first()) + values.drop_first() =~= start + values);
    }
}

/// Pushing any number of elements into an empty buffer gives a buffer of
/// that many elements: the pushed ones, in the order of the pushes.
pub proof fn lemma_pushes_from_empty<T>(values: Seq<T>)
    ensures
        pushed_all(Seq::<T>::empty(), values) == values,
        pushed_all(Seq::<T>::empty(), values).len() == values.len(),
{
    lemma_pushed_all_appends(Seq::<T>::empty(), values);
    assert(Seq::<T>::empty() + values =~= values);
}

/// A push leaves every element that was there in its place, whether or not
/// the storage had to grow for it, and puts the new element behind them; the
/// storage then has room for all. A push into a full buffer with storage
/// makes the storage exactly twice as large, a push into a buffer with a
/// free slot leaves it as large as it was.
pub proof fn lemma_push_keeps_prefix<T>(items: Seq<T>, capacity: nat, val: T)
    requires
        items.len() <= capacity,
    ensures
        items.push(val).subrange(0, items.len() as int) == items,
        items.push(val)[items.len() as int] == val,
        items.push(val).len() == items.len() + 1,
        items.push(val).len() <= capacity_after_push(items.len(), capacity),
        items.len() == capacity ==> capacity_after_push(items.len(), capacity) > capacity,
        items.len() == capacity && capacity > 0 ==> capacity_after_push(items.len(), capacity) == 2
            * capacity,
        items.len() < capacity ==> capacity_after_push(items.len(), capacity) == capacity,
{
    assert(items.push(val).subrange(0, items.len() as int) =~= items);
}

/// A growth step keeps the elements and makes the storage exactly twice as
/// large; storage of no slots gets `baseline` slots. A request for room that
/// is there leaves the storage as it is.
pub proof fn lemma_growth_doubles(len: nat, capacity: nat, baseline: nat, additional: nat)
    requires
        len <= capacity,
    ensures
        capacity > 0 ==> doubled_capacity(capacity, baseline) == 2 * capacity,
        capacity == 0 ==> doubled_capacity(capacity, baseline) == baseline,
        len + additional <= capacity ==> capacity_after_reserve(len, capacity, additional)
            == capacity,
        len + additional > capacity && capacity > 0 ==> capacity_after_reserve(
            len,
            capacity,
            additional,
        ) == 2 * capacity,
        len + additional > capacity && capacity == 0 ==> capacity_after_reserve(
            len,
            capacity,
            additional,
        ) == additional,
{
}

/// Across any run of pushes, growth steps included, the elements that the
/// buffer held before are the first elements of what it holds after.
pub proof fn lemma_pushes_keep_prefix<T>(items: Seq<T>, capacity: nat, values: Seq<T>)
    requires
        items.len() <= capacity,
    ensures
        pushed_all(items, values).len() == items.len() + values.len(),
        pushed_all(items, values).subrange(0, items.len() as int) == items,
        pushed_all(items, values).len() <= capacity_after_pushes(
            items.len(),
            capacity,
            values.len(),
        ),
    decreases values.len(),
{
    lemma_pushed_all_appends(items, values);
    assert((items + values).subrange(0, items.len() as int) =~= items);
    if values.len() > 0 {
        lemma_push_keeps_prefix(items, capacity, values.first());
        lemma_pushes_keep_prefix(
            items.push(values.first()),
            capacity_after_push(items.len(), capacity),
            values.drop_first(),
        );
    }
}

} // verus!
