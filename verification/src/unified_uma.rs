//! A typed buffer paired across host and device memory, unified mode.
//!
//! On platforms with unified memory a single managed allocation serves
//! both sides: every accessor sees the same values and the copy
//! operations have nothing to move.

use vstd::prelude::*;
use crate::gpu_op::GpuError;
use crate::unified_item::UnifiedTrait;

verus! {

/// A managed allocation visible from host and device alike.
pub struct ManagedArray<T> {
    data: Vec<T>,
}

impl<T> View for ManagedArray<T> {
    type V = Seq<T>;

    closed spec fn view(&self) -> Seq<T> {
        self.data@
    }
}

impl<T: Copy> ManagedArray<T> {
    /// Allocate `size` elements, all holding `fill`.
    pub fn new(size: usize, fill: T) -> (r: Result<ManagedArray<T>, GpuError>)
        ensures
            match r {
                Ok(m) => m@.len() == size && forall|i: int| 0 <= i < size ==> m@[i] == fill,
                Err(_) => false,
            },
    {
        let mut data: Vec<T> = Vec::new();
        let mut i: usize = 0;
        while i < size
            invariant
                i <= size,
                data@.len() == i,
                forall|j: int| 0 <= j < i ==> data@[j] == fill,
            decreases size - i,
        {
            data.push(fill);
            i = i + 1;
        }
        Ok(ManagedArray { data })
    }

    /// Adopt an existing allocation.
    pub fn from_raw_parts(data: Vec<T>) -> (r: ManagedArray<T>)
        ensures
            r@ == data@,
    {
        ManagedArray { data }
    }

    /// Element count.
    pub fn len(&self) -> (r: usize)
        ensures
            r == self@.len(),
    {
        self.data.len()
    }

    /// One element.
    pub fn get(&self, i: usize) -> (r: &T)
        requires
            i < self@.len(),
        ensures
            *r == self@[i as int],
    {
        &self.data[i]
    }

    /// Replace one element.
    pub fn set(&mut self, i: usize, value: T)
        requires
            i < old(self)@.len(),
        ensures
            final(self)@ == old(self)@.update(i as int, value),
    {
        self.data.set(i, value);
    }

    /// Iterate over the elements.
    pub fn iter(&self) -> (r: ManagedArrayIter<'_, T>)
        ensures
            r.spec_elements() == self@,
            r.spec_index() == 0,
    {
        ManagedArrayIter { arr: self, index: 0 }
    }
}

/// A cursor over a managed array.
pub struct ManagedArrayIter<'a, T> {
    arr: &'a ManagedArray<T>,
    index: usize,
}

impl<'a, T: Copy> ManagedArrayIter<'a, T> {
    /// The elements walked over.
    pub closed spec fn spec_elements(&self) -> Seq<T> {
        self.arr@
    }

    /// The position of the cursor.
    pub closed spec fn spec_index(&self) -> int {
        self.index as int
    }

    /// The next element, or nothing once the end is reached.
    pub fn next(&mut self) -> (r: Option<&'a T>)
        ensures
            final(self).spec_elements() == old(self).spec_elements(),
            match r {
                Some(v) => {
                    &&& old(self).spec_index() < old(self).spec_elements().len()
                    &&& *v == old(self).spec_elements()[old(self).spec_index()]
                    &&& final(self).spec_index() == old(self).spec_index() + 1
                },
                None => {
                    &&& old(self).spec_index() >= old(self).spec_elements().len()
                    &&& final(self).spec_index() == old(self).spec_index()
                },
            },
    {
        if self.index < self.arr.len() {
            let r = self.arr.get(self.index);
            self.index = self.index + 1;
            Some(r)
        } else {
            None
        }
    }
}

/// A buffer over one managed allocation: host and device sides coincide.
pub struct UnifiedItem<T> {
    arr: ManagedArray<T>,
}

impl<T: Copy> UnifiedItem<T> {
    /// Allocate `size` elements holding `fill`.
    pub fn new(size: usize, fill: T) -> (r: Result<UnifiedItem<T>, GpuError>)
        ensures
            match r {
                Ok(u) => {
                    &&& u.host_view().len() == size
                    &&& forall|i: int| 0 <= i < size ==> u.host_view()[i] == fill
                    &&& u.device_view() == Some(u.host_view())
                },
                Err(_) => false,
            },
    {
        match ManagedArray::new(size, fill) {
            Ok(arr) => Ok(UnifiedItem { arr }),
            Err(e) => Err(e),
        }
    }

    /// Iterate over the elements.
    pub fn iter(&self) -> (r: ManagedArrayIter<'_, T>)
        ensures
            r.spec_elements() == self.host_view(),
            r.spec_index() == 0,
    {
        self.arr.iter()
    }
}

impl<T: Copy> UnifiedTrait<T> for UnifiedItem<T> {
    closed spec fn host_view(&self) -> Seq<T> {
        self.arr@
    }

    closed spec fn device_view(&self) -> Option<Seq<T>> {
        Some(self.arr@)
    }

    open spec fn unified_memory(&self) -> bool {
        true
    }

    fn to_device(&mut self) -> (r: Result<(), GpuError>) {
        Ok(())
    }

    fn to_host(&mut self) -> (r: Result<(), GpuError>) {
        Ok(())
    }

    fn device(&mut self) -> (r: Result<(), GpuError>) {
        Ok(())
    }

    fn len(&self) -> (r: usize) {
        self.arr.len()
    }

    fn host_at(&self, i: usize) -> (r: &T) {
        self.arr.get(i)
    }

    fn host_set(&mut self, i: usize, value: T) {
        self.arr.set(i, value);
    }
}

} // verus!
