//! A typed buffer paired across host and device memory, mirrored mode.
//!
//! Host and device sides are separate allocations; copies run in the named
//! direction only.  The device side here is a model of the device
//! allocation: what the logic needs of it is which values it holds and
//! when they were synchronised, and that is tracked exactly.

use vstd::prelude::*;
use crate::gpu_op::GpuError;

verus! {

/// The capability set of a host/device buffer pair.
pub trait UnifiedTrait<T>: Sized {
    /// The values on the host side.
    spec fn host_view(&self) -> Seq<T>;

    /// The values on the device side, if a device allocation exists.
    spec fn device_view(&self) -> Option<Seq<T>>;

    /// Whether one allocation serves both sides, so that host writes are
    /// device writes.
    spec fn unified_memory(&self) -> bool;

    /// Copy host to device, allocating the device side if needed.
    fn to_device(&mut self) -> (r: Result<(), GpuError>)
        ensures
            r is Ok,
            final(self).host_view() == old(self).host_view(),
            final(self).device_view() == Some(old(self).host_view()),
            final(self).unified_memory() == old(self).unified_memory(),
    ;

    /// Copy device to host; without a device side, nothing moves.
    fn to_host(&mut self) -> (r: Result<(), GpuError>)
        ensures
            r is Ok,
            final(self).device_view() == old(self).device_view(),
            final(self).host_view() == (match old(self).device_view() {
                Some(d) => d,
                None => old(self).host_view(),
            }),
            final(self).unified_memory() == old(self).unified_memory(),
    ;

    /// Make the device side available, synchronised from the host at least
    /// once since construction; an existing device side is left as it is.
    fn device(&mut self) -> (r: Result<(), GpuError>)
        ensures
            r is Ok,
            final(self).host_view() == old(self).host_view(),
            final(self).device_view() == Some(
                match old(self).device_view() {
                    Some(d) => d,
                    None => old(self).host_view(),
                },
            ),
            final(self).unified_memory() == old(self).unified_memory(),
    ;

    /// Element count.
    fn len(&self) -> (r: usize)
        ensures
            r == self.host_view().len(),
    ;

    /// One host-side element.
    fn host_at(&self, i: usize) -> (r: &T)
        requires
            i < self.host_view().len(),
        ensures
            *r == self.host_view()[i as int],
    ;

    /// Replace one host-side element; a separate device side is
    /// untouched, a unified one sees the write.
    fn host_set(&mut self, i: usize, value: T)
        requires
            i < old(self).host_view().len(),
        ensures
            final(self).host_view() == old(self).host_view().update(i as int, value),
            final(self).device_view() == (if old(self).unified_memory() {
                Some(final(self).host_view())
            } else {
                old(self).device_view()
            }),
            final(self).unified_memory() == old(self).unified_memory(),
    ;
}

/// The host-side allocation.
pub struct HostArray<T> {
    data: Vec<T>,
}

impl<T> View for HostArray<T> {
    type V = Seq<T>;

    closed spec fn view(&self) -> Seq<T> {
        self.data@
    }
}

impl<T: Copy> HostArray<T> {
    /// Allocate `size` elements, all holding `fill`.
    pub fn new(size: usize, fill: T) -> (r: Result<HostArray<T>, GpuError>)
        ensures
            match r {
                Ok(h) => h@.len() == size && forall|i: int| 0 <= i < size ==> h@[i] == fill,
                Err(_) => false,
            },
    {
        let mut data: Vec<T> = Vec::new();
        let mut i: usize = 0;
        while i < size
            invariant
                i <= size,
                data@.len() == i,
                forall|j: int| 0 <= j < i ==> data@[j] == fill,
            decreases size - i,
        {
            data.push(fill);
            i = i + 1;
        }
        Ok(HostArray { data })
    }

    /// Element count.
    pub fn len(&self) -> (r: usize)
        ensures
            r == self@.len(),
    {
        self.data.len()
    }

    /// One element.
    pub fn get(&self, i: usize) -> (r: &T)
        requires
            i < self@.len(),
        ensures
            *r == self@[i as int],
    {
        &self.data[i]
    }

    /// Replace one element.
    pub fn set(&mut self, i: usize, value: T)
        requires
            i < old(self)@.len(),
        ensures
            final(self)@ == old(self)@.update(i as int, value),
    {
        self.data.set(i, value);
    }

    /// Iterate over the elements.
    pub fn iter(&self) -> (r: HostArrayIter<'_, T>)
        ensures
            r.spec_elements() == self@,
            r.spec_index() == 0,
    {
        HostArrayIter { arr: self, index: 0 }
    }
}

/// A cursor over a host array.
pub struct HostArrayIter<'a, T> {
    arr: &'a HostArray<T>,
    index: usize,
}

impl<'a, T: Copy> HostArrayIter<'a, T> {
    /// The elements walked over.
    pub closed spec fn spec_elements(&self) -> Seq<T> {
        self.arr@
    }

    /// The position of the cursor.
    pub closed spec fn spec_index(&self) -> int {
        self.index as int
    }

    /// The next element, or nothing once the end is reached.
    pub fn next(&mut self) -> (r: Option<&'a T>)
        ensures
            final(self).spec_elements() == old(self).spec_elements(),
            match r {
                Some(v) => {
                    &&& old(self).spec_index() < old(self).spec_elements().len()
                    &&& *v == old(self).spec_elements()[old(self).spec_index()]
                    &&& final(self).spec_index() == old(self).spec_index() + 1
                },
                None => {
                    &&& old(self).spec_index() >= old(self).spec_elements().len()
                    &&& final(self).spec_index() == old(self).spec_index()
                },
            },
    {
        if self.index < self.arr.len() {
            let r = self.arr.get(self.index);
            self.index = self.index + 1;
            Some(r)
        } else {
            None
        }
    }
}

/// The device-side allocation, modelled by the values it holds.
pub struct DeviceArray<T> {
    data: Vec<T>,
}

impl<T> View for DeviceArray<T> {
    type V = Seq<T>;

    closed spec fn view(&self) -> Seq<T> {
        self.data@
    }
}

impl<T: Copy> DeviceArray<T> {
    /// Allocate `size` elements, all holding `fill`.
    pub fn new(size: usize, fill: T) -> (r: Result<DeviceArray<T>, GpuError>)
        ensures
            match r {
                Ok(d) => d@.len() == size && forall|i: int| 0 <= i < size ==> d@[i] == fill,
                Err(_) => false,
            },
    {
        let mut data: Vec<T> = Vec::new();
        let mut i: usize = 0;
        while i < size
            invariant
                i <= size,
                data@.len() == i,
                forall|j: int| 0 <= j < i ==> data@[j] == fill,
            decreases size - i,
        {
            data.push(fill);
            i = i + 1;
        }
        Ok(DeviceArray { data })
    }
}

/// A buffer mirrored between a host allocation and an optional device
/// allocation.
pub struct UnifiedItem<T> {
    host: HostArray<T>,
    device: Option<DeviceArray<T>>,
}

impl<T: Copy> UnifiedItem<T> {
    /// Allocate `size` host elements holding `fill`; the device side is
    /// created on first use.
    pub fn new(size: usize, fill: T) -> (r: Result<UnifiedItem<T>, GpuError>)
        ensures
            match r {
                Ok(u) => {
                    &&& u.host_view().len() == size
                    &&& forall|i: int| 0 <= i < size ==> u.host_view()[i] == fill
                    &&& u.device_view() is None
                },
                Err(_) => false,
            },
    {
        let host = match HostArray::new(size, fill) {
            Ok(h) => h,
            Err(e) => {
                return Err(e);
            },
        };
        Ok(UnifiedItem { host, device: None })
    }

    /// Iterate over the host side.
    pub fn iter(&self) -> (r: HostArrayIter<'_, T>)
        ensures
            r.spec_elements() == self.host_view(),
            r.spec_index() == 0,
    {
        self.host.iter()
    }
}

impl<T: Copy> UnifiedTrait<T> for UnifiedItem<T> {
    closed spec fn host_view(&self) -> Seq<T> {
        self.host@
    }

    closed spec fn device_view(&self) -> Option<Seq<T>> {
        match self.device {
            Some(d) => Some(d@),
            None => None,
        }
    }

    open spec fn unified_memory(&self) -> bool {
        false
    }

    fn to_device(&mut self) -> (r: Result<(), GpuError>) {
        let n = self.host.len();
        let mut data: Vec<T> = Vec::new();
        let mut i: usize = 0;
        while i < n
            invariant
                i <= n,
                n == self.host@.len(),
                data@ == self.host@.subrange(0, i as int),
            decreases n - i,
        {
            data.push(*self.host.get(i));
            assert(data@ =~= self.host@.subrange(0, i + 1));
            i = i + 1;
        }
        assert(data@ =~= self.host@);
        self.device = Some(DeviceArray { data });
        Ok(())
    }

    fn to_host(&mut self) -> (r: Result<(), GpuError>) {
        match &self.device {
            None => Ok(()),
            Some(d) => {
                let n = d.data.len();
                let mut data: Vec<T> = Vec::new();
                let mut j: usize = 0;
                while j < n
                    invariant
                        j <= n,
                        n == d@.len(),
                        data@ == d@.subrange(0, j as int),
                    decreases n - j,
                {
                    data.push(d.data[j]);
                    assert(data@ =~= d@.subrange(0, j + 1));
                    j = j + 1;
                }
                assert(data@ =~= d@);
                self.host = HostArray { data };
                Ok(())
            },
        }
    }

    fn device(&mut self) -> (r: Result<(), GpuError>) {
        let has_device = match &self.device {
            Some(_) => true,
            None => false,
        };
        if has_device {
            Ok(())
        } else {
            self.to_device()
        }
    }

    fn len(&self) -> (r: usize) {
        self.host.len()
    }

    fn host_at(&self, i: usize) -> (r: &T) {
        self.host.get(i)
    }

    fn host_set(&mut self, i: usize, value: T) {
        self.host.set(i, value);
    }
}

} // verus!
