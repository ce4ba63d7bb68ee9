//! The artifacts that flow between the pipeline stages.
//!
//! An image is packed 8-bit RGB or BGR bytes with its dimensions and a
//! capture timestamp; a tensor is a shaped scalar payload; a detection
//! list is a bounded vector of detection records.  Timestamps are
//! nanosecond counts that producers stamp and consumers carry forward
//! unchanged.

use vstd::prelude::*;
use crate::gpu_op::GpuError;
use crate::unified_item::{HostArrayIter, UnifiedItem, UnifiedTrait};

verus! {

/// Bytes per pixel of a packed RGB or BGR image.
pub const BYTES_PER_PIXEL: u32 = 3;

/// A packed image with its dimensions and capture timestamp.
pub struct ImageBuffer {
    pub width: u32,
    pub height: u32,
    pub data: UnifiedItem<u8>,
    pub timestamp: u64,
}

impl ImageBuffer {
    /// The pixel bytes on the host side.
    pub closed spec fn bytes(&self) -> Seq<u8> {
        self.data.host_view()
    }

    /// The device-side copy of the pixel bytes, if one exists.
    pub closed spec fn device_bytes(&self) -> Option<Seq<u8>> {
        self.data.device_view()
    }

    /// The byte length equals width times height times three channels.
    pub open spec fn wf(&self) -> bool {
        self.bytes().len() == self.width * self.height * BYTES_PER_PIXEL
    }

    /// Allocate an image of the given dimensions, zero-filled, with a zero
    /// timestamp.
    pub fn new(width: u32, height: u32) -> (r: Result<ImageBuffer, GpuError>)
        requires
            width * height * BYTES_PER_PIXEL <= usize::MAX,
        ensures
            match r {
                Ok(img) => {
                    &&& img.wf()
                    &&& img.width == width
                    &&& img.height == height
                    &&& img.timestamp == 0
                    &&& img.device_bytes() is None
                    &&& forall|i: int| 0 <= i < img.bytes().len() ==> img.bytes()[i] == 0u8
                },
                Err(_) => false,
            },
    {
        let size = (width as usize) * (height as usize) * (BYTES_PER_PIXEL as usize);
        match UnifiedItem::new(size, 0u8) {
            Ok(data) => Ok(ImageBuffer { width, height, data, timestamp: 0 }),
            Err(e) => Err(e),
        }
    }

    /// Number of pixel bytes.
    pub fn len(&self) -> (r: usize)
        ensures
            r == self.bytes().len(),
    {
        self.data.len()
    }

    /// One pixel byte.
    pub fn byte_at(&self, i: usize) -> (r: u8)
        requires
            i < self.bytes().len(),
        ensures
            r == self.bytes()[i as int],
    {
        *self.data.host_at(i)
    }

    /// Replace one pixel byte on the host side.
    pub fn set_byte(&mut self, i: usize, value: u8)
        requires
            i < old(self).bytes().len(),
        ensures
            final(self).bytes() == old(self).bytes().update(i as int, value),
            final(self).device_bytes() == old(self).device_bytes(),
            final(self).width == old(self).width,
            final(self).height == old(self).height,
            final(self).timestamp == old(self).timestamp,
    {
        self.data.host_set(i, value);
    }

    /// Copy the pixel bytes to the device side.
    pub fn to_device(&mut self) -> (r: Result<(), GpuError>)
        ensures
            r is Ok,
            final(self).bytes() == old(self).bytes(),
            final(self).device_bytes() == Some(old(self).bytes()),
            final(self).width == old(self).width,
            final(self).height == old(self).height,
            final(self).timestamp == old(self).timestamp,
    {
        self.data.to_device()
    }

    /// Make the device side available, synchronised at least once.
    pub fn device(&mut self) -> (r: Result<(), GpuError>)
        ensures
            r is Ok,
            final(self).bytes() == old(self).bytes(),
            final(self).device_bytes() == Some(
                match old(self).device_bytes() {
                    Some(d) => d,
                    None => old(self).bytes(),
                },
            ),
            final(self).width == old(self).width,
            final(self).height == old(self).height,
            final(self).timestamp == old(self).timestamp,
    {
        self.data.device()
    }

    /// Iterate over the pixel bytes.
    pub fn iter(&self) -> (r: HostArrayIter<'_, u8>)
        ensures
            r.spec_elements() == self.bytes(),
            r.spec_index() == 0,
    {
        self.data.iter()
    }

    /// A fresh image with the same dimensions, bytes and timestamp, its
    /// device side not yet created.
    pub fn try_clone(&self) -> (r: Result<ImageBuffer, GpuError>)
        ensures
            match r {
                Ok(c) => {
                    &&& c.width == self.width
                    &&& c.height == self.height
                    &&& c.timestamp == self.timestamp
                    &&& c.bytes() == self.bytes()
                    &&& c.device_bytes() is None
                },
                Err(_) => false,
            },
    {
        let n = self.data.len();
        let mut copy = match UnifiedItem::new(n, 0u8) {
            Ok(c) => c,
            Err(e) => {
                return Err(e);
            },
        };
        let mut i: usize = 0;
        while i < n
            invariant
                i <= n,
                n == self.bytes().len(),
                copy.host_view().len() == n,
                copy.device_view() is None,
                forall|j: int| 0 <= j < i ==> copy.host_view()[j] == self.bytes()[j],
            decreases n - i,
        {
            copy.host_set(i, *self.data.host_at(i));
            i = i + 1;
        }
        proof {
            assert(copy.host_view() =~= self.bytes());
        }
        Ok(
            ImageBuffer {
                width: self.width,
                height: self.height,
                data: copy,
                timestamp: self.timestamp,
            },
        )
    }
}

impl Default for ImageBuffer {
    /// The stages' standard frame: 640 by 480, zero-filled.
    fn default() -> (r: ImageBuffer)
        ensures
            r.wf(),
            r.width == 640,
            r.height == 480,
            r.timestamp == 0,
    {
        match ImageBuffer::new(640, 480) {
            Ok(img) => img,
            Err(_) => vstd::pervasive::unreached(),
        }
    }
}

/// Product of tensor dimensions.
pub open spec fn spec_product(dims: Seq<usize>) -> int
    decreases dims.len(),
{
    if dims.len() == 0 {
        1
    } else {
        spec_product(dims.drop_last()) * dims.last()
    }
}

/// Whether every prefix product of the dimensions fits the machine, so
/// that the element count can be computed.
pub open spec fn spec_products_fit(dims: Seq<usize>) -> bool
    decreases dims.len(),
{
    if dims.len() == 0 {
        true
    } else {
        spec_products_fit(dims.drop_last()) && spec_product(dims) <= usize::MAX
    }
}

/// A shaped scalar payload with a timestamp copied from its source frame.
pub struct TensorBuffer<T> {
    pub size: Vec<usize>,
    pub data: UnifiedItem<T>,
    pub timestamp: u64,
}

impl<T: Copy> TensorBuffer<T> {
    /// The ordered shape.
    pub closed spec fn dims(&self) -> Seq<usize> {
        self.size@
    }

    /// The payload on the host side.
    pub closed spec fn values(&self) -> Seq<T> {
        self.data.host_view()
    }

    /// The device-side copy of the payload, if one exists.
    pub closed spec fn device_values(&self) -> Option<Seq<T>> {
        self.data.device_view()
    }

    /// The shape never claims more elements than the payload holds.
    pub open spec fn wf(&self) -> bool {
        spec_product(self.dims()) <= self.values().len()
    }

    /// Allocate a tensor of the given shape, filled with one value, with a
    /// zero timestamp.  Allocation fails exactly when the element count
    /// cannot be computed on this machine.
    pub fn new(size: Vec<usize>, fill: T) -> (r: Result<TensorBuffer<T>, GpuError>)
        ensures
            match r {
                Ok(t) => {
                    &&& spec_products_fit(size@)
                    &&& t.dims() == size@
                    &&& t.values().len() == spec_product(size@)
                    &&& t.wf()
                    &&& t.timestamp == 0
                    &&& t.device_values() is None
                    &&& forall|i: int| 0 <= i < t.values().len() ==> t.values()[i] == fill
                },
                Err(e) => !spec_products_fit(size@) && e == (GpuError { code: 2 }),
            },
    {
        let n = size.len();
        let mut count: usize = 1;
        let mut i: usize = 0;
        while i < n
            invariant
                i <= n,
                n == size@.len(),
                count as int == spec_product(size@.subrange(0, i as int)),
                spec_products_fit(size@.subrange(0, i as int)),
            decreases n - i,
        {
            proof {
                assert(size@.subrange(0, i + 1).drop_last() =~= size@.subrange(0, i as int));
                assert(size@.subrange(0, i + 1).last() == size@[i as int]);
            }
            count = match count.checked_mul(size[i]) {
                Some(c) => c,
                None => {
                    proof {
                        assert(!spec_products_fit(size@.subrange(0, i + 1)));
                        lemma_products_fit_prefix_fail(size@, i as int);
                    }
                    return Err(GpuError { code: 2 });
                },
            };
            i = i + 1;
        }
        proof {
            assert(size@.subrange(0, n as int) =~= size@);
        }
        match UnifiedItem::new(count, fill) {
            Ok(data) => Ok(TensorBuffer { size, data, timestamp: 0 }),
            Err(_) => Err(GpuError { code: 2 }),
        }
    }

    /// The shape.
    pub fn size(&self) -> (r: &Vec<usize>)
        ensures
            r@ == self.dims(),
    {
        &self.size
    }

    /// Reinterpret the payload under a new shape, which must not claim
    /// more elements than are allocated.
    pub fn resize(&mut self, size: Vec<usize>)
        requires
            spec_product(size@) <= old(self).values().len(),
        ensures
            final(self).dims() == size@,
            final(self).values() == old(self).values(),
            final(self).device_values() == old(self).device_values(),
            final(self).timestamp == old(self).timestamp,
            final(self).wf(),
    {
        self.size = size;
    }

    /// Number of payload elements.
    pub fn len(&self) -> (r: usize)
        ensures
            r == self.values().len(),
    {
        self.data.len()
    }

    /// One payload element.
    pub fn at(&self, i: usize) -> (r: T)
        requires
            i < self.values().len(),
        ensures
            r == self.values()[i as int],
    {
        *self.data.host_at(i)
    }

    /// Replace one payload element on the host side.
    pub fn set(&mut self, i: usize, value: T)
        requires
            i < old(self).values().len(),
        ensures
            final(self).values() == old(self).values().update(i as int, value),
            final(self).device_values() == old(self).device_values(),
            final(self).dims() == old(self).dims(),
            final(self).timestamp == old(self).timestamp,
    {
        self.data.host_set(i, value);
    }

    /// Copy the payload to the device side.
    pub fn to_device(&mut self) -> (r: Result<(), GpuError>)
        ensures
            r is Ok,
            final(self).values() == old(self).values(),
            final(self).device_values() == Some(old(self).values()),
            final(self).dims() == old(self).dims(),
            final(self).timestamp == old(self).timestamp,
    {
        self.data.to_device()
    }

    /// Copy the device payload back to the host side, if one exists.
    pub fn to_host(&mut self) -> (r: Result<(), GpuError>)
        ensures
            r is Ok,
            final(self).device_values() == old(self).device_values(),
            final(self).values() == (match old(self).device_values() {
                Some(d) => d,
                None => old(self).values(),
            }),
            final(self).dims() == old(self).dims(),
            final(self).timestamp == old(self).timestamp,
    {
        self.data.to_host()
    }

    /// Make the device side available, synchronised at least once.
    pub fn device(&mut self) -> (r: Result<(), GpuError>)
        ensures
            r is Ok,
            final(self).values() == old(self).values(),
            final(self).device_values() == Some(
                match old(self).device_values() {
                    Some(d) => d,
                    None => old(self).values(),
                },
            ),
            final(self).dims() == old(self).dims(),
            final(self).timestamp == old(self).timestamp,
    {
        self.data.device()
    }

    /// Iterate over the payload.
    pub fn iter(&self) -> (r: HostArrayIter<'_, T>)
        ensures
            r.spec_elements() == self.values(),
            r.spec_index() == 0,
    {
        self.data.iter()
    }
}

/// If a prefix kept fitting but the next product does not fit, the whole
/// shape does not fit.
proof fn lemma_products_fit_prefix_fail(dims: Seq<usize>, i: int)
    requires
        0 <= i < dims.len(),
        !spec_products_fit(dims.subrange(0, i + 1)),
    ensures
        !spec_products_fit(dims),
    decreases dims.len() - i,
{
    if i + 1 == dims.len() {
        assert(dims.subrange(0, i + 1) =~= dims);
    } else {
        assert(dims.subrange(0, i + 2).drop_last() =~= dims.subrange(0, i + 1));
        lemma_products_fit_prefix_fail(dims, i + 1);
    }
}

/// One detected object: box, confidence, class and five keypoints, all in
/// the detector's scalar type.
#[derive(Clone, Copy, Debug, PartialEq, Eq)]
pub struct Detection<T> {
    pub x: T,
    pub y: T,
    pub w: T,
    pub h: T,
    pub conf: T,
    pub cls: T,
    pub points: [[T; 2]; 5],
}

impl<T> Detection<T> {
    /// The detection whose every scalar equals `v`.
    pub open spec fn filled_value(v: T) -> Detection<T> {
        Detection {
            x: v,
            y: v,
            w: v,
            h: v,
            conf: v,
            cls: v,
            points: [[v, v], [v, v], [v, v], [v, v], [v, v]],
        }
    }
}

impl<T: Copy> Detection<T> {
    /// A detection with every scalar set to one value.
    pub fn filled(v: T) -> (r: Detection<T>)
        ensures
            r == Detection::filled_value(v),
    {
        let r = Detection {
            x: v,
            y: v,
            w: v,
            h: v,
            conf: v,
            cls: v,
            points: [[v, v], [v, v], [v, v], [v, v], [v, v]],
        };
        proof {
            broadcast use vstd::array::axiom_array_ext_equal;

            assert(r.points =~= Detection::filled_value(v).points);
        }
        r
    }
}

/// A bounded list of detections with the timestamp of the source frame.
pub struct DetectionBuffer<T> {
    pub detections: Vec<Detection<T>>,
    pub timestamp: u64,
}

impl<T: Copy> DetectionBuffer<T> {
    /// A list of `len` placeholder detections with a zero timestamp.
    pub fn new(len: usize, fill: T) -> (r: DetectionBuffer<T>)
        ensures
            r.detections@.len() == len,
            r.timestamp == 0,
            forall|i: int| 0 <= i < len ==> r.detections@[i] == Detection::filled_value(fill),
    {
        let mut detections: Vec<Detection<T>> = Vec::new();
        let mut i: usize = 0;
        let d = Detection::filled(fill);
        while i < len
            invariant
                i <= len,
                detections@.len() == i,
                d == Detection::filled_value(fill),
                forall|j: int| 0 <= j < i ==> detections@[j] == Detection::filled_value(fill),
            decreases len - i,
        {
            detections.push(d);
            i = i + 1;
        }
        DetectionBuffer { detections, timestamp: 0 }
    }
}

} // verus!
