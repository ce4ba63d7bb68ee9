//! Unpacking of the post-processing kernel's output.
//!
//! The kernel reports `k` detections as a dense `[k x 16]` layout: box,
//! confidence, class, then five keypoint pairs.  Copying that layout into
//! a detection list, preserving the upstream timestamp, is the stage's
//! own logic; the kernel call is a foreign function that only exists next
//! to the hardware.

use vstd::prelude::*;
use crate::data_structures::{Detection, DetectionBuffer, TensorBuffer};

verus! {

/// Values per detection row: x, y, w, h, confidence, class and five
/// keypoint pairs.
pub const DETECTION_STRIDE: usize = 16;

/// The detection encoded at row `i` of the kernel's dense output.
pub open spec fn spec_detection_at<T>(vals: Seq<T>, i: int) -> Detection<T> {
    Detection {
        x: vals[16 * i],
        y: vals[16 * i + 1],
        w: vals[16 * i + 2],
        h: vals[16 * i + 3],
        conf: vals[16 * i + 4],
        cls: vals[16 * i + 5],
        points: [
            [vals[16 * i + 6], vals[16 * i + 7]],
            [vals[16 * i + 8], vals[16 * i + 9]],
            [vals[16 * i + 10], vals[16 * i + 11]],
            [vals[16 * i + 12], vals[16 * i + 13]],
            [vals[16 * i + 14], vals[16 * i + 15]],
        ],
    }
}

/// Copy the first `count` rows of the kernel output into the detection
/// list, stamping it with the tensor's timestamp; entries past `count`
/// stay as they were.
pub fn copy_detections<T: Copy>(src: &TensorBuffer<T>, count: usize, dst: &mut DetectionBuffer<T>)
    requires
        count * DETECTION_STRIDE <= src.values().len(),
        count <= old(dst).detections@.len(),
    ensures
        final(dst).detections@.len() == old(dst).detections@.len(),
        final(dst).timestamp == src.timestamp,
        forall|i: int|
            0 <= i < count ==> final(dst).detections@[i] == spec_detection_at(src.values(), i),
        forall|i: int|
            count <= i < old(dst).detections@.len() ==> final(dst).detections@[i] == old(
                dst,
            ).detections@[i],
{
    dst.timestamp = src.timestamp;
    let n = src.len();
    let mut i: usize = 0;
    while i < count
        invariant
            i <= count,
            n == src.values().len(),
            count * DETECTION_STRIDE <= src.values().len(),
            count <= dst.detections@.len(),
            dst.detections@.len() == old(dst).detections@.len(),
            dst.timestamp == src.timestamp,
            forall|j: int|
                0 <= j < i ==> dst.detections@[j] == spec_detection_at(src.values(), j),
            forall|j: int|
                count <= j < old(dst).detections@.len() ==> dst.detections@[j] == old(
                    dst,
                ).detections@[j],
        decreases count - i,
    {
        proof {
            assert(i * 16 + 16 <= n) by (nonlinear_arith)
                requires
                    i < count,
                    count * 16 <= n,
            ;
        }
        let base = i * DETECTION_STRIDE;
        let det = Detection {
            x: src.at(base),
            y: src.at(base + 1),
            w: src.at(base + 2),
            h: src.at(base + 3),
            conf: src.at(base + 4),
            cls: src.at(base + 5),
            points: [
                [src.at(base + 6), src.at(base + 7)],
                [src.at(base + 8), src.at(base + 9)],
                [src.at(base + 10), src.at(base + 11)],
                [src.at(base + 12), src.at(base + 13)],
                [src.at(base + 14), src.at(base + 15)],
            ],
        };
        proof {
            broadcast use vstd::array::axiom_array_ext_equal;

            assert(det.points =~= spec_detection_at(src.values(), i as int).points);
            assert(det.points[0] =~= spec_detection_at(src.values(), i as int).points[0]);
            assert(det.points[1] =~= spec_detection_at(src.values(), i as int).points[1]);
            assert(det.points[2] =~= spec_detection_at(src.values(), i as int).points[2]);
            assert(det.points[3] =~= spec_detection_at(src.values(), i as int).points[3]);
            assert(det.points[4] =~= spec_detection_at(src.values(), i as int).points[4]);
            assert(det == spec_detection_at(src.values(), i as int));
        }
        dst.detections.set(i, det);
        i = i + 1;
    }
}

} // verus!
