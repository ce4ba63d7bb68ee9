//! The point-cloud datagrams the device streams while sampling.
//!
//! A data frame carries a fixed header; its points are either Cartesian
//! millimetre triples or spherical depth/angle readings, packed
//! little-endian with no padding.

use vstd::prelude::*;
use vstd::bytes::{spec_u16_from_le_bytes, spec_u32_from_le_bytes, spec_u64_from_le_bytes};
use vstd::slice::slice_index_get;
use crate::control_frame::ProtocolError;
use crate::wire::{u16_le_at, u32_le_at, u64_le_at};

verus! {

/// One Cartesian sample: millimetre coordinates with reflectivity and tag.
#[derive(Clone, Copy, Debug, PartialEq, Eq)]
pub struct CartesianPoint {
    pub x: i32,
    pub y: i32,
    pub z: i32,
    pub reflectivity: u8,
    pub tag: u8,
}

impl CartesianPoint {
    /// The point a 14-byte packed reading decodes to.
    pub open spec fn spec_decode(b: Seq<u8>) -> Option<CartesianPoint> {
        if b.len() == 14 {
            Some(
                CartesianPoint {
                    x: spec_u32_from_le_bytes(b.subrange(0, 4)) as i32,
                    y: spec_u32_from_le_bytes(b.subrange(4, 8)) as i32,
                    z: spec_u32_from_le_bytes(b.subrange(8, 12)) as i32,
                    reflectivity: b[12],
                    tag: b[13],
                },
            )
        } else {
            None
        }
    }

    /// Decode one packed reading.
    pub fn decode(b: &[u8]) -> (r: Result<CartesianPoint, ProtocolError>)
        ensures
            match r {
                Ok(p) => Self::spec_decode(b@) == Some(p),
                Err(e) => Self::spec_decode(b@) is None && e == ProtocolError::BodyDecode,
            },
    {
        if b.len() == 14 {
            Ok(
                CartesianPoint {
                    x: #[verifier::truncate] (u32_le_at(b, 0) as i32),
                    y: #[verifier::truncate] (u32_le_at(b, 4) as i32),
                    z: #[verifier::truncate] (u32_le_at(b, 8) as i32),
                    reflectivity: *slice_index_get(b, 12),
                    tag: *slice_index_get(b, 13),
                },
            )
        } else {
            Err(ProtocolError::BodyDecode)
        }
    }
}

/// One spherical sample: depth in millimetres, zenith and azimuth in
/// hundredths of a degree, with reflectivity and tag.
#[derive(Clone, Copy, Debug, PartialEq, Eq)]
pub struct SphericalPoint {
    pub depth: u32,
    pub zenith: u16,
    pub azimuth: u16,
    pub reflectivity: u8,
    pub tag: u8,
}

impl SphericalPoint {
    /// The point a 10-byte packed reading decodes to.
    pub open spec fn spec_decode(b: Seq<u8>) -> Option<SphericalPoint> {
        if b.len() == 10 {
            Some(
                SphericalPoint {
                    depth: spec_u32_from_le_bytes(b.subrange(0, 4)),
                    zenith: spec_u16_from_le_bytes(b.subrange(4, 6)),
                    azimuth: spec_u16_from_le_bytes(b.subrange(6, 8)),
                    reflectivity: b[8],
                    tag: b[9],
                },
            )
        } else {
            None
        }
    }

    /// Decode one packed reading.
    pub fn decode(b: &[u8]) -> (r: Result<SphericalPoint, ProtocolError>)
        ensures
            match r {
                Ok(p) => Self::spec_decode(b@) == Some(p),
                Err(e) => Self::spec_decode(b@) is None && e == ProtocolError::BodyDecode,
            },
    {
        if b.len() == 10 {
            Ok(
                SphericalPoint {
                    depth: u32_le_at(b, 0),
                    zenith: u16_le_at(b, 4),
                    azimuth: u16_le_at(b, 6),
                    reflectivity: *slice_index_get(b, 8),
                    tag: *slice_index_get(b, 9),
                },
            )
        } else {
            Err(ProtocolError::BodyDecode)
        }
    }
}

/// The fixed header of a point-cloud datagram.
#[derive(Clone, Copy, Debug, PartialEq, Eq)]
pub struct DataFrame {
    pub version: u8,
    pub slot_id: u8,
    pub lidar_id: u8,
    pub reserved: u8,
    pub status_code: u32,
    pub timestamp_type: u8,
    pub data_type: u8,
    pub timestamp: u64,
}

impl DataFrame {
    /// The header the first 18 bytes of a datagram decode to.
    pub open spec fn spec_decode(b: Seq<u8>) -> Option<DataFrame> {
        if b.len() >= 18 {
            Some(
                DataFrame {
                    version: b[0],
                    slot_id: b[1],
                    lidar_id: b[2],
                    reserved: b[3],
                    status_code: spec_u32_from_le_bytes(b.subrange(4, 8)),
                    timestamp_type: b[8],
                    data_type: b[9],
                    timestamp: spec_u64_from_le_bytes(b.subrange(10, 18)),
                },
            )
        } else {
            None
        }
    }

    /// Decode the header of a datagram; the points follow it.
    pub fn decode(b: &[u8]) -> (r: Result<DataFrame, ProtocolError>)
        ensures
            match r {
                Ok(h) => Self::spec_decode(b@) == Some(h),
                Err(e) => Self::spec_decode(b@) is None && e == ProtocolError::BodyDecode,
            },
    {
        if b.len() >= 18 {
            Ok(
                DataFrame {
                    version: *slice_index_get(b, 0),
                    slot_id: *slice_index_get(b, 1),
                    lidar_id: *slice_index_get(b, 2),
                    reserved: *slice_index_get(b, 3),
                    status_code: u32_le_at(b, 4),
                    timestamp_type: *slice_index_get(b, 8),
                    data_type: *slice_index_get(b, 9),
                    timestamp: u64_le_at(b, 10),
                },
            )
        } else {
            Err(ProtocolError::BodyDecode)
        }
    }
}

} // verus!
