//! Core of a vision-and-lidar acquisition pipeline.
//!
//! Two subsystems share this crate: a staged camera/inference pipeline
//! built on a bounded shared-slot buffer, and a lidar control protocol
//! with a length-and-CRC framed command codec, a sequence-numbered command
//! emitter, a heartbeat keepalive and a session lifecycle.

use vstd::prelude::*;

pub mod analysis;
pub mod cam_op;
pub mod checksum;
pub mod control_frame;
pub mod data_frame;
pub mod data_structures;
pub mod emitter;
pub mod err_code;
pub mod frames;
pub mod gpu_op;
pub mod postprocess;
pub mod session;
pub mod shared_buffer;
pub mod stage;
pub mod unified_item;
pub mod unified_uma;
pub mod wire;

pub use cam_op::FlipFlag;
pub use control_frame::{CmdType, ControlFrame, ProtocolError};
pub use data_frame::{CartesianPoint, DataFrame, SphericalPoint};
pub use data_structures::{Detection, DetectionBuffer, ImageBuffer, TensorBuffer};
pub use emitter::EmitterCore;
pub use err_code::ErrCode;
pub use frames::{CheckStatus, Cmd, CommandError, CommonResp, Len, Record};
pub use gpu_op::{exec_and_check, GpuError};
pub use shared_buffer::{SharedBuffer, SharedBufferLock};
pub use unified_item::{DeviceArray, HostArray, UnifiedItem, UnifiedTrait};

verus! {

} // verus!
