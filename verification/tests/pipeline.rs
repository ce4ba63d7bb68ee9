use sight_lidar_core::analysis::{class_name, is_known_class, pose_image_points};
use sight_lidar_core::cam_op::FlipFlag;
use sight_lidar_core::data_structures::{DetectionBuffer, ImageBuffer, TensorBuffer};
use sight_lidar_core::gpu_op::{exec_and_check, GpuError};
use sight_lidar_core::postprocess::copy_detections;
use sight_lidar_core::session::{
    heartbeat_step, session_step, HeartbeatAction, SessionEvent, SessionState,
};
use sight_lidar_core::stage::{stage_step, FpsWindow, StageEvent, StageState};
use sight_lidar_core::unified_item::{UnifiedItem, UnifiedTrait};

#[test]
fn test_unified_item_create() {
    let mut item: UnifiedItem<f64> = UnifiedItem::new(10, 0.0).unwrap();
    for i in 0..10 {
        item.host_set(i, 1.0);
    }
    let mut iter = item.iter();
    let mut seen = 0;
    while let Some(num) = iter.next() {
        assert_eq!(*num, 1.0);
        seen += 1;
    }
    assert_eq!(seen, 10);
}

#[test]
fn unified_item_synchronisation() {
    let mut item: UnifiedItem<u32> = UnifiedItem::new(4, 7).unwrap();
    item.to_device().unwrap();
    // A host write does not touch the separate device copy.
    item.host_set(0, 9);
    assert_eq!(*item.host_at(0), 9);
    item.to_host().unwrap();
    // The stale device copy wins on an explicit copy back.
    assert_eq!(*item.host_at(0), 7);
    item.host_set(1, 11);
    item.to_device().unwrap();
    item.to_host().unwrap();
    assert_eq!(*item.host_at(1), 11);
}

#[test]
fn managed_item_is_always_synchronised() {
    let mut item: sight_lidar_core::unified_uma::UnifiedItem<u32> =
        sight_lidar_core::unified_uma::UnifiedItem::new(3, 5).unwrap();
    item.host_set(2, 6);
    item.to_device().unwrap();
    item.to_host().unwrap();
    assert_eq!(*item.host_at(2), 6);
    assert_eq!(item.len(), 3);
}

#[test]
fn image_buffer_dimensions() {
    let mut img = ImageBuffer::new(8, 4).unwrap();
    assert_eq!(img.len(), 8 * 4 * 3);
    assert_eq!(img.width, 8);
    assert_eq!(img.height, 4);
    img.set_byte(0, 255);
    assert_eq!(img.byte_at(0), 255);
    img.timestamp = 12345;
    let copy = img.try_clone().unwrap();
    assert_eq!(copy.len(), img.len());
    assert_eq!(copy.byte_at(0), 255);
    assert_eq!(copy.timestamp, 12345);
}

#[test]
fn tensor_buffer_shape_and_resize() {
    let mut t: TensorBuffer<i64> = TensorBuffer::new(vec![2, 3, 4], 0).unwrap();
    assert_eq!(t.len(), 24);
    assert_eq!(t.size().as_slice(), &[2, 3, 4]);
    t.set(5, -7);
    assert_eq!(t.at(5), -7);
    t.resize(vec![4, 4]);
    assert_eq!(t.size().as_slice(), &[4, 4]);
    assert_eq!(t.len(), 24);
}

#[test]
fn tensor_buffer_rejects_unrepresentable_shape() {
    let r: Result<TensorBuffer<u8>, GpuError> = TensorBuffer::new(vec![usize::MAX, 2], 0);
    match r {
        Err(e) => assert_eq!(e, GpuError { code: 2 }),
        Ok(_) => panic!("an unrepresentable shape must be rejected"),
    }
}

#[test]
fn detections_are_unpacked_row_by_row() {
    // Two rows of the kernel's dense [k x 16] layout.
    let mut src: TensorBuffer<i32> = TensorBuffer::new(vec![25, 16], 0).unwrap();
    for k in 0..32 {
        src.set(k, 100 + k as i32);
    }
    src.timestamp = 777;
    let mut dst: DetectionBuffer<i32> = DetectionBuffer::new(25, -1);
    copy_detections(&src, 2, &mut dst);
    assert_eq!(dst.timestamp, 777);
    let d0 = &dst.detections[0];
    assert_eq!(
        (d0.x, d0.y, d0.w, d0.h, d0.conf, d0.cls),
        (100, 101, 102, 103, 104, 105)
    );
    assert_eq!(d0.points, [[106, 107], [108, 109], [110, 111], [112, 113], [114, 115]]);
    let d1 = &dst.detections[1];
    assert_eq!(d1.x, 116);
    assert_eq!(d1.points[4], [130, 131]);
    // Entries past the count are untouched placeholders.
    assert_eq!(dst.detections[2].x, -1);
    assert_eq!(dst.detections.len(), 25);
}

#[test]
fn pose_points_skip_the_centre() {
    let points = [[10, 11], [20, 21], [30, 31], [40, 41], [50, 51]];
    let picked = pose_image_points(&points);
    assert_eq!(picked, vec![[10, 11], [20, 21], [40, 41], [50, 51]]);
}

#[test]
fn class_catalogue() {
    assert_eq!(class_name(0), Some("PR"));
    assert_eq!(class_name(9), Some("R1"));
    assert_eq!(class_name(17), Some("PB"));
    assert_eq!(class_name(18), None);
    assert!(is_known_class(17));
    assert!(!is_known_class(18));
}

#[test]
fn stage_lifecycle() {
    // Initializing -> Running -> Draining -> Stopped.
    let s = StageState::Initializing;
    let s = stage_step(s, StageEvent::SetupDone);
    assert_eq!(s, StageState::Running);
    let s = stage_step(s, StageEvent::WorkDone);
    assert_eq!(s, StageState::Running);
    let s = stage_step(s, StageEvent::StopObserved);
    assert_eq!(s, StageState::Draining);
    let s = stage_step(s, StageEvent::StopEmitted);
    assert_eq!(s, StageState::Stopped);
    assert_eq!(stage_step(s, StageEvent::SetupDone), StageState::Stopped);
}

#[test]
fn stop_flag_exits_every_working_state() {
    // Shutdown reachability: one poll after the stop flag is set, no
    // worker is still setting up or running.
    for s in [
        StageState::Initializing,
        StageState::Running,
        StageState::Draining,
        StageState::Stopped,
    ] {
        let next = stage_step(s, StageEvent::StopObserved);
        assert_ne!(next, StageState::Running);
        assert_ne!(next, StageState::Initializing);
    }
}

#[test]
fn upstream_close_and_fatal_error_drain() {
    assert_eq!(stage_step(StageState::Running, StageEvent::UpstreamClosed), StageState::Draining);
    assert_eq!(stage_step(StageState::Running, StageEvent::FatalError), StageState::Draining);
    assert_eq!(stage_step(StageState::Initializing, StageEvent::SetupFailed), StageState::Draining);
}

#[test]
fn session_lifecycle() {
    let s = SessionState::Discovering;
    let s = session_step(s, SessionEvent::BroadcastReceived);
    assert_eq!(s, SessionState::Handshaking);
    let s = session_step(s, SessionEvent::HandshakeOk);
    assert_eq!(s, SessionState::Connected);
    let s = session_step(s, SessionEvent::ShutdownRequested);
    assert_eq!(s, SessionState::Disconnecting);
    let s = session_step(s, SessionEvent::DisconnectAcked);
    assert_eq!(s, SessionState::Closed);
    assert_eq!(session_step(s, SessionEvent::BroadcastReceived), SessionState::Closed);
}

#[test]
fn session_failures_close() {
    assert_eq!(
        session_step(SessionState::Handshaking, SessionEvent::HandshakeFailed),
        SessionState::Closed
    );
    assert_eq!(
        session_step(SessionState::Connected, SessionEvent::HeartbeatFailed),
        SessionState::Closed
    );
}

#[test]
fn heartbeat_daemon_decision() {
    assert_eq!(heartbeat_step(false, false), HeartbeatAction::SendBeat);
    assert_eq!(heartbeat_step(true, false), HeartbeatAction::Exit);
    assert_eq!(heartbeat_step(false, true), HeartbeatAction::Exit);
}

#[test]
fn fps_window_completes_every_ten_frames() {
    let mut w = FpsWindow::new();
    let mut completions = 0;
    for i in 1..=30 {
        if w.tick() {
            completions += 1;
            assert_eq!(i % 10, 0);
        }
    }
    assert_eq!(completions, 3);
}

#[test]
fn flip_flag_codes() {
    assert_eq!(FlipFlag::NoFlip.code(), 0);
    assert_eq!(FlipFlag::Vertical.code(), 1);
    assert_eq!(FlipFlag::Horizontal.code(), 2);
    assert_eq!(FlipFlag::Both.code(), 3);
}

#[test]
fn gpu_status_classification() {
    assert!(exec_and_check(0).is_ok());
    let e = exec_and_check(2).unwrap_err();
    assert_eq!(e, GpuError { code: 2 });
    assert!(e.is_runtime());
    let e = exec_and_check(10004).unwrap_err();
    assert!(!e.is_runtime());
    assert_eq!(e.name(), Some("TRT_INFER_FAIL"));
}

#[test]
fn data_frame_header_decodes() {
    let mut b = vec![5u8, 1, 2, 0];
    b.extend_from_slice(&0x01020304u32.to_le_bytes());
    b.push(1); // timestamp_type
    b.push(0); // data_type: Cartesian
    b.extend_from_slice(&0x1122334455667788u64.to_le_bytes());
    let h = sight_lidar_core::data_frame::DataFrame::decode(&b).unwrap();
    assert_eq!(h.version, 5);
    assert_eq!(h.slot_id, 1);
    assert_eq!(h.lidar_id, 2);
    assert_eq!(h.status_code, 0x01020304);
    assert_eq!(h.timestamp_type, 1);
    assert_eq!(h.data_type, 0);
    assert_eq!(h.timestamp, 0x1122334455667788);
    assert!(sight_lidar_core::data_frame::DataFrame::decode(&b[..17]).is_err());
}

#[test]
fn point_records_decode() {
    let mut b = Vec::new();
    b.extend_from_slice(&(-5i32 as u32).to_le_bytes());
    b.extend_from_slice(&7i32.to_le_bytes());
    b.extend_from_slice(&(-9i32 as u32).to_le_bytes());
    b.push(200);
    b.push(3);
    let p = sight_lidar_core::data_frame::CartesianPoint::decode(&b).unwrap();
    assert_eq!((p.x, p.y, p.z, p.reflectivity, p.tag), (-5, 7, -9, 200, 3));

    let mut s = Vec::new();
    s.extend_from_slice(&123456u32.to_le_bytes());
    s.extend_from_slice(&9000u16.to_le_bytes());
    s.extend_from_slice(&27000u16.to_le_bytes());
    s.push(50);
    s.push(1);
    let q = sight_lidar_core::data_frame::SphericalPoint::decode(&s).unwrap();
    assert_eq!((q.depth, q.zenith, q.azimuth, q.reflectivity, q.tag), (123456, 9000, 27000, 50, 1));
    assert!(sight_lidar_core::data_frame::SphericalPoint::decode(&s[..9]).is_err());
}

#[test]
fn default_image_is_standard_frame() {
    let img = ImageBuffer::default();
    assert_eq!(img.width, 640);
    assert_eq!(img.height, 480);
    assert_eq!(img.len(), 640 * 480 * 3);
    assert_eq!(img.timestamp, 0);
}
