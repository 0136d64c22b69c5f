use std::sync::mpsc;
use vimba::CaptureDevice;

use vimba::camera::BridgeOutcome;
use vimba::sim::SimDevice;
use vimba::{Camera, Error, FeatureValue, FrameDescriptor, SessionState, StartupRegistry};

fn idle_camera(payload: i64) -> Camera<SimDevice> {
    Camera::from_device(SimDevice::new(payload, 2))
}

#[test]
fn payload_size_feature_reads_back() {
    let mut cam = idle_camera(4096);
    assert_eq!(cam.get_feature_int("PayloadSize").unwrap(), 4096);
    assert_eq!(cam.get_feature("PayloadSize").unwrap(), FeatureValue::Int(4096));
}

#[test]
fn enum_features_read_back_what_was_written() {
    let mut cam = idle_camera(64);
    cam.set_feature_enum("AcquisitionMode", "Continuous".to_string()).unwrap();
    assert_eq!(cam.get_feature_enum("AcquisitionMode").unwrap(), "Continuous".to_string());
    cam.set_feature(
        "AcquisitionStatusSelector",
        FeatureValue::Enum("AcquisitionActive".to_string()),
    )
    .unwrap();
    assert_eq!(
        cam.get_feature("AcquisitionStatusSelector").unwrap(),
        FeatureValue::Enum("AcquisitionActive".to_string())
    );
}

#[test]
fn unknown_feature_is_not_found() {
    let mut cam = idle_camera(64);
    assert!(matches!(cam.get_feature("ExposureTime"), Err(Error::NotFound)));
    assert!(matches!(
        cam.set_feature("ExposureTime", FeatureValue::Int(3)),
        Err(Error::NotFound)
    ));
    assert!(matches!(cam.run_command("TriggerSoftware"), Err(Error::NotFound)));
}

#[test]
fn wrong_kind_of_value_is_wrong_type() {
    let mut cam = idle_camera(64);
    assert!(matches!(
        cam.set_feature("PayloadSize", FeatureValue::Bool(true)),
        Err(Error::WrongType)
    ));
    assert!(matches!(cam.get_feature_bool("PayloadSize"), Err(Error::WrongType)));
    assert!(matches!(cam.get_feature_enum("PayloadSize"), Err(Error::WrongType)));
}

#[test]
fn set_feature_int_updates_the_store() {
    let mut cam = idle_camera(64);
    cam.set_feature_int("PayloadSize", 128).unwrap();
    assert_eq!(cam.get_feature_int("PayloadSize").unwrap(), 128);
}

#[test]
fn acquisition_status_reads_as_bool() {
    let mut cam = idle_camera(64);
    assert_eq!(cam.get_feature_bool("AcquisitionStatus").unwrap(), false);
}

#[test]
fn commands_complete_synchronously() {
    let mut cam = idle_camera(64);
    assert_eq!(cam.is_command_done("AcquisitionStart").unwrap(), true);
}

#[test]
fn listed_features_cover_the_store() {
    let mut cam = idle_camera(64);
    let list = cam.list_features().unwrap();
    let names: Vec<String> = list.iter().map(|f| f.name.clone()).collect();
    assert!(names.contains(&"PayloadSize".to_string()));
    assert!(names.contains(&"AcquisitionStatusSelector".to_string()));
    assert!(names.contains(&"AcquisitionMode".to_string()));
    // The listing is complete: every listed name reads back, and nothing
    // in the store is missing from it.
    for name in &names {
        assert!(cam.get_feature(name).is_ok());
    }
    assert_eq!(names.len(), 3);
}

#[test]
fn revoking_a_queued_buffer_is_refused() {
    let mut sim = SimDevice::new(8, 2);
    sim.announce_buffer(0, vec![0u8; 8]).unwrap();
    sim.start_capture().unwrap();
    sim.submit_buffer(0).unwrap();
    let refused = sim.revoke_buffer(0);
    assert!(matches!(refused, Err(Error::Other)));
    assert!(sim.is_announced(0));
    assert!(sim.is_queued(0));
}

#[test]
fn queue_handler_forwards_frames_into_channel() {
    let mut sim = SimDevice::new(4, 2);
    sim.push_frame(
        FrameDescriptor { width: 2, height: 2, offset_x: 0, offset_y: 0, frame_id: 5, timestamp: 50 },
        vec![1, 2, 3, 4],
    );
    sim.push_frame(
        FrameDescriptor { width: 2, height: 2, offset_x: 0, offset_y: 0, frame_id: 6, timestamp: 60 },
        vec![5, 6, 7, 8],
    );
    let mut cam = Camera::from_device(sim);
    let (tx, rx) = mpsc::channel();
    let mut ctx = cam.start_streaming_queue(tx, 1).unwrap();
    assert_eq!(cam.process_frame(&mut ctx).unwrap(), BridgeOutcome::Requeued);
    assert_eq!(cam.process_frame(&mut ctx).unwrap(), BridgeOutcome::Requeued);
    let first = rx.try_recv().unwrap();
    assert_eq!(first.data, vec![1, 2, 3, 4]);
    assert_eq!(first.id, 5);
    let second = rx.try_recv().unwrap();
    assert_eq!(second.data, vec![5, 6, 7, 8]);
    assert_eq!(second.timestamp, 60);
    cam.stop_streaming(&mut ctx).unwrap();
    assert_eq!(cam.session_state(), SessionState::Idle);
}

#[test]
fn queue_handler_halts_once_receiver_is_gone() {
    let mut sim = SimDevice::new(4, 2);
    sim.push_frame(
        FrameDescriptor { width: 1, height: 1, offset_x: 0, offset_y: 0, frame_id: 1, timestamp: 10 },
        vec![1],
    );
    let mut cam = Camera::from_device(sim);
    let (tx, rx) = mpsc::channel();
    let mut ctx = cam.start_streaming_queue(tx, 1).unwrap();
    drop(rx);
    assert_eq!(cam.process_frame(&mut ctx).unwrap(), BridgeOutcome::Halted);
    assert!(ctx.is_stopped());
    cam.stop_streaming(&mut ctx).unwrap();
}

#[test]
fn startup_registry_balances_startup_and_shutdown() {
    let mut reg = StartupRegistry::new();
    assert_eq!(reg.count(), 0);
    assert!(reg.acquire());
    assert!(!reg.acquire());
    assert_eq!(reg.count(), 2);
    assert!(!reg.release());
    assert!(reg.release());
    assert_eq!(reg.count(), 0);
    // A fresh holder after full shutdown starts the driver again.
    assert!(reg.acquire());
}
