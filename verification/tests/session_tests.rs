use vimba::camera::BridgeOutcome;
use vimba::sim::{SimDevice, SimEvent};
use vimba::{Camera, CameraCallback, Error, Frame, FrameDescriptor, SessionState, StreamContinue};

struct CountAndContinue {
    seen: usize,
}

impl CameraCallback for CountAndContinue {
    fn on_frame(&mut self, _frame: Frame<&[u8]>) -> StreamContinue {
        self.seen += 1;
        StreamContinue(true)
    }
}

struct StopAfter {
    remaining: usize,
    invocations: usize,
}

impl CameraCallback for StopAfter {
    fn on_frame(&mut self, _frame: Frame<&[u8]>) -> StreamContinue {
        self.invocations += 1;
        self.remaining -= 1;
        StreamContinue(self.remaining > 0)
    }
}

struct Recorder {
    frames: Vec<(Vec<u8>, usize, usize, usize, usize, u64, u64)>,
}

impl CameraCallback for Recorder {
    fn on_frame(&mut self, frame: Frame<&[u8]>) -> StreamContinue {
        self.frames.push((
            frame.data.to_vec(),
            frame.width,
            frame.height,
            frame.offset_x,
            frame.offset_y,
            frame.id,
            frame.timestamp,
        ));
        StreamContinue(true)
    }
}

fn descriptor(frame_id: u64) -> FrameDescriptor {
    FrameDescriptor {
        width: 320,
        height: 240,
        offset_x: 8,
        offset_y: 16,
        frame_id,
        timestamp: 1000 + frame_id,
    }
}

fn scripted_camera(payload: i64, frames: usize) -> Camera<SimDevice> {
    let mut sim = SimDevice::new(payload, 3);
    for k in 0..frames {
        sim.push_frame(descriptor(k as u64), vec![k as u8; 4]);
    }
    Camera::from_device(sim)
}

#[test]
fn start_then_stop_revokes_all_buffers() {
    let mut cam = scripted_camera(16, 0);
    let mut ctx = cam.start_streaming(CountAndContinue { seen: 0 }, 3).unwrap();
    assert_eq!(cam.session_state(), SessionState::Streaming);
    for slot in 0..3 {
        assert!(cam.device_ref().is_announced(slot));
        assert!(cam.device_ref().is_queued(slot));
    }
    cam.stop_streaming(&mut ctx).unwrap();
    assert_eq!(cam.session_state(), SessionState::Idle);
    assert!(!cam.device_ref().any_announced());
    assert_eq!(ctx.into_handler().seen, 0);
}

#[test]
fn start_then_stop_with_single_buffer() {
    let mut cam = scripted_camera(8, 0);
    let mut ctx = cam.start_streaming(CountAndContinue { seen: 0 }, 1).unwrap();
    cam.stop_streaming(&mut ctx).unwrap();
    assert_eq!(cam.session_state(), SessionState::Idle);
    assert!(!cam.device_ref().any_announced());
}

#[test]
fn second_start_fails_with_device_busy() {
    let mut cam = scripted_camera(16, 2);
    let mut ctx = cam.start_streaming(CountAndContinue { seen: 0 }, 2).unwrap();
    let second = cam.start_streaming(CountAndContinue { seen: 0 }, 2);
    assert!(matches!(second, Err(Error::DeviceBusy)));
    // The existing session is untouched and still works.
    assert_eq!(cam.session_state(), SessionState::Streaming);
    let outcome = cam.process_frame(&mut ctx).unwrap();
    assert_eq!(outcome, BridgeOutcome::Requeued);
    cam.stop_streaming(&mut ctx).unwrap();
    assert_eq!(cam.session_state(), SessionState::Idle);
}

#[test]
fn continue_handler_keeps_requeuing() {
    let mut cam = scripted_camera(16, 4);
    let mut ctx = cam.start_streaming(CountAndContinue { seen: 0 }, 2).unwrap();
    for _ in 0..4 {
        let outcome = cam.process_frame(&mut ctx).unwrap();
        assert_eq!(outcome, BridgeOutcome::Requeued);
        assert!(!ctx.is_stopped());
    }
    cam.stop_streaming(&mut ctx).unwrap();
    assert_eq!(ctx.handler_ref().seen, 4);
}

#[test]
fn stop_request_abandons_without_invoking_handler() {
    let mut cam = scripted_camera(16, 2);
    let mut ctx = cam.start_streaming(CountAndContinue { seen: 0 }, 2).unwrap();
    ctx.request_stop();
    let outcome = cam.process_frame(&mut ctx).unwrap();
    assert_eq!(outcome, BridgeOutcome::Abandoned);
    assert!(ctx.is_stopped());
    assert_eq!(ctx.handler_ref().seen, 0);
    // Once stopped, a further completion is ignored: no handler run, no
    // re-queue.
    let outcome = cam.process_frame(&mut ctx).unwrap();
    assert_eq!(outcome, BridgeOutcome::Ignored);
    assert_eq!(ctx.handler_ref().seen, 0);
    cam.stop_streaming(&mut ctx).unwrap();
}

#[test]
fn kth_invocation_halts_without_another() {
    let mut cam = scripted_camera(16, 4);
    let mut ctx = cam.start_streaming(StopAfter { remaining: 2, invocations: 0 }, 2).unwrap();
    assert_eq!(cam.process_frame(&mut ctx).unwrap(), BridgeOutcome::Requeued);
    assert_eq!(cam.process_frame(&mut ctx).unwrap(), BridgeOutcome::Halted);
    assert!(ctx.is_stopped());
    assert_eq!(ctx.handler_ref().invocations, 2);
    // A further completion never reaches the handler: no third invocation.
    assert_eq!(cam.process_frame(&mut ctx).unwrap(), BridgeOutcome::Ignored);
    assert_eq!(ctx.handler_ref().invocations, 2);
    cam.stop_streaming(&mut ctx).unwrap();
    assert_eq!(ctx.handler_ref().invocations, 2);
}

#[test]
fn stream_runs_until_handler_stops() {
    let mut cam = scripted_camera(16, 5);
    cam.stream(StopAfter { remaining: 3, invocations: 0 }, 2).unwrap();
    assert_eq!(cam.session_state(), SessionState::Idle);
    assert!(!cam.device_ref().any_announced());
}

#[test]
fn exhausted_script_surfaces_timeout() {
    let mut cam = scripted_camera(16, 1);
    let mut ctx = cam.start_streaming(CountAndContinue { seen: 0 }, 1).unwrap();
    assert_eq!(cam.process_frame(&mut ctx).unwrap(), BridgeOutcome::Requeued);
    let worn_out = cam.process_frame(&mut ctx);
    assert!(matches!(worn_out, Err(Error::Timeout)));
    cam.stop_streaming(&mut ctx).unwrap();
}

#[test]
fn stream_on_exhausted_script_tears_down() {
    let mut cam = scripted_camera(16, 2);
    let r = cam.stream(CountAndContinue { seen: 0 }, 1);
    assert!(matches!(r, Err(Error::Timeout)));
    assert_eq!(cam.session_state(), SessionState::Idle);
    assert!(!cam.device_ref().any_announced());
}

#[test]
fn get_frame_returns_one_frame_and_idles() {
    let mut cam = scripted_camera(4, 2);
    let frame = cam.get_frame().unwrap();
    assert_eq!(frame.data, vec![0u8; 4]);
    assert_eq!(frame.width, 320);
    assert_eq!(frame.height, 240);
    assert_eq!(frame.offset_x, 8);
    assert_eq!(frame.offset_y, 16);
    assert_eq!(frame.id, 0);
    assert_eq!(frame.timestamp, 1000);
    assert_eq!(cam.session_state(), SessionState::Idle);
    assert!(!cam.device_ref().any_announced());
    // Callable repeatedly in sequence: the next call delivers the next
    // scripted frame.
    let frame = cam.get_frame().unwrap();
    assert_eq!(frame.data, vec![1u8; 4]);
    assert_eq!(frame.id, 1);
    assert_eq!(cam.session_state(), SessionState::Idle);
}

#[test]
fn handler_sees_descriptor_metadata_unmodified() {
    let mut sim = SimDevice::new(3, 2);
    sim.push_frame(
        FrameDescriptor {
            width: 640,
            height: 480,
            offset_x: 2,
            offset_y: 4,
            frame_id: 77,
            timestamp: 123_456_789,
        },
        vec![9, 8, 7],
    );
    let mut cam = Camera::from_device(sim);
    let mut ctx = cam.start_streaming(Recorder { frames: Vec::new() }, 1).unwrap();
    assert_eq!(cam.process_frame(&mut ctx).unwrap(), BridgeOutcome::Requeued);
    cam.stop_streaming(&mut ctx).unwrap();
    let recorder = ctx.into_handler();
    assert_eq!(recorder.frames.len(), 1);
    let (data, width, height, ox, oy, id, ts) = &recorder.frames[0];
    assert_eq!(data, &vec![9, 8, 7]);
    assert_eq!(*width, 640);
    assert_eq!(*height, 480);
    assert_eq!(*ox, 2);
    assert_eq!(*oy, 4);
    assert_eq!(*id, 77);
    assert_eq!(*ts, 123_456_789);
}

#[test]
fn teardown_orders_flush_before_every_revoke() {
    let mut cam = scripted_camera(16, 6);
    cam.stream(StopAfter { remaining: 2, invocations: 0 }, 3).unwrap();
    let log = cam.device_ref().event_log().clone();
    let flushed_at = log.iter().position(|e| *e == SimEvent::Flushed).unwrap();
    let ended_at = log.iter().position(|e| *e == SimEvent::CaptureEnded).unwrap();
    let stop_at = log.iter().position(|e| *e == SimEvent::StopCommand).unwrap();
    assert!(stop_at < ended_at);
    assert!(ended_at < flushed_at);
    let mut revokes = 0;
    for (i, e) in log.iter().enumerate() {
        match e {
            SimEvent::Revoked(_) => {
                revokes += 1;
                assert!(i > flushed_at, "revoke before flush");
            }
            SimEvent::Submitted(_) => {
                assert!(i < flushed_at, "submit after flush");
            }
            _ => {}
        }
    }
    assert_eq!(revokes, 3);
}

#[test]
fn close_while_streaming_runs_stop_protocol() {
    let mut cam = scripted_camera(16, 2);
    let _ctx = cam.start_streaming(CountAndContinue { seen: 0 }, 2).unwrap();
    cam.close().unwrap();
    assert!(!cam.is_open());
    assert_eq!(cam.session_state(), SessionState::Idle);
    assert!(!cam.device_ref().any_announced());
    assert!(!cam.device_ref().is_device_open());
    let again = cam.start_streaming(CountAndContinue { seen: 0 }, 1);
    assert!(matches!(again, Err(Error::DeviceNotOpen)));
}

#[test]
fn close_when_idle_is_clean_and_idempotent() {
    let mut cam = scripted_camera(16, 0);
    cam.close().unwrap();
    assert!(!cam.is_open());
    cam.close().unwrap();
    assert!(!cam.is_open());
}

#[test]
fn failed_acquisition_start_rolls_back_fully() {
    let mut sim = SimDevice::new(16, 3);
    // With two buffers the acquisition-start command is the ninth driver
    // call: payload query, two announces, two feature writes, capture
    // start, two submits, then the command.
    sim.inject_fault(8, Error::Resources);
    let mut cam = Camera::from_device(sim);
    let r = cam.start_streaming(CountAndContinue { seen: 0 }, 2);
    assert!(matches!(r, Err(Error::Resources)));
    assert_eq!(cam.session_state(), SessionState::Idle);
    assert!(!cam.device_ref().any_announced());
    let log = cam.device_ref().event_log();
    assert!(!log.contains(&SimEvent::StartCommand));
    let flushed_at = log.iter().position(|e| *e == SimEvent::Flushed).unwrap();
    for (i, e) in log.iter().enumerate() {
        if matches!(e, SimEvent::Revoked(_)) {
            assert!(i > flushed_at);
        }
    }
}

#[test]
fn failed_announce_rolls_back_earlier_buffers() {
    let mut sim = SimDevice::new(16, 3);
    // The third driver call is the announce of the second buffer.
    sim.inject_fault(2, Error::Resources);
    let mut cam = Camera::from_device(sim);
    let r = cam.start_streaming(CountAndContinue { seen: 0 }, 3);
    assert!(matches!(r, Err(Error::Resources)));
    assert_eq!(cam.session_state(), SessionState::Idle);
    assert!(!cam.device_ref().any_announced());
}

#[test]
fn failed_stop_leaves_the_session_faulted() {
    let mut sim = SimDevice::new(16, 3);
    // Starting with one buffer takes seven driver calls; the eighth is the
    // acquisition-stop command issued by the stop protocol.
    sim.inject_fault(7, Error::IO);
    let mut cam = Camera::from_device(sim);
    let mut ctx = cam.start_streaming(CountAndContinue { seen: 0 }, 1).unwrap();
    let r = cam.stop_streaming(&mut ctx);
    assert!(matches!(r, Err(Error::IO)));
    assert_eq!(cam.session_state(), SessionState::Faulted);
    // A faulted session refuses further streaming: the driver may still
    // hold buffer memory.
    let again = cam.start_streaming(CountAndContinue { seen: 0 }, 1);
    assert!(matches!(again, Err(Error::InvalidCall)));
}
