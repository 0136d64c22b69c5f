//! The streaming session: the buffer-pool lifecycle, the callback bridge
//! that turns driver completions into handler invocations, and the start and
//! stop protocol that guarantees no buffer is revoked while the driver may
//! still write into it.

use vstd::prelude::*;
use vstd::set_lib::set_int_range;

use crate::device::{
    spec_acquisition_mode_name, spec_payload_size_name, spec_status_selector_name, CaptureDevice,
    FrameDescriptor,
};
use crate::error::Error;
use crate::feature::FeatureValue;

verus! {

/// One completed frame as the session exposes it: the data, the image
/// geometry, the frame's id and its timestamp.
pub struct Frame<T> {
    /// The frame's pixel data.
    pub data: T,
    /// The image width in pixels.
    pub width: usize,
    /// The image height in pixels.
    pub height: usize,
    /// The horizontal offset of the region of interest.
    pub offset_x: usize,
    /// The vertical offset of the region of interest.
    pub offset_y: usize,
    /// The driver's running frame id.
    pub id: u64,
    /// The driver's timestamp for the frame.
    pub timestamp: u64,
}

impl<T> Frame<T> {
    /// The same frame with its data replaced by what `f` makes of it; the
    /// metadata is carried over unchanged.
    pub fn map_data<U, F: FnOnce(&T) -> U>(&self, f: F) -> (r: Frame<U>)
        requires
            call_requires(f, (&self.data,)),
        ensures
            call_ensures(f, (&self.data,), r.data),
            r.width == self.width,
            r.height == self.height,
            r.offset_x == self.offset_x,
            r.offset_y == self.offset_y,
            r.id == self.id,
            r.timestamp == self.timestamp,
    {
        Frame {
            data: f(&self.data),
            width: self.width,
            height: self.height,
            offset_x: self.offset_x,
            offset_y: self.offset_y,
            id: self.id,
            timestamp: self.timestamp,
        }
    }
}

impl<'a> Frame<&'a [u8]> {
    /// The read-only view of one completed capture: every metadata field is
    /// exactly what the driver wrote into the descriptor, and the data is
    /// the filled buffer, unmodified.
    pub fn from_descriptor(desc: &FrameDescriptor, data: &'a [u8]) -> (r: Frame<&'a [u8]>)
        ensures
            r.data@ == data@,
            r.width == desc.width,
            r.height == desc.height,
            r.offset_x == desc.offset_x,
            r.offset_y == desc.offset_y,
            r.id == desc.frame_id,
            r.timestamp == desc.timestamp,
    {
        Frame {
            data,
            width: desc.width,
            height: desc.height,
            offset_x: desc.offset_x,
            offset_y: desc.offset_y,
            id: desc.frame_id,
            timestamp: desc.timestamp,
        }
    }

    /// The same frame with the data copied into an owned vector.
    pub fn with_vec_data(&self) -> (r: Frame<Vec<u8>>)
        ensures
            r.data@ == self.data@,
            r.width == self.width,
            r.height == self.height,
            r.offset_x == self.offset_x,
            r.offset_y == self.offset_y,
            r.id == self.id,
            r.timestamp == self.timestamp,
    {
        Frame {
            data: vstd::slice::slice_to_vec(self.data),
            width: self.width,
            height: self.height,
            offset_x: self.offset_x,
            offset_y: self.offset_y,
            id: self.id,
            timestamp: self.timestamp,
        }
    }
}

impl Frame<Vec<u8>> {
    /// The same frame with the data borrowed as a slice.
    pub fn with_ref_data(&self) -> (r: Frame<&[u8]>)
        ensures
            r.data@ == self.data@,
            r.width == self.width,
            r.height == self.height,
            r.offset_x == self.offset_x,
            r.offset_y == self.offset_y,
            r.id == self.id,
            r.timestamp == self.timestamp,
    {
        Frame {
            data: self.data.as_slice(),
            width: self.width,
            height: self.height,
            offset_x: self.offset_x,
            offset_y: self.offset_y,
            id: self.id,
            timestamp: self.timestamp,
        }
    }
}

impl Default for Frame<Vec<u8>> {
    /// An empty frame: no data, zero geometry, id and timestamp zero.
    fn default() -> (r: Self)
        ensures
            r.data@.len() == 0,
            r.width == 0,
            r.height == 0,
            r.offset_x == 0,
            r.offset_y == 0,
            r.id == 0,
            r.timestamp == 0,
    {
        Frame { data: Vec::new(), width: 0, height: 0, offset_x: 0, offset_y: 0, id: 0, timestamp: 0 }
    }
}

/// What a handler answers after seeing a frame: `StreamContinue(true)` keeps
/// the stream running, `StreamContinue(false)` stops it after this frame.
#[derive(PartialEq, Eq, Clone, Copy, Debug, Structural)]
pub struct StreamContinue(pub bool);

/// The descriptor a frame view carries, reassembled from its metadata
/// fields.
pub open spec fn spec_frame_descriptor<T>(frame: Frame<T>) -> FrameDescriptor {
    FrameDescriptor {
        width: frame.width,
        height: frame.height,
        offset_x: frame.offset_x,
        offset_y: frame.offset_y,
        frame_id: frame.id,
        timestamp: frame.timestamp,
    }
}

/// A user-supplied frame handler. The bridge invokes it once per delivered
/// frame, on the capture path; the frame view it receives is valid only for
/// the duration of the invocation, so a handler keeps only data it copies
/// out.
///
/// The two spec functions describe the handler to the bridge: what it
/// answers for a given state and frame — `Some(b)` when the answer is a
/// function of the two, `None` when it also depends on something else, such
/// as another thread — and which successor states it may be left in. The
/// bridge's contract ties its outcome to them, which is what makes "a
/// continuing handler is re-queued, a stopping handler halts" a provable
/// statement.
pub trait CameraCallback: Sized {
    /// What the handler answers for a frame with these bytes and this
    /// descriptor, in its current state; `None` — the default — when the
    /// answer is not promised to be a function of state and frame alone.
    open spec fn spec_answer(&self, data: Seq<u8>, desc: FrameDescriptor) -> Option<bool> {
        None
    }

    /// Which successor states the handler may be left in after seeing a
    /// frame with these bytes and this descriptor; by default any.
    open spec fn spec_post(&self, data: Seq<u8>, desc: FrameDescriptor, post: Self) -> bool {
        true
    }

    /// Handles one completed frame and answers whether to keep streaming.
    fn on_frame(&mut self, frame: Frame<&[u8]>) -> (r: StreamContinue)
        ensures
            (match old(self).spec_answer(frame.data@, spec_frame_descriptor(frame)) {
                Some(b) => r == StreamContinue(b),
                None => true,
            }),
            old(self).spec_post(frame.data@, spec_frame_descriptor(frame), *final(self)),
    ;
}

/// The per-session state shared between the control side and the capture
/// side: the handler, the stop-request signal, the stopped flag, and the
/// session's buffer count. Exactly one of these exists per active session.
pub struct CallbackContext<H: CameraCallback> {
    pub(crate) handler: H,
    pub(crate) num_buffers: usize,
    pub(crate) stop_requested: bool,
    pub(crate) stopped: bool,
    pub(crate) invocations: Ghost<nat>,
}

impl<H: CameraCallback> CallbackContext<H> {
    /// The handler the session was started with.
    pub closed spec fn spec_handler(&self) -> H {
        self.handler
    }

    /// The number of buffers the session was started with.
    pub closed spec fn spec_num_buffers(&self) -> usize {
        self.num_buffers
    }

    /// Whether a stop request has been sent and not yet observed by the
    /// bridge.
    pub closed spec fn spec_stop_requested(&self) -> bool {
        self.stop_requested
    }

    /// Whether the bridge has stopped: no further handler invocation or
    /// re-queue happens once this holds.
    pub closed spec fn spec_stopped(&self) -> bool {
        self.stopped
    }

    /// How many times the handler has been invoked.
    pub closed spec fn spec_invocations(&self) -> nat {
        self.invocations@
    }

    /// Whether the bridge has stopped.
    pub fn is_stopped(&self) -> (r: bool)
        ensures
            r == self.spec_stopped(),
    {
        self.stopped
    }

    /// Whether a stop request is pending.
    pub fn stop_pending(&self) -> (r: bool)
        ensures
            r == self.spec_stop_requested(),
    {
        self.stop_requested
    }

    /// The number of buffers the session was started with.
    pub fn buffer_count(&self) -> (r: usize)
        ensures
            r == self.spec_num_buffers(),
    {
        self.num_buffers
    }

    /// Sends the single-use stop request: the bridge observes it on its
    /// next invocation and abandons that buffer without running the
    /// handler. This is the signal half of the stop protocol;
    /// `stop_streaming` sends it itself before touching the device.
    pub fn request_stop(&mut self)
        ensures
            final(self).spec_stop_requested(),
            final(self).spec_stopped() == old(self).spec_stopped(),
            final(self).spec_invocations() == old(self).spec_invocations(),
            final(self).spec_num_buffers() == old(self).spec_num_buffers(),
            final(self).spec_handler() == old(self).spec_handler(),
    {
        self.stop_requested = true;
    }

    /// A borrow of the handler, e.g. to read what it accumulated.
    pub fn handler_ref(&self) -> (r: &H)
        ensures
            *r == self.spec_handler(),
    {
        &self.handler
    }

    /// Takes the handler back out of a finished session.
    pub fn into_handler(self) -> (r: H)
        ensures
            r == self.spec_handler(),
    {
        self.handler
    }
}

/// What one bridge invocation did with a completed buffer.
#[derive(PartialEq, Eq, Clone, Copy, Debug, Structural)]
pub enum BridgeOutcome {
    /// A pending stop request was observed: the buffer is deliberately
    /// abandoned as the final act, without invoking the handler.
    Abandoned,
    /// The bridge had already stopped: the invocation is an idempotent
    /// no-op.
    Ignored,
    /// The handler was invoked and signalled stop: the buffer is not
    /// re-queued.
    Halted,
    /// The handler was invoked and signalled continue: the same buffer was
    /// re-queued for the next capture cycle.
    Requeued,
}

/// The bridge's transition relation: how one invocation moves the shared
/// context for a completed frame with descriptor `desc` and bytes `data`,
/// depending on the pending stop request, the stopped flag, and — when the
/// handler runs — the handler's answer.
pub open spec fn spec_bridge_step<H: CameraCallback>(
    pre: CallbackContext<H>,
    post: CallbackContext<H>,
    outcome: BridgeOutcome,
    desc: FrameDescriptor,
    data: Seq<u8>,
) -> bool {
    &&& post.spec_num_buffers() == pre.spec_num_buffers()
    &&& if pre.spec_stop_requested() {
        &&& outcome == BridgeOutcome::Abandoned
        &&& post.spec_stopped()
        &&& !post.spec_stop_requested()
        &&& post.spec_invocations() == pre.spec_invocations()
        &&& post.spec_handler() == pre.spec_handler()
    } else if pre.spec_stopped() {
        &&& outcome == BridgeOutcome::Ignored
        &&& post.spec_stopped()
        &&& !post.spec_stop_requested()
        &&& post.spec_invocations() == pre.spec_invocations()
        &&& post.spec_handler() == pre.spec_handler()
    } else {
        &&& (outcome == BridgeOutcome::Halted || outcome == BridgeOutcome::Requeued)
        &&& post.spec_invocations() == pre.spec_invocations() + 1
        &&& post.spec_stopped() == (outcome == BridgeOutcome::Halted)
        &&& !post.spec_stop_requested()
        &&& (match pre.spec_handler().spec_answer(data, desc) {
            Some(b) => outcome == (if b {
                BridgeOutcome::Requeued
            } else {
                BridgeOutcome::Halted
            }),
            None => true,
        })
        &&& pre.spec_handler().spec_post(data, desc, post.spec_handler())
    }
}

/// Once stop has been observed, the bridge neither re-queues a buffer nor
/// invokes the handler again: every later invocation is an idempotent no-op.
pub proof fn lemma_no_requeue_after_stop<H: CameraCallback>(
    pre: CallbackContext<H>,
    post: CallbackContext<H>,
    outcome: BridgeOutcome,
    desc: FrameDescriptor,
    data: Seq<u8>,
)
    requires
        pre.spec_stopped(),
        spec_bridge_step(pre, post, outcome, desc, data),
    ensures
        outcome != BridgeOutcome::Requeued,
        post.spec_invocations() == pre.spec_invocations(),
        post.spec_stopped(),
{
}

/// A handler that signals stop halts the session: after the invocation that
/// returned `Halted`, the next bridge invocation never runs the handler
/// again and never re-queues.
pub proof fn lemma_halt_is_final<H: CameraCallback>(
    s0: CallbackContext<H>,
    s1: CallbackContext<H>,
    s2: CallbackContext<H>,
    second: BridgeOutcome,
    first_desc: FrameDescriptor,
    first_data: Seq<u8>,
    second_desc: FrameDescriptor,
    second_data: Seq<u8>,
)
    requires
        spec_bridge_step(s0, s1, BridgeOutcome::Halted, first_desc, first_data),
        spec_bridge_step(s1, s2, second, second_desc, second_data),
    ensures
        s2.spec_invocations() == s1.spec_invocations(),
        second != BridgeOutcome::Requeued,
{
}

/// A buffer is re-queued only while the session is live: no stop request
/// was pending and no stop had been observed, before or after the step.
pub proof fn lemma_requeue_means_live<H: CameraCallback>(
    pre: CallbackContext<H>,
    post: CallbackContext<H>,
    outcome: BridgeOutcome,
    desc: FrameDescriptor,
    data: Seq<u8>,
)
    requires
        spec_bridge_step(pre, post, outcome, desc, data),
        outcome == BridgeOutcome::Requeued,
    ensures
        !pre.spec_stop_requested(),
        !pre.spec_stopped(),
        !post.spec_stopped(),
{
}

/// A handler whose answer for this frame is continue is re-queued, not
/// halted: with no stop observed, the stream keeps running for as long as
/// the handler keeps answering continue.
pub proof fn lemma_continue_answer_requeues<H: CameraCallback>(
    pre: CallbackContext<H>,
    post: CallbackContext<H>,
    outcome: BridgeOutcome,
    desc: FrameDescriptor,
    data: Seq<u8>,
)
    requires
        !pre.spec_stop_requested(),
        !pre.spec_stopped(),
        spec_bridge_step(pre, post, outcome, desc, data),
        pre.spec_handler().spec_answer(data, desc) == Some(true),
    ensures
        outcome == BridgeOutcome::Requeued,
        !post.spec_stopped(),
        post.spec_invocations() == pre.spec_invocations() + 1,
{
}

/// A handler whose answer for this frame is stop halts the session on
/// exactly that invocation: the bridge marks the context stopped and does
/// not re-queue, and every later invocation is a no-op.
pub proof fn lemma_stop_answer_halts<H: CameraCallback>(
    pre: CallbackContext<H>,
    post: CallbackContext<H>,
    outcome: BridgeOutcome,
    desc: FrameDescriptor,
    data: Seq<u8>,
)
    requires
        !pre.spec_stop_requested(),
        !pre.spec_stopped(),
        spec_bridge_step(pre, post, outcome, desc, data),
        pre.spec_handler().spec_answer(data, desc) == Some(false),
    ensures
        outcome == BridgeOutcome::Halted,
        post.spec_stopped(),
        post.spec_invocations() == pre.spec_invocations() + 1,
{
}

/// The lifecycle of a streaming session.
#[derive(PartialEq, Eq, Clone, Copy, Debug, Structural)]
pub enum SessionState {
    /// No session is active: the device holds no announced buffer.
    Idle,
    /// A session is active: the buffers are announced and the capture
    /// pipeline is engaged.
    Streaming,
    /// A teardown failed after the stop protocol had begun: the driver may
    /// still hold buffers, so the session refuses further streaming.
    Faulted,
}

/// An open camera: a capture device together with the session bookkeeping
/// that guarantees at most one streaming session at a time and a teardown
/// that never revokes a queued buffer.
pub struct Camera<D: CaptureDevice> {
    device: D,
    open: bool,
    state: SessionState,
    active_buffers: usize,
}

impl<D: CaptureDevice> Camera<D> {
    /// The capture device this camera drives.
    pub closed spec fn spec_device(&self) -> D {
        self.device
    }

    /// Whether the camera is open.
    pub closed spec fn spec_open(&self) -> bool {
        self.open
    }

    /// The session lifecycle state.
    pub closed spec fn spec_state(&self) -> SessionState {
        self.state
    }

    /// The buffer count of the active session; meaningful while streaming.
    pub closed spec fn spec_active_buffers(&self) -> usize {
        self.active_buffers
    }

    /// The session invariant. Idle sessions hold no driver resources at
    /// all; streaming sessions have exactly the slots `0..active_buffers`
    /// announced, every queued slot among them, and the capture pipeline
    /// engaged. A faulted session promises nothing: it exists to refuse
    /// further use after a failed teardown.
    pub open spec fn inv(&self) -> bool {
        match self.spec_state() {
            SessionState::Idle => {
                &&& self.spec_device().announced().is_empty()
                &&& self.spec_device().queued().is_empty()
                &&& !self.spec_device().capturing()
            },
            SessionState::Streaming => {
                &&& 1 <= self.spec_active_buffers()
                &&& self.spec_device().announced() == set_int_range(
                    0,
                    self.spec_active_buffers() as int,
                )
                &&& self.spec_device().queued().subset_of(self.spec_device().announced())
                &&& self.spec_device().capturing()
                &&& self.spec_open()
            },
            SessionState::Faulted => true,
        }
    }

    /// Takes ownership of a quiescent device: nothing announced, nothing
    /// queued, capture pipeline disengaged.
    pub fn from_device(device: D) -> (r: Camera<D>)
        requires
            device.announced().is_empty(),
            device.queued().is_empty(),
            !device.capturing(),
        ensures
            r.inv(),
            r.spec_state() == SessionState::Idle,
            r.spec_open(),
            r.spec_device() == device,
    {
        Camera { device, open: true, state: SessionState::Idle, active_buffers: 0 }
    }

    /// Whether the camera is open.
    pub fn is_open(&self) -> (r: bool)
        ensures
            r == self.spec_open(),
    {
        self.open
    }

    /// The session lifecycle state.
    pub fn session_state(&self) -> (r: SessionState)
        ensures
            r == self.spec_state(),
    {
        self.state
    }

    /// A borrow of the underlying device, e.g. to inspect it in tests.
    pub fn device_ref(&self) -> (r: &D)
        ensures
            *r == self.spec_device(),
    {
        &self.device
    }

    /// Revokes the buffers `0..n`, in order. May only run once nothing is
    /// queued: a queued buffer must never be revoked.
    fn revoke_all(&mut self, n: usize) -> (r: Result<(), Error>)
        requires
            old(self).spec_device().announced() == set_int_range(0, n as int),
            old(self).spec_device().queued().is_empty(),
            !old(self).spec_device().capturing(),
            !old(self).spec_device().acquisition_active(),
        ensures
            final(self).spec_open() == old(self).spec_open(),
            final(self).spec_state() == old(self).spec_state(),
            final(self).spec_active_buffers() == old(self).spec_active_buffers(),
            final(self).spec_device().queued().is_empty(),
            !final(self).spec_device().capturing(),
            !final(self).spec_device().acquisition_active(),
            final(self).spec_device().delivered() == old(self).spec_device().delivered(),
            r is Ok ==> final(self).spec_device().announced().is_empty(),
    {
        let mut i: usize = 0;
        while i < n
            invariant
                i <= n,
                self.spec_device().delivered() == old(self).spec_device().delivered(),
                self.spec_device().announced() == set_int_range(i as int, n as int),
                self.spec_device().queued().is_empty(),
                !self.spec_device().capturing(),
                !self.spec_device().acquisition_active(),
                self.spec_open() == old(self).spec_open(),
                self.spec_state() == old(self).spec_state(),
                self.spec_active_buffers() == old(self).spec_active_buffers(),
            decreases n - i,
        {
            match self.device.revoke_buffer(i) {
                Ok(()) => {
                    proof {
                        assert(set_int_range(i as int, n as int).remove(i as int) =~= set_int_range(
                            i as int + 1,
                            n as int,
                        ));
                    }
                },
                Err(e) => {
                    return Err(e);
                },
            }
            i = i + 1;
        }
        proof {
            assert(set_int_range(n as int, n as int) =~= Set::<int>::empty());
        }
        Ok(())
    }

    /// The device side of the stop protocol, in the order that makes
    /// revocation safe: stop acquisition, poll the status feature until the
    /// device reports acquisition inactive, then — only then — end the
    /// capture pipeline, flush the driver's queue, and revoke every buffer.
    fn teardown_device(&mut self, n: usize, capture_engaged: bool) -> (r: Result<(), Error>)
        requires
            old(self).spec_device().announced() == set_int_range(0, n as int),
            old(self).spec_device().queued().subset_of(old(self).spec_device().announced()),
            old(self).spec_device().capturing() == capture_engaged,
            !capture_engaged ==> old(self).spec_device().queued().is_empty(),
        ensures
            final(self).spec_open() == old(self).spec_open(),
            final(self).spec_state() == old(self).spec_state(),
            final(self).spec_active_buffers() == old(self).spec_active_buffers(),
            final(self).spec_device().delivered() == old(self).spec_device().delivered(),
            r is Ok ==> final(self).spec_device().announced().is_empty() && final(self).spec_device().queued().is_empty() && !final(self).spec_device().capturing(),
    {
        match self.device.run_command("AcquisitionStop") {
            Ok(()) => {},
            Err(e) => {
                return Err(e);
            },
        }
        // Poll the previously armed acquisition-status feature until the
        // device confirms quiescence: only from then on is it safe to touch
        // buffer memory from the control side.
        loop
            invariant_except_break
                self.spec_device().announced() == set_int_range(0, n as int),
                self.spec_device().queued().subset_of(self.spec_device().announced()),
                self.spec_device().capturing() == capture_engaged,
                !capture_engaged ==> self.spec_device().queued().is_empty(),
                self.spec_open() == old(self).spec_open(),
                self.spec_state() == old(self).spec_state(),
                self.spec_active_buffers() == old(self).spec_active_buffers(),
                self.spec_device().delivered() == old(self).spec_device().delivered(),
            ensures
                self.spec_device().announced() == set_int_range(0, n as int),
                self.spec_device().queued().subset_of(self.spec_device().announced()),
                self.spec_device().capturing() == capture_engaged,
                !capture_engaged ==> self.spec_device().queued().is_empty(),
                self.spec_open() == old(self).spec_open(),
                self.spec_state() == old(self).spec_state(),
                self.spec_active_buffers() == old(self).spec_active_buffers(),
                self.spec_device().delivered() == old(self).spec_device().delivered(),
                !self.spec_device().acquisition_active(),
            decreases self.spec_device().quiescence_bound(),
        {
            match self.device.get_feature("AcquisitionStatus") {
                Ok(FeatureValue::Bool(b)) => {
                    if !b {
                        break;
                    }
                },
                Ok(_) => {
                    return Err(Error::WrongType);
                },
                Err(e) => {
                    return Err(e);
                },
            }
            self.device.poll_delay();
        }
        if capture_engaged {
            match self.device.end_capture() {
                Ok(()) => {},
                Err(e) => {
                    return Err(e);
                },
            }
            match self.device.flush_queue() {
                Ok(()) => {},
                Err(e) => {
                    return Err(e);
                },
            }
        }
        self.revoke_all(n)
    }

    /// Closes the camera. A still-streaming session is first torn down with
    /// the full stop protocol — destroying a session must never abandon
    /// buffers the driver could still write. Closing an already-closed
    /// camera is a no-op.
    pub fn close(&mut self) -> (r: Result<(), Error>)
        requires
            old(self).inv(),
        ensures
            final(self).inv(),
            !old(self).spec_open() ==> r is Ok && *final(self) == *old(self),
            r is Ok ==> !final(self).spec_open(),
            r is Ok && old(self).spec_state() == SessionState::Streaming ==> final(self).spec_state() == SessionState::Idle,
            r is Err && old(self).spec_state() == SessionState::Streaming ==> final(self).spec_state() == SessionState::Faulted || final(self).spec_open(),
            r is Err ==> final(self).spec_open() == old(self).spec_open(),
    {
        if !self.open {
            return Ok(());
        }
        if matches!(self.state, SessionState::Streaming) {
            let n = self.active_buffers;
            match self.teardown_device(n, true) {
                Ok(()) => {
                    self.state = SessionState::Idle;
                },
                Err(e) => {
                    self.state = SessionState::Faulted;
                    return Err(e);
                },
            }
        }
        match self.device.close_device() {
            Ok(()) => {
                self.open = false;
                Ok(())
            },
            Err(e) => Err(e),
        }
    }
}

/// How a successful `start_streaming` with `n` buffers moves a session: an
/// idle session becomes a streaming one whose `n` buffers are all announced
/// and all queued, with the capture pipeline engaged and acquisition
/// active.
pub open spec fn spec_start_transition<D: CaptureDevice>(
    pre: Camera<D>,
    post: Camera<D>,
    n: usize,
) -> bool {
    &&& pre.spec_state() == SessionState::Idle
    &&& post.spec_state() == SessionState::Streaming
    &&& post.spec_active_buffers() == n
    &&& post.spec_device().announced() == set_int_range(0, n as int)
    &&& post.spec_device().queued() == set_int_range(0, n as int)
    &&& post.spec_device().capturing()
    &&& post.spec_device().acquisition_active()
}

/// How a successful `stop_streaming` moves a session: a streaming session
/// becomes idle, with every buffer revoked, nothing queued, and the capture
/// pipeline disengaged.
pub open spec fn spec_stop_transition<D: CaptureDevice>(pre: Camera<D>, post: Camera<D>) -> bool {
    &&& pre.spec_state() == SessionState::Streaming
    &&& post.spec_state() == SessionState::Idle
    &&& post.spec_device().announced().is_empty()
    &&& post.spec_device().queued().is_empty()
    &&& !post.spec_device().capturing()
}

/// For every buffer count, starting a session and then stopping it ends
/// with all of its buffers revoked, nothing queued, and the session idle —
/// however many frames the bridge handled in between, since the bridge
/// preserves the streaming state that the stop transition starts from.
pub proof fn lemma_start_then_stop_releases_all<D: CaptureDevice>(
    s0: Camera<D>,
    s1: Camera<D>,
    s2: Camera<D>,
    n: usize,
)
    requires
        spec_start_transition(s0, s1, n),
        spec_stop_transition(s1, s2),
    ensures
        s2.spec_state() == SessionState::Idle,
        s2.spec_device().announced().is_empty(),
        s2.spec_device().queued().is_empty(),
{
}

/// An idle session holds no driver resources: every announced buffer has
/// been revoked and nothing is queued.
pub proof fn lemma_idle_holds_no_buffers<D: CaptureDevice>(cam: Camera<D>)
    requires
        cam.inv(),
        cam.spec_state() == SessionState::Idle,
    ensures
        cam.spec_device().announced().is_empty(),
        cam.spec_device().queued().is_empty(),
{
}

/// Whether every buffer slot below `n` is announced to the device with a
/// buffer of exactly `len` bytes.
pub open spec fn spec_pool_sized<D: CaptureDevice>(dev: D, n: usize, len: int) -> bool {
    forall|s: int|
        0 <= s < n ==> (#[trigger] dev.buffer_sizes().contains_key(s)) && dev.buffer_sizes()[s]
            == len
}

impl<D: CaptureDevice> Camera<D> {
    /// Starts a streaming session: queries the frame payload size, builds
    /// and announces `buffers` zeroed buffers, arms the acquisition-status
    /// feature, switches the device to continuous acquisition, engages the
    /// capture pipeline, queues every buffer once, and issues the
    /// acquisition-start command. Fails with `DeviceBusy` while a session is
    /// already active, leaving it untouched; on any later failure the
    /// partially built session is rolled back with the full stop protocol
    /// before the error is returned. The error-path contract admits the
    /// faulted outcome besides the fully rolled-back one only because the
    /// device model cannot say which rollback calls succeed; when they all
    /// do, the rollback releases everything.
    #[verifier::rlimit(60)]
    pub fn start_streaming<H: CameraCallback>(&mut self, handler: H, buffers: usize) -> (r: Result<
        CallbackContext<H>,
        Error,
    >)
        requires
            old(self).inv(),
            1 <= buffers,
        ensures
            final(self).inv(),
            final(self).spec_open() == old(self).spec_open(),
            old(self).spec_state() == SessionState::Streaming ==> r == Result::<
                CallbackContext<H>,
                Error,
            >::Err(Error::DeviceBusy) && *final(self) == *old(self),
            old(self).spec_state() == SessionState::Faulted ==> r == Result::<
                CallbackContext<H>,
                Error,
            >::Err(Error::InvalidCall) && *final(self) == *old(self),
            old(self).spec_state() == SessionState::Idle && !old(self).spec_open() ==> r
                == Result::<CallbackContext<H>, Error>::Err(Error::DeviceNotOpen) && *final(self)
                == *old(self),
            r matches Ok(ctx) ==> {
                &&& old(self).spec_state() == SessionState::Idle
                &&& final(self).spec_state() == SessionState::Streaming
                &&& final(self).spec_active_buffers() == buffers
                &&& final(self).spec_device().announced() == set_int_range(0, buffers as int)
                &&& final(self).spec_device().queued() == set_int_range(0, buffers as int)
                &&& final(self).spec_device().capturing()
                &&& final(self).spec_device().acquisition_active()
                &&& !ctx.spec_stopped()
                &&& !ctx.spec_stop_requested()
                &&& ctx.spec_invocations() == 0
                &&& ctx.spec_num_buffers() == buffers
                &&& ctx.spec_handler() == handler
            },
            r is Ok ==> spec_start_transition(*old(self), *final(self), buffers),
            r is Ok ==> exists|sel: String, md: String|
                sel@ == "AcquisitionActive"@ && md@ == "Continuous"@ && final(self).spec_device().features() == old(self).spec_device().features().insert(
                    spec_status_selector_name(),
                    FeatureValue::Enum(sel),
                ).insert(spec_acquisition_mode_name(), FeatureValue::Enum(md)),
            r is Ok ==> (old(self).spec_device().features().contains_key(spec_payload_size_name())
                ==> old(self).spec_device().features()[spec_payload_size_name()] is Int),
            r is Ok ==> (old(self).spec_device().features().contains_key(spec_payload_size_name())
                ==> 0 <= old(self).spec_device().features()[spec_payload_size_name()]->Int_0
                <= usize::MAX),
            r is Ok ==> (old(self).spec_device().features().contains_key(spec_payload_size_name())
                ==> spec_pool_sized(
                    final(self).spec_device(),
                    buffers,
                    old(self).spec_device().features()[spec_payload_size_name()]->Int_0 as int,
                )),
            old(self).spec_state() == SessionState::Idle && old(self).spec_open() && old(self).spec_device().features().contains_key(spec_payload_size_name()) && !(old(self).spec_device().features()[spec_payload_size_name()] matches FeatureValue::Int(_))
                ==> r is Err,
            old(self).spec_state() == SessionState::Idle && old(self).spec_open() && (old(self).spec_device().features()[spec_payload_size_name()] matches FeatureValue::Int(pv) && (
            pv < 0 || pv > usize::MAX) && old(self).spec_device().features().contains_key(
                spec_payload_size_name(),
            )) ==> r is Err,
            r is Ok ==> final(self).spec_device().delivered() == old(self).spec_device().delivered(),
            r is Err && old(self).spec_state() == SessionState::Idle ==> (final(self).spec_state()
                == SessionState::Idle && final(self).spec_device().announced().is_empty() && final(self).spec_device().queued().is_empty()) || final(self).spec_state()
                == SessionState::Faulted,
    {
        if self.state == SessionState::Streaming {
            return Err(Error::DeviceBusy);
        }
        if self.state == SessionState::Faulted {
            return Err(Error::InvalidCall);
        }
        if !self.open {
            return Err(Error::DeviceNotOpen);
        }
        // How large must each buffer be?
        let size_val = match self.device.get_feature("PayloadSize") {
            Ok(FeatureValue::Int(v)) => v,
            Ok(_) => {
                return Err(Error::WrongType);
            },
            Err(e) => {
                return Err(e);
            },
        };
        if size_val < 0 {
            return Err(Error::InvalidValue);
        }
        let size_wide = size_val as u64;
        if size_wide > usize::MAX as u64 {
            return Err(Error::InvalidValue);
        }
        let size = size_wide as usize;
        // Build and announce the pool: ownership of each buffer passes to
        // the driver, which is what keeps its address stable until revoke.
        let mut i: usize = 0;
        while i < buffers
            invariant
                i <= buffers,
                old(self).spec_state() == SessionState::Idle,
                old(self).spec_open(),
                self.spec_state() == SessionState::Idle,
                self.spec_open(),
                self.spec_device().announced() == set_int_range(0, i as int),
                self.spec_device().queued().is_empty(),
                !self.spec_device().capturing(),
                self.spec_device().features() == old(self).spec_device().features(),
                self.spec_device().delivered() == old(self).spec_device().delivered(),
                forall|s: int|
                    0 <= s < i ==> (#[trigger] self.spec_device().buffer_sizes().contains_key(s))
                        && self.spec_device().buffer_sizes()[s] == size,
            decreases buffers - i,
        {
            let buf: Vec<u8> = vec![0u8; size];
            match self.device.announce_buffer(i, buf) {
                Ok(()) => {
                    proof {
                        assert(set_int_range(0, i as int).insert(i as int) =~= set_int_range(
                            0,
                            i as int + 1,
                        ));
                        assert forall|s: int|
                            0 <= s < i + 1 implies (#[trigger] self.spec_device().buffer_sizes().contains_key(
                            s,
                        )) && self.spec_device().buffer_sizes()[s] == size by {
                            if s < i {
                                assert(s != i);
                            }
                        }
                    }
                },
                Err(e) => {
                    match self.teardown_device(i, false) {
                        Ok(()) => {},
                        Err(_teardown_failure) => {
                            self.state = SessionState::Faulted;
                        },
                    }
                    return Err(e);
                },
            }
            i = i + 1;
        }
        // Arm the status feature to track continuous acquisition, then
        // request continuous acquisition itself.
        let selector_value: String = "AcquisitionActive".to_owned();
        let mode_value: String = "Continuous".to_owned();
        match self.device.set_feature(
            "AcquisitionStatusSelector",
            FeatureValue::Enum(selector_value.clone()),
        ) {
            Ok(()) => {},
            Err(e) => {
                match self.teardown_device(buffers, false) {
                    Ok(()) => {},
                    Err(_teardown_failure) => {
                        self.state = SessionState::Faulted;
                    },
                }
                return Err(e);
            },
        }
        match self.device.set_feature(
            "AcquisitionMode",
            FeatureValue::Enum(mode_value.clone()),
        ) {
            Ok(()) => {},
            Err(e) => {
                match self.teardown_device(buffers, false) {
                    Ok(()) => {},
                    Err(_teardown_failure) => {
                        self.state = SessionState::Faulted;
                    },
                }
                return Err(e);
            },
        }
        // Engage the capture pipeline and queue every buffer once.
        match self.device.start_capture() {
            Ok(()) => {},
            Err(e) => {
                match self.teardown_device(buffers, false) {
                    Ok(()) => {},
                    Err(_teardown_failure) => {
                        self.state = SessionState::Faulted;
                    },
                }
                return Err(e);
            },
        }
        let mut i: usize = 0;
        while i < buffers
            invariant
                i <= buffers,
                old(self).spec_state() == SessionState::Idle,
                old(self).spec_open(),
                self.spec_state() == SessionState::Idle,
                self.spec_open(),
                self.spec_device().announced() == set_int_range(0, buffers as int),
                self.spec_device().queued() == set_int_range(0, i as int),
                self.spec_device().capturing(),
                self.spec_device().features() == old(self).spec_device().features().insert(
                    spec_status_selector_name(),
                    FeatureValue::Enum(selector_value),
                ).insert(spec_acquisition_mode_name(), FeatureValue::Enum(mode_value)),
                self.spec_device().delivered() == old(self).spec_device().delivered(),
                forall|s: int|
                    0 <= s < buffers ==> (#[trigger] self.spec_device().buffer_sizes().contains_key(
                        s,
                    )) && self.spec_device().buffer_sizes()[s] == size,
            decreases buffers - i,
        {
            proof {
                assert(set_int_range(0, i as int).subset_of(set_int_range(0, buffers as int)));
            }
            match self.device.submit_buffer(i) {
                Ok(()) => {
                    proof {
                        assert(set_int_range(0, i as int).insert(i as int) =~= set_int_range(
                            0,
                            i as int + 1,
                        ));
                    }
                },
                Err(e) => {
                    match self.teardown_device(buffers, true) {
                        Ok(()) => {},
                        Err(_teardown_failure) => {
                            self.state = SessionState::Faulted;
                        },
                    }
                    return Err(e);
                },
            }
            i = i + 1;
        }
        // Start acquiring. If this fails, the whole session is torn down
        // before the error is returned: no announced-but-unstarted state
        // survives.
        let ghost sizes_snapshot = self.spec_device().buffer_sizes();
        proof {
            assert(set_int_range(0, buffers as int).subset_of(set_int_range(0, buffers as int)));
            assert forall|s: int|
                0 <= s < buffers implies (#[trigger] sizes_snapshot.contains_key(s))
                && sizes_snapshot[s] == size by {
                assert(self.spec_device().buffer_sizes().contains_key(s));
            }
        }
        match self.device.run_command("AcquisitionStart") {
            Ok(()) => {},
            Err(e) => {
                match self.teardown_device(buffers, true) {
                    Ok(()) => {},
                    Err(_teardown_failure) => {
                        self.state = SessionState::Faulted;
                    },
                }
                return Err(e);
            },
        }
        self.state = SessionState::Streaming;
        self.active_buffers = buffers;
        proof {
            if old(self).spec_device().features().contains_key(spec_payload_size_name()) {
                assert(old(self).spec_device().features()[spec_payload_size_name()]
                    == FeatureValue::Int(size_val));
                assert(size == size_val);
                assert(0 <= size_val && size_val <= usize::MAX);
                assert(old(self).spec_device().features()[spec_payload_size_name()]->Int_0
                    == size_val);
                assert forall|s: int|
                    0 <= s < buffers implies (#[trigger] self.spec_device().buffer_sizes().contains_key(
                    s,
                )) && self.spec_device().buffer_sizes()[s] == size_val by {
                    assert(self.spec_device().buffer_sizes() == sizes_snapshot);
                    assert(sizes_snapshot.contains_key(s));
                    assert(sizes_snapshot[s] == size);
                }
                assert(spec_pool_sized(
                    self.spec_device(),
                    buffers,
                    old(self).spec_device().features()[spec_payload_size_name()]->Int_0 as int,
                ));
            }
            assert(selector_value@ == "AcquisitionActive"@ && mode_value@ == "Continuous"@
                && self.spec_device().features() == old(self).spec_device().features().insert(
                spec_status_selector_name(),
                FeatureValue::Enum(selector_value),
            ).insert(spec_acquisition_mode_name(), FeatureValue::Enum(mode_value)));
        }
        Ok(
            CallbackContext {
                handler,
                num_buffers: buffers,
                stop_requested: false,
                stopped: false,
                invocations: Ghost(0),
            },
        )
    }

    /// The callback bridge: takes the next completed buffer from the driver
    /// and runs one bridge step on it. A pending stop request is observed
    /// first and abandons the buffer; an already-stopped bridge ignores it;
    /// otherwise the handler sees the frame and the buffer is re-queued
    /// exactly when the handler signals continue. A re-queue failure is
    /// fatal to the stream: it marks the bridge stopped and propagates.
    pub fn process_frame<H: CameraCallback>(&mut self, ctx: &mut CallbackContext<H>) -> (r: Result<
        BridgeOutcome,
        Error,
    >)
        requires
            old(self).inv(),
            old(self).spec_state() == SessionState::Streaming,
            old(ctx).spec_num_buffers() == old(self).spec_active_buffers(),
        ensures
            final(self).inv(),
            final(self).spec_state() == SessionState::Streaming,
            final(self).spec_open() == old(self).spec_open(),
            final(self).spec_active_buffers() == old(self).spec_active_buffers(),
            final(ctx).spec_num_buffers() == old(ctx).spec_num_buffers(),
            r is Ok ==> final(self).spec_device().delivered() == old(self).spec_device().delivered().push(final(self).spec_device().delivered().last()),
            r matches Ok(outcome) ==> spec_bridge_step(
                *old(ctx),
                *final(ctx),
                outcome,
                final(self).spec_device().delivered().last().0,
                final(self).spec_device().delivered().last().1,
            ),
            r is Ok ==> final(self).spec_device().frames_left() < old(self).spec_device().frames_left(),
            r == Result::<BridgeOutcome, Error>::Ok(BridgeOutcome::Requeued) ==> final(self).spec_device().queued() == old(self).spec_device().queued(),
            r is Err ==> *final(ctx) == *old(ctx) || final(ctx).spec_stopped(),
    {
        if self.state != SessionState::Streaming {
            // Unreachable for verified callers; a safeguard for the rest.
            return Err(Error::InvalidCall);
        }
        let completion = match self.device.wait_frame() {
            Ok(c) => c,
            Err(e) => {
                return Err(e);
            },
        };
        if ctx.stop_requested {
            // The stop request is consumed and this buffer is deliberately
            // abandoned as the final act: it stays announced, not queued.
            ctx.stop_requested = false;
            ctx.stopped = true;
            return Ok(BridgeOutcome::Abandoned);
        }
        if ctx.stopped {
            return Ok(BridgeOutcome::Ignored);
        }
        let view = Frame::from_descriptor(&completion.descriptor, completion.data.as_slice());
        proof {
            assert(spec_frame_descriptor(view) == completion.descriptor);
        }
        let answer = ctx.handler.on_frame(view);
        ctx.invocations = Ghost(ctx.invocations@ + 1);
        if answer == StreamContinue(false) {
            ctx.stopped = true;
            Ok(BridgeOutcome::Halted)
        } else {
            match self.device.submit_buffer(completion.slot) {
                Ok(()) => {
                    proof {
                        assert(old(self).spec_device().queued().remove(
                            completion.slot as int,
                        ).insert(completion.slot as int) =~= old(self).spec_device().queued());
                    }
                    Ok(BridgeOutcome::Requeued)
                },
                Err(e) => {
                    ctx.stopped = true;
                    Err(e)
                },
            }
        }
    }

    /// Runs the bridge until it observes stop. On a bridge error the
    /// session is torn down before the error is surfaced.
    fn pump_until_stopped<H: CameraCallback>(&mut self, ctx: &mut CallbackContext<H>) -> (r:
        Result<(), Error>)
        requires
            old(self).inv(),
            old(self).spec_state() == SessionState::Streaming,
            old(ctx).spec_num_buffers() == old(self).spec_active_buffers(),
        ensures
            final(self).inv(),
            final(self).spec_open() == old(self).spec_open(),
            final(ctx).spec_num_buffers() == old(ctx).spec_num_buffers(),
            r is Ok ==> final(self).spec_state() == SessionState::Streaming && final(self).spec_active_buffers() == old(self).spec_active_buffers() && final(ctx).spec_stopped(),
            r is Err ==> final(self).spec_state() == SessionState::Idle || final(self).spec_state()
                == SessionState::Faulted,
    {
        loop
            invariant_except_break
                self.inv(),
                self.spec_state() == SessionState::Streaming,
                ctx.spec_num_buffers() == self.spec_active_buffers(),
                self.spec_open() == old(self).spec_open(),
                self.spec_active_buffers() == old(self).spec_active_buffers(),
                ctx.spec_num_buffers() == old(ctx).spec_num_buffers(),
            ensures
                self.inv(),
                self.spec_state() == SessionState::Streaming,
                ctx.spec_stopped(),
                self.spec_open() == old(self).spec_open(),
                self.spec_active_buffers() == old(self).spec_active_buffers(),
                ctx.spec_num_buffers() == old(ctx).spec_num_buffers(),
            decreases self.spec_device().frames_left(),
        {
            match self.process_frame(ctx) {
                Ok(_outcome) => {
                    if ctx.is_stopped() {
                        break;
                    }
                },
                Err(e) => {
                    match self.stop_streaming(ctx) {
                        Ok(()) => {},
                        Err(_teardown_failure) => {},
                    }
                    return Err(e);
                },
            }
        }
        Ok(())
    }

    /// Stops an active session with the stop protocol: the stop request is
    /// sent first, so the bridge abandons rather than re-queues if the
    /// driver completes another buffer meanwhile; then acquisition is
    /// stopped, quiescence is awaited, and only then are the buffers
    /// flushed and revoked. A no-op when no session is active. A failure
    /// after the stop signal leaves the session faulted: the driver may
    /// still hold buffer memory, so the session refuses further streaming
    /// rather than corrupt it.
    pub fn stop_streaming<H: CameraCallback>(&mut self, ctx: &mut CallbackContext<H>) -> (r:
        Result<(), Error>)
        requires
            old(self).inv(),
        ensures
            final(self).inv(),
            final(self).spec_open() == old(self).spec_open(),
            old(self).spec_state() != SessionState::Streaming ==> r is Ok && *final(self) == *old(self) && *final(ctx) == *old(ctx),
            old(self).spec_state() == SessionState::Streaming ==> {
                &&& final(ctx).spec_stop_requested()
                &&& final(ctx).spec_stopped() == old(ctx).spec_stopped()
                &&& final(ctx).spec_invocations() == old(ctx).spec_invocations()
                &&& final(ctx).spec_num_buffers() == old(ctx).spec_num_buffers()
                &&& final(ctx).spec_handler() == old(ctx).spec_handler()
            },
            r is Ok && old(self).spec_state() == SessionState::Streaming ==> final(self).spec_state() == SessionState::Idle && final(self).spec_device().announced().is_empty()
                && final(self).spec_device().queued().is_empty(),
            r is Ok && old(self).spec_state() == SessionState::Streaming ==> spec_stop_transition(
                *old(self),
                *final(self),
            ),
            final(self).spec_device().delivered() == old(self).spec_device().delivered(),
            r is Err ==> final(self).spec_state() == SessionState::Faulted,
    {
        if self.state != SessionState::Streaming {
            return Ok(());
        }
        // Step one of the stop protocol: the single-use stop signal. It
        // must be visible before acquisition is stopped, so that a frame
        // completing concurrently is abandoned, never re-queued.
        ctx.stop_requested = true;
        let n = self.active_buffers;
        match self.teardown_device(n, true) {
            Ok(()) => {
                self.state = SessionState::Idle;
                Ok(())
            },
            Err(e) => {
                self.state = SessionState::Faulted;
                Err(e)
            },
        }
    }

    /// The synchronous facade: starts a session, runs the bridge until the
    /// handler signals stop, then stops the session.
    pub fn stream<H: CameraCallback>(&mut self, handler: H, buffers: usize) -> (r: Result<
        (),
        Error,
    >)
        requires
            old(self).inv(),
            1 <= buffers,
        ensures
            final(self).inv(),
            final(self).spec_open() == old(self).spec_open(),
            old(self).spec_state() == SessionState::Streaming ==> r == Result::<(), Error>::Err(
                Error::DeviceBusy,
            ) && *final(self) == *old(self),
            r is Ok ==> final(self).spec_state() == SessionState::Idle && final(self).spec_device().announced().is_empty() && final(self).spec_device().queued().is_empty(),
            r is Err && old(self).spec_state() == SessionState::Idle ==> (final(self).spec_state()
                == SessionState::Idle && final(self).spec_device().announced().is_empty() && final(self).spec_device().queued().is_empty()) || final(self).spec_state()
                == SessionState::Faulted,
    {
        let mut ctx = match self.start_streaming(handler, buffers) {
            Ok(c) => c,
            Err(e) => {
                return Err(e);
            },
        };
        match self.pump_until_stopped(&mut ctx) {
            Ok(()) => {},
            Err(e) => {
                return Err(e);
            },
        }
        self.stop_streaming(&mut ctx)
    }

    /// Captures a single frame: streams with a first-frame handler and two
    /// buffers — so that a second completion arriving before the stop
    /// protocol quiesces still has a legal target — and returns the copied
    /// frame. On success the result is exactly the one frame the driver
    /// delivered during the call, bytes and metadata unmodified, and the
    /// session is idle again afterwards, so calls can be made repeatedly in
    /// sequence.
    pub fn get_frame(&mut self) -> (r: Result<Frame<Vec<u8>>, Error>)
        requires
            old(self).inv(),
        ensures
            final(self).inv(),
            final(self).spec_open() == old(self).spec_open(),
            old(self).spec_state() == SessionState::Streaming ==> r is Err && *final(self) == *old(self),
            r is Ok ==> final(self).spec_state() == SessionState::Idle && final(self).spec_device().announced().is_empty() && final(self).spec_device().queued().is_empty(),
            r matches Ok(f) ==> final(self).spec_device().delivered() == old(self).spec_device().delivered().push((spec_frame_descriptor(f), f.data@)),
    {
        let mut ctx = match self.start_streaming(FrameGrab::new(), 2) {
            Ok(c) => c,
            Err(e) => {
                return Err(e);
            },
        };
        loop
            invariant_except_break
                old(self).spec_state() == SessionState::Idle,
                self.inv(),
                self.spec_state() == SessionState::Streaming,
                ctx.spec_num_buffers() == self.spec_active_buffers(),
                self.spec_open() == old(self).spec_open(),
                !ctx.spec_stop_requested(),
                !ctx.spec_stopped(),
                ctx.spec_handler().frame is None,
                self.spec_device().delivered() == old(self).spec_device().delivered(),
            ensures
                old(self).spec_state() == SessionState::Idle,
                self.inv(),
                self.spec_state() == SessionState::Streaming,
                ctx.spec_num_buffers() == self.spec_active_buffers(),
                self.spec_open() == old(self).spec_open(),
                ctx.spec_stopped(),
                self.spec_device().delivered() == old(self).spec_device().delivered().push(
                    self.spec_device().delivered().last(),
                ),
                ctx.spec_handler().frame matches Some(f) && f.data@ == self.spec_device().delivered().last().1 && spec_frame_descriptor(f) == self.spec_device().delivered().last().0,
            decreases self.spec_device().frames_left(),
        {
            match self.process_frame(&mut ctx) {
                Ok(_outcome) => {
                    if ctx.is_stopped() {
                        break;
                    }
                },
                Err(e) => {
                    match self.stop_streaming(&mut ctx) {
                        Ok(()) => {},
                        Err(_teardown_failure) => {},
                    }
                    return Err(e);
                },
            }
        }
        match self.stop_streaming(&mut ctx) {
            Ok(()) => {},
            Err(e) => {
                return Err(e);
            },
        }
        match ctx.handler.frame {
            Some(f) => Ok(f),
            None => Err(Error::Incomplete),
        }
    }
}

/// A handler that copies the first frame it sees out of the callback and
/// signals stop at once.
pub struct FrameGrab {
    /// The first delivered frame, once one has arrived.
    pub frame: Option<Frame<Vec<u8>>>,
}

impl FrameGrab {
    /// A grabber that has not seen a frame yet.
    pub fn new() -> (r: FrameGrab)
        ensures
            r.frame is None,
    {
        FrameGrab { frame: None }
    }
}

impl CameraCallback for FrameGrab {
    /// Always answers stop.
    open spec fn spec_answer(&self, data: Seq<u8>, desc: FrameDescriptor) -> Option<bool> {
        Some(false)
    }

    /// Captures the frame exactly, bytes and metadata, if none was held
    /// yet; keeps the held one otherwise.
    open spec fn spec_post(&self, data: Seq<u8>, desc: FrameDescriptor, post: Self) -> bool {
        if self.frame is None {
            post.frame matches Some(f) && f.data@ == data && spec_frame_descriptor(f) == desc
        } else {
            post == *self
        }
    }

    /// Keeps the first frame and always signals stop.
    fn on_frame(&mut self, frame: Frame<&[u8]>) -> (r: StreamContinue) {
        if self.frame.is_none() {
            self.frame = Some(frame.with_vec_data());
        }
        StreamContinue(false)
    }
}

impl<D: CaptureDevice> Camera<D> {
    /// Reads a named feature of the device.
    pub fn get_feature(&mut self, name: &str) -> (r: Result<FeatureValue, Error>)
        requires
            old(self).inv(),
        ensures
            final(self).inv(),
            final(self).spec_state() == old(self).spec_state(),
            final(self).spec_open() == old(self).spec_open(),
            final(self).spec_active_buffers() == old(self).spec_active_buffers(),
            final(self).spec_device().features() == old(self).spec_device().features(),
            r matches Ok(v) ==> (old(self).spec_device().features().contains_key(name@) ==> v
                == old(self).spec_device().features()[name@]),
            r is Ok && name@ == crate::device::spec_status_feature_name() ==> (r->Ok_0 matches FeatureValue::Bool(b) && b == final(self).spec_device().acquisition_active()),
    {
        self.device.get_feature(name)
    }

    /// Writes a named feature of the device.
    pub fn set_feature(&mut self, name: &str, value: FeatureValue) -> (r: Result<(), Error>)
        requires
            old(self).inv(),
        ensures
            final(self).inv(),
            final(self).spec_state() == old(self).spec_state(),
            final(self).spec_open() == old(self).spec_open(),
            final(self).spec_active_buffers() == old(self).spec_active_buffers(),
            r is Ok ==> final(self).spec_device().features() == old(self).spec_device().features().insert(name@, value),
            r is Err ==> final(self).spec_device().features() == old(self).spec_device().features(),
    {
        self.device.set_feature(name, value)
    }

    /// Runs a named command of the device.
    pub fn run_command(&mut self, name: &str) -> (r: Result<(), Error>)
        requires
            old(self).inv(),
        ensures
            final(self).inv(),
            final(self).spec_state() == old(self).spec_state(),
            final(self).spec_open() == old(self).spec_open(),
            final(self).spec_active_buffers() == old(self).spec_active_buffers(),
            final(self).spec_device().features() == old(self).spec_device().features(),
            r is Ok && name@ == crate::device::spec_acquisition_start_name() ==> final(self).spec_device().acquisition_active(),
    {
        self.device.run_command(name)
    }

    /// Asks whether a named command has completed.
    pub fn is_command_done(&mut self, name: &str) -> (r: Result<bool, Error>)
        requires
            old(self).inv(),
        ensures
            final(self).inv(),
            final(self).spec_state() == old(self).spec_state(),
            final(self).spec_open() == old(self).spec_open(),
            final(self).spec_active_buffers() == old(self).spec_active_buffers(),
            final(self).spec_device().features() == old(self).spec_device().features(),
    {
        self.device.is_command_done(name)
    }

    /// Lists the features the device exposes.
    pub fn list_features(&mut self) -> (r: Result<Vec<crate::feature::FeatureInfo>, Error>)
        requires
            old(self).inv(),
        ensures
            final(self).inv(),
            final(self).spec_state() == old(self).spec_state(),
            final(self).spec_open() == old(self).spec_open(),
            final(self).spec_active_buffers() == old(self).spec_active_buffers(),
            final(self).spec_device().features() == old(self).spec_device().features(),
            r matches Ok(list) ==> forall|i: int|
                0 <= i < list@.len() ==> final(self).spec_device().features().contains_key(
                    #[trigger] list@[i].name@,
                ),
            r matches Ok(list) ==> forall|k: Seq<char>|
                final(self).spec_device().features().contains_key(k) ==> exists|i: int|
                    0 <= i < list@.len() && (#[trigger] list@[i].name@) == k,
    {
        self.device.list_features()
    }

    /// Reads a named feature that must be an integer; any other value kind
    /// is a `WrongType` error.
    pub fn get_feature_int(&mut self, name: &str) -> (r: Result<i64, Error>)
        requires
            old(self).inv(),
        ensures
            final(self).inv(),
            final(self).spec_state() == old(self).spec_state(),
            final(self).spec_open() == old(self).spec_open(),
            final(self).spec_active_buffers() == old(self).spec_active_buffers(),
            final(self).spec_device().features() == old(self).spec_device().features(),
            r matches Ok(v) ==> (old(self).spec_device().features().contains_key(name@) ==> old(self).spec_device().features()[name@] == FeatureValue::Int(v)),
    {
        match self.get_feature(name) {
            Ok(FeatureValue::Int(v)) => Ok(v),
            Ok(_) => Err(Error::WrongType),
            Err(e) => Err(e),
        }
    }

    /// Reads a named feature that must be a boolean.
    pub fn get_feature_bool(&mut self, name: &str) -> (r: Result<bool, Error>)
        requires
            old(self).inv(),
        ensures
            final(self).inv(),
            final(self).spec_state() == old(self).spec_state(),
            final(self).spec_open() == old(self).spec_open(),
            final(self).spec_active_buffers() == old(self).spec_active_buffers(),
            final(self).spec_device().features() == old(self).spec_device().features(),
            r matches Ok(v) ==> (old(self).spec_device().features().contains_key(name@) ==> old(self).spec_device().features()[name@] == FeatureValue::Bool(v)),
    {
        match self.get_feature(name) {
            Ok(FeatureValue::Bool(v)) => Ok(v),
            Ok(_) => Err(Error::WrongType),
            Err(e) => Err(e),
        }
    }

    /// Reads a named feature that must be an enumeration entry.
    pub fn get_feature_enum(&mut self, name: &str) -> (r: Result<String, Error>)
        requires
            old(self).inv(),
        ensures
            final(self).inv(),
            final(self).spec_state() == old(self).spec_state(),
            final(self).spec_open() == old(self).spec_open(),
            final(self).spec_active_buffers() == old(self).spec_active_buffers(),
            final(self).spec_device().features() == old(self).spec_device().features(),
            r matches Ok(v) ==> (old(self).spec_device().features().contains_key(name@) ==> old(self).spec_device().features()[name@] == FeatureValue::Enum(v)),
    {
        match self.get_feature(name) {
            Ok(FeatureValue::Enum(v)) => Ok(v),
            Ok(_) => Err(Error::WrongType),
            Err(e) => Err(e),
        }
    }

    /// Writes an integer feature.
    pub fn set_feature_int(&mut self, name: &str, v: i64) -> (r: Result<(), Error>)
        requires
            old(self).inv(),
        ensures
            final(self).inv(),
            final(self).spec_state() == old(self).spec_state(),
            final(self).spec_open() == old(self).spec_open(),
            final(self).spec_active_buffers() == old(self).spec_active_buffers(),
            r is Ok ==> final(self).spec_device().features() == old(self).spec_device().features().insert(name@, FeatureValue::Int(v)),
            r is Err ==> final(self).spec_device().features() == old(self).spec_device().features(),
    {
        self.set_feature(name, FeatureValue::Int(v))
    }

    /// Writes an enumeration feature.
    pub fn set_feature_enum(&mut self, name: &str, v: String) -> (r: Result<(), Error>)
        requires
            old(self).inv(),
        ensures
            final(self).inv(),
            final(self).spec_state() == old(self).spec_state(),
            final(self).spec_open() == old(self).spec_open(),
            final(self).spec_active_buffers() == old(self).spec_active_buffers(),
            r is Ok ==> final(self).spec_device().features() == old(self).spec_device().features().insert(name@, FeatureValue::Enum(v)),
            r is Err ==> final(self).spec_device().features() == old(self).spec_device().features(),
    {
        self.set_feature(name, FeatureValue::Enum(v))
    }

    /// Writes a boolean feature.
    pub fn set_feature_bool(&mut self, name: &str, v: bool) -> (r: Result<(), Error>)
        requires
            old(self).inv(),
        ensures
            final(self).inv(),
            final(self).spec_state() == old(self).spec_state(),
            final(self).spec_open() == old(self).spec_open(),
            final(self).spec_active_buffers() == old(self).spec_active_buffers(),
            r is Ok ==> final(self).spec_device().features() == old(self).spec_device().features().insert(name@, FeatureValue::Bool(v)),
            r is Err ==> final(self).spec_device().features() == old(self).spec_device().features(),
    {
        self.set_feature(name, FeatureValue::Bool(v))
    }

    /// Reads a named feature that must be text.
    pub fn get_feature_string(&mut self, name: &str) -> (r: Result<String, Error>)
        requires
            old(self).inv(),
        ensures
            final(self).inv(),
            final(self).spec_state() == old(self).spec_state(),
            final(self).spec_open() == old(self).spec_open(),
            final(self).spec_active_buffers() == old(self).spec_active_buffers(),
            final(self).spec_device().features() == old(self).spec_device().features(),
            r matches Ok(v) ==> (old(self).spec_device().features().contains_key(name@) ==> old(self).spec_device().features()[name@] == FeatureValue::String(v)),
    {
        match self.get_feature(name) {
            Ok(FeatureValue::String(v)) => Ok(v),
            Ok(_) => Err(Error::WrongType),
            Err(e) => Err(e),
        }
    }

    /// Reads a named feature that must be raw bytes.
    pub fn get_feature_raw(&mut self, name: &str) -> (r: Result<Vec<u8>, Error>)
        requires
            old(self).inv(),
        ensures
            final(self).inv(),
            final(self).spec_state() == old(self).spec_state(),
            final(self).spec_open() == old(self).spec_open(),
            final(self).spec_active_buffers() == old(self).spec_active_buffers(),
            final(self).spec_device().features() == old(self).spec_device().features(),
            r matches Ok(v) ==> (old(self).spec_device().features().contains_key(name@) ==> old(self).spec_device().features()[name@] == FeatureValue::Raw(v)),
    {
        match self.get_feature(name) {
            Ok(FeatureValue::Raw(v)) => Ok(v),
            Ok(_) => Err(Error::WrongType),
            Err(e) => Err(e),
        }
    }

    /// Writes a text feature.
    pub fn set_feature_string(&mut self, name: &str, v: String) -> (r: Result<(), Error>)
        requires
            old(self).inv(),
        ensures
            final(self).inv(),
            final(self).spec_state() == old(self).spec_state(),
            final(self).spec_open() == old(self).spec_open(),
            final(self).spec_active_buffers() == old(self).spec_active_buffers(),
            r is Ok ==> final(self).spec_device().features() == old(self).spec_device().features().insert(name@, FeatureValue::String(v)),
            r is Err ==> final(self).spec_device().features() == old(self).spec_device().features(),
    {
        self.set_feature(name, FeatureValue::String(v))
    }

    /// Writes a raw-bytes feature.
    pub fn set_feature_raw(&mut self, name: &str, v: Vec<u8>) -> (r: Result<(), Error>)
        requires
            old(self).inv(),
        ensures
            final(self).inv(),
            final(self).spec_state() == old(self).spec_state(),
            final(self).spec_open() == old(self).spec_open(),
            final(self).spec_active_buffers() == old(self).spec_active_buffers(),
            r is Ok ==> final(self).spec_device().features() == old(self).spec_device().features().insert(name@, FeatureValue::Raw(v)),
            r is Err ==> final(self).spec_device().features() == old(self).spec_device().features(),
    {
        self.set_feature(name, FeatureValue::Raw(v))
    }
}

#[verifier::external_type_specification]
#[verifier::external_body]
#[verifier::reject_recursive_types(T)]
pub struct ExSender<T>(std::sync::mpsc::Sender<T>);

/// Relies on std's `mpsc::Sender::send`: hands the frame to the paired
/// receiver and reports whether the receiving side still exists. Whether it
/// does depends on another thread, so nothing more can be promised of the
/// result.
#[verifier::external_body]
fn send_frame(sender: &std::sync::mpsc::Sender<Frame<Vec<u8>>>, frame: Frame<Vec<u8>>) -> bool {
    sender.send(frame).is_ok()
}

/// A handler that copies every frame into an mpsc channel and keeps
/// streaming for as long as the receiving side exists.
pub struct QueueHandler {
    sender: std::sync::mpsc::Sender<Frame<Vec<u8>>>,
}

impl QueueHandler {
    /// A handler forwarding every frame into `sender`.
    pub fn new(sender: std::sync::mpsc::Sender<Frame<Vec<u8>>>) -> QueueHandler {
        QueueHandler { sender }
    }
}

impl CameraCallback for QueueHandler {
    /// Whether the send is taken depends on the receiving side, so the
    /// answer is not a function of state and frame.
    open spec fn spec_answer(&self, data: Seq<u8>, desc: FrameDescriptor) -> Option<bool> {
        None
    }

    /// The handler's own state never changes.
    open spec fn spec_post(&self, data: Seq<u8>, desc: FrameDescriptor, post: Self) -> bool {
        post == *self
    }

    /// Sends an owned copy of the frame down the channel; signals stop once
    /// the receiver is gone.
    fn on_frame(&mut self, frame: Frame<&[u8]>) -> (r: StreamContinue) {
        let answer = send_frame(&self.sender, frame.with_vec_data());
        StreamContinue(answer)
    }
}

impl<D: CaptureDevice> Camera<D> {
    /// Starts a streaming session whose handler forwards every completed
    /// frame into the given channel; the stream runs until the receiver is
    /// dropped or `stop_streaming` is called.
    pub fn start_streaming_queue(
        &mut self,
        sender: std::sync::mpsc::Sender<Frame<Vec<u8>>>,
        buffers: usize,
    ) -> (r: Result<CallbackContext<QueueHandler>, Error>)
        requires
            old(self).inv(),
            1 <= buffers,
        ensures
            final(self).inv(),
            final(self).spec_open() == old(self).spec_open(),
            old(self).spec_state() == SessionState::Streaming ==> r == Result::<
                CallbackContext<QueueHandler>,
                Error,
            >::Err(Error::DeviceBusy) && *final(self) == *old(self),
            r matches Ok(ctx) ==> {
                &&& old(self).spec_state() == SessionState::Idle
                &&& final(self).spec_state() == SessionState::Streaming
                &&& final(self).spec_active_buffers() == buffers
                &&& final(self).spec_device().announced() == set_int_range(0, buffers as int)
                &&& final(self).spec_device().queued() == set_int_range(0, buffers as int)
                &&& final(self).spec_device().capturing()
                &&& final(self).spec_device().acquisition_active()
                &&& !ctx.spec_stopped()
                &&& !ctx.spec_stop_requested()
                &&& ctx.spec_invocations() == 0
                &&& ctx.spec_num_buffers() == buffers
            },
            r is Err && old(self).spec_state() == SessionState::Idle ==> (final(self).spec_state()
                == SessionState::Idle && final(self).spec_device().announced().is_empty() && final(self).spec_device().queued().is_empty()) || final(self).spec_state()
                == SessionState::Faulted,
    {
        self.start_streaming(QueueHandler::new(sender), buffers)
    }
}

/// No access to the device.
pub const ACCESS_MODE_NONE: u32 = 0;
/// Full read and write access.
pub const ACCESS_MODE_FULL: u32 = 1;
/// Read-only access.
pub const ACCESS_MODE_READ: u32 = 2;
/// Access to configuration alone.
pub const ACCESS_MODE_CONFIG: u32 = 4;
/// Lightweight access.
pub const ACCESS_MODE_LITE: u32 = 8;

/// The mask of all documented access-mode bits.
pub const ACCESS_MODE_MASK: u32 = 15;

/// The modes under which a camera may be opened, as a bit set over the
/// documented access bits.
#[derive(Clone, Copy, Debug, PartialEq, Eq, Hash, Structural)]
pub struct AccessMode {
    /// The raw access bits.
    pub bits: u32,
}

impl AccessMode {
    /// The access set for a raw driver value, with undocumented bits
    /// dropped.
    pub fn from_bits_truncate(bits: u32) -> (r: AccessMode)
        ensures
            r.bits == bits & ACCESS_MODE_MASK,
    {
        AccessMode { bits: bits & ACCESS_MODE_MASK }
    }

    /// Whether every mode in `other` is also permitted by `self`.
    pub fn contains(&self, other: AccessMode) -> (r: bool)
        ensures
            r == (self.bits & other.bits == other.bits),
    {
        self.bits & other.bits == other.bits
    }
}

/// What device discovery reports about one camera.
#[derive(Debug, Clone)]
pub struct CameraInfo {
    /// The camera's unique id.
    pub id: String,
    /// The camera's display name.
    pub name: String,
    /// The camera's serial number.
    pub serial: String,
    /// The camera's model name.
    pub model_name: String,
    /// The id of the interface the camera hangs off.
    pub interface_id: String,
    /// The access modes under which the camera may be opened.
    pub access_mode: AccessMode,
}

} // verus!
