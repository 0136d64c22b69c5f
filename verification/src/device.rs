//! The capability interface the streaming engine consumes: named-feature
//! access, command execution, and the capture primitives (announce, submit,
//! flush, revoke) of an imaging device driver.
//!
//! The interface carries an abstract model — which buffer slots are
//! announced, which are queued, whether the capture pipeline is engaged, and
//! whether acquisition is still active — and every contract is stated over
//! that model. The session logic in [`crate::camera`] is verified against
//! these contracts alone; [`crate::sim::SimDevice`] is a verified
//! implementation that grounds them.

use vstd::prelude::*;

use crate::error::Error;
use crate::feature::{FeatureInfo, FeatureValue};

verus! {

/// The metadata the driver writes for one completed frame: image geometry,
/// the frame's id and its timestamp.
#[derive(Clone, Copy, Debug, PartialEq, Eq, Structural)]
pub struct FrameDescriptor {
    /// The image width in pixels.
    pub width: usize,
    /// The image height in pixels.
    pub height: usize,
    /// The horizontal offset of the region of interest.
    pub offset_x: usize,
    /// The vertical offset of the region of interest.
    pub offset_y: usize,
    /// The driver's running frame id.
    pub frame_id: u64,
    /// The driver's timestamp for the frame.
    pub timestamp: u64,
}

/// One completed capture: the slot whose buffer was filled, the descriptor
/// the driver wrote, and the bytes of the filled buffer.
pub struct Completion {
    /// The buffer slot that was filled.
    pub slot: usize,
    /// The metadata the driver wrote on completion.
    pub descriptor: FrameDescriptor,
    /// The contents of the filled buffer.
    pub data: Vec<u8>,
}

/// The name of the integer feature holding the size one frame buffer must
/// have.
pub open spec fn spec_payload_size_name() -> Seq<char> {
    "PayloadSize"@
}

/// The name of the enumeration feature selecting which acquisition status
/// the status feature reports.
pub open spec fn spec_status_selector_name() -> Seq<char> {
    "AcquisitionStatusSelector"@
}

/// The name of the enumeration feature holding the acquisition mode.
pub open spec fn spec_acquisition_mode_name() -> Seq<char> {
    "AcquisitionMode"@
}

/// The name of the boolean feature reporting whether acquisition is still
/// active.
pub open spec fn spec_status_feature_name() -> Seq<char> {
    "AcquisitionStatus"@
}

/// The name of the command starting acquisition.
pub open spec fn spec_acquisition_start_name() -> Seq<char> {
    "AcquisitionStart"@
}

/// The device capability the streaming engine consumes.
///
/// The spec functions are the abstract model of the driver's state; the
/// contracts promise nothing unconditionally — any call may fail, and a
/// failed call leaves the model unchanged — but they pin down what each
/// successful call did to the model. The safety-critical orderings of the
/// stop protocol are demands on the caller: the capture pipeline may only be
/// ended once acquisition is inactive, the queue may only be flushed once
/// the pipeline is ended, and a buffer may only be revoked while it is not
/// queued.
pub trait CaptureDevice: Sized {
    /// The set of buffer slots currently announced to the driver.
    spec fn announced(&self) -> Set<int>;

    /// The set of buffer slots currently queued for capture. Always a
    /// subset of the announced slots.
    spec fn queued(&self) -> Set<int>;

    /// Whether the capture pipeline is engaged (between `start_capture` and
    /// `end_capture`).
    spec fn capturing(&self) -> bool;

    /// Whether the device still reports acquisition as active. Once
    /// inactive, the driver invokes no further completions until the
    /// acquisition-start command runs again.
    spec fn acquisition_active(&self) -> bool;

    /// The abstract store of named features, keyed by feature name. The
    /// acquisition-status feature is not part of the store: reading it
    /// reports `acquisition_active` instead.
    spec fn features(&self) -> Map<Seq<char>, FeatureValue>;

    /// A bound on how many more status polls may still report acquisition
    /// active: every poll that reports `true` shrinks it. This is the
    /// device's quiescence guarantee — the stop protocol's poll loop
    /// terminates because acquisition winds down after boundedly many
    /// polls.
    spec fn quiescence_bound(&self) -> nat;

    /// A bound on how many more completed frames the driver can still
    /// deliver: every successful wait shrinks it, and re-queueing a buffer
    /// never raises it. A simulated device scripts finitely many frames; a
    /// live driver's budget bounds any one observation of the stream.
    spec fn frames_left(&self) -> nat;

    /// The history of completions the driver has delivered, oldest first:
    /// each successful wait appends the descriptor it wrote and the bytes
    /// of the filled buffer, and nothing else touches the history. This is
    /// what lets a caller say that a frame it hands out is one the driver
    /// actually delivered, unmodified.
    spec fn delivered(&self) -> Seq<(FrameDescriptor, Seq<u8>)>;

    /// The length of the buffer held under each announced slot: announce
    /// records it, revoke forgets it.
    spec fn buffer_sizes(&self) -> Map<int, nat>;

    /// Reads the named feature. Reading the acquisition-status feature
    /// reports whether acquisition is active — polling it may observe the
    /// device quiescing, which is the one model change a read can make.
    fn get_feature(&mut self, name: &str) -> (r: Result<FeatureValue, Error>)
        ensures
            final(self).announced() == old(self).announced(),
            final(self).queued() == old(self).queued(),
            final(self).capturing() == old(self).capturing(),
            final(self).features() == old(self).features(),
            final(self).acquisition_active() ==> old(self).acquisition_active(),
            r matches Ok(v) ==> (old(self).features().contains_key(name@) ==> v == old(
                self,
            ).features()[name@]),
            r is Ok && name@ == spec_status_feature_name() ==> (r->Ok_0 matches FeatureValue::Bool(
                b,
            ) && b == final(self).acquisition_active()),
            !old(self).features().contains_key(name@) && name@ != spec_status_feature_name()
                ==> r is Err,
            (r matches Ok(v) && name@ == spec_status_feature_name() && v == FeatureValue::Bool(
                true,
            )) ==> final(self).quiescence_bound() < old(self).quiescence_bound(),
            final(self).frames_left() <= old(self).frames_left(),
            final(self).delivered() == old(self).delivered(),
            final(self).buffer_sizes() == old(self).buffer_sizes(),
    ;

    /// Writes the named feature; on success the feature store maps the name
    /// to the written value.
    fn set_feature(&mut self, name: &str, value: FeatureValue) -> (r: Result<(), Error>)
        ensures
            final(self).announced() == old(self).announced(),
            final(self).queued() == old(self).queued(),
            final(self).capturing() == old(self).capturing(),
            final(self).acquisition_active() ==> old(self).acquisition_active(),
            r is Ok ==> final(self).features() == old(self).features().insert(name@, value),
            r is Err ==> final(self).features() == old(self).features(),
            final(self).delivered() == old(self).delivered(),
            final(self).buffer_sizes() == old(self).buffer_sizes(),
    ;

    /// Runs the named command. The acquisition-start command is the only
    /// call that may turn acquisition on.
    fn run_command(&mut self, name: &str) -> (r: Result<(), Error>)
        ensures
            final(self).announced() == old(self).announced(),
            final(self).queued() == old(self).queued(),
            final(self).capturing() == old(self).capturing(),
            final(self).features() == old(self).features(),
            r is Ok && name@ == spec_acquisition_start_name() ==> final(self).acquisition_active(),
            name@ != spec_acquisition_start_name() ==> (final(self).acquisition_active() ==> old(
                self,
            ).acquisition_active()),
            r is Err ==> (final(self).acquisition_active() ==> old(self).acquisition_active()),
            final(self).delivered() == old(self).delivered(),
            final(self).buffer_sizes() == old(self).buffer_sizes(),
    ;

    /// Asks whether the named command has completed.
    fn is_command_done(&mut self, name: &str) -> (r: Result<bool, Error>)
        ensures
            final(self).announced() == old(self).announced(),
            final(self).queued() == old(self).queued(),
            final(self).capturing() == old(self).capturing(),
            final(self).features() == old(self).features(),
            final(self).acquisition_active() ==> old(self).acquisition_active(),
            final(self).delivered() == old(self).delivered(),
            final(self).buffer_sizes() == old(self).buffer_sizes(),
    ;

    /// Lists the features the device exposes; every listed name is in the
    /// feature store.
    fn list_features(&mut self) -> (r: Result<Vec<FeatureInfo>, Error>)
        ensures
            final(self).announced() == old(self).announced(),
            final(self).queued() == old(self).queued(),
            final(self).capturing() == old(self).capturing(),
            final(self).features() == old(self).features(),
            final(self).acquisition_active() ==> old(self).acquisition_active(),
            r matches Ok(list) ==> forall|i: int|
                0 <= i < list@.len() ==> final(self).features().contains_key(
                    #[trigger] list@[i].name@,
                ),
            r matches Ok(list) ==> forall|k: Seq<char>|
                final(self).features().contains_key(k) ==> exists|i: int|
                    0 <= i < list@.len() && (#[trigger] list@[i].name@) == k,
            final(self).delivered() == old(self).delivered(),
            final(self).buffer_sizes() == old(self).buffer_sizes(),
    ;

    /// Hands one buffer to the driver under a slot number. The buffer's
    /// storage belongs to the driver from announce to revoke, which is what
    /// keeps its address stable for as long as the driver may write it.
    fn announce_buffer(&mut self, slot: usize, data: Vec<u8>) -> (r: Result<(), Error>)
        requires
            !old(self).announced().contains(slot as int),
        ensures
            final(self).queued() == old(self).queued(),
            final(self).capturing() == old(self).capturing(),
            final(self).features() == old(self).features(),
            final(self).acquisition_active() ==> old(self).acquisition_active(),
            r is Ok ==> final(self).announced() == old(self).announced().insert(slot as int),
            r is Err ==> final(self).announced() == old(self).announced(),
            final(self).delivered() == old(self).delivered(),
            r is Ok ==> final(self).buffer_sizes() == old(self).buffer_sizes().insert(
                slot as int,
                data@.len(),
            ),
            r is Err ==> final(self).buffer_sizes() == old(self).buffer_sizes(),
    ;

    /// Engages the capture pipeline.
    fn start_capture(&mut self) -> (r: Result<(), Error>)
        requires
            !old(self).capturing(),
        ensures
            final(self).announced() == old(self).announced(),
            final(self).queued() == old(self).queued(),
            final(self).features() == old(self).features(),
            final(self).acquisition_active() ==> old(self).acquisition_active(),
            r is Ok ==> final(self).capturing(),
            r is Err ==> final(self).capturing() == old(self).capturing(),
            final(self).delivered() == old(self).delivered(),
            final(self).buffer_sizes() == old(self).buffer_sizes(),
    ;

    /// Queues an announced buffer as a capture target.
    fn submit_buffer(&mut self, slot: usize) -> (r: Result<(), Error>)
        requires
            old(self).capturing(),
            old(self).announced().contains(slot as int),
            !old(self).queued().contains(slot as int),
        ensures
            final(self).announced() == old(self).announced(),
            final(self).capturing() == old(self).capturing(),
            final(self).features() == old(self).features(),
            final(self).acquisition_active() ==> old(self).acquisition_active(),
            r is Ok ==> final(self).queued() == old(self).queued().insert(slot as int),
            r is Err ==> final(self).queued() == old(self).queued(),
            final(self).frames_left() <= old(self).frames_left(),
            final(self).delivered() == old(self).delivered(),
            final(self).buffer_sizes() == old(self).buffer_sizes(),
    ;

    /// Waits for the driver to fill a queued buffer. A successful wait
    /// takes one queued slot out of the queue and yields the descriptor the
    /// driver wrote and a copy of the filled bytes.
    fn wait_frame(&mut self) -> (r: Result<Completion, Error>)
        ensures
            final(self).announced() == old(self).announced(),
            final(self).capturing() == old(self).capturing(),
            final(self).features() == old(self).features(),
            final(self).acquisition_active() ==> old(self).acquisition_active(),
            r matches Ok(c) ==> old(self).queued().contains(c.slot as int) && final(self).queued()
                == old(self).queued().remove(c.slot as int),
            r is Err ==> final(self).queued() == old(self).queued(),
            r is Ok ==> final(self).frames_left() < old(self).frames_left(),
            r matches Ok(c) ==> final(self).delivered() == old(self).delivered().push(
                (c.descriptor, c.data@),
            ),
            r is Err ==> final(self).delivered() == old(self).delivered(),
            final(self).buffer_sizes() == old(self).buffer_sizes(),
    ;

    /// Disengages the capture pipeline. Callers must have confirmed through
    /// the status feature that acquisition is inactive: ending the pipeline
    /// while the driver may still complete a buffer is exactly the race the
    /// stop protocol exists to prevent.
    fn end_capture(&mut self) -> (r: Result<(), Error>)
        requires
            !old(self).acquisition_active(),
        ensures
            final(self).announced() == old(self).announced(),
            final(self).queued() == old(self).queued(),
            final(self).features() == old(self).features(),
            final(self).acquisition_active() ==> old(self).acquisition_active(),
            r is Ok ==> !final(self).capturing(),
            r is Err ==> final(self).capturing() == old(self).capturing(),
            final(self).delivered() == old(self).delivered(),
            final(self).buffer_sizes() == old(self).buffer_sizes(),
    ;

    /// Takes every still-queued buffer out of the driver's queue. Must only
    /// run once the capture pipeline is ended; afterwards no buffer is
    /// queued, so every buffer may be revoked.
    fn flush_queue(&mut self) -> (r: Result<(), Error>)
        requires
            !old(self).capturing(),
        ensures
            final(self).announced() == old(self).announced(),
            final(self).capturing() == old(self).capturing(),
            final(self).features() == old(self).features(),
            final(self).acquisition_active() ==> old(self).acquisition_active(),
            r is Ok ==> final(self).queued().is_empty(),
            r is Err ==> final(self).queued() == old(self).queued(),
            final(self).delivered() == old(self).delivered(),
            final(self).buffer_sizes() == old(self).buffer_sizes(),
    ;

    /// Withdraws an announced buffer from the driver, releasing its
    /// storage. A buffer that is still queued must never be revoked: the
    /// driver could still be writing into it.
    fn revoke_buffer(&mut self, slot: usize) -> (r: Result<(), Error>)
        requires
            !old(self).queued().contains(slot as int),
        ensures
            final(self).queued() == old(self).queued(),
            final(self).capturing() == old(self).capturing(),
            final(self).features() == old(self).features(),
            final(self).acquisition_active() ==> old(self).acquisition_active(),
            r is Ok ==> final(self).announced() == old(self).announced().remove(slot as int),
            r is Err ==> final(self).announced() == old(self).announced(),
            final(self).delivered() == old(self).delivered(),
            r is Ok ==> final(self).buffer_sizes() == old(self).buffer_sizes().remove(slot as int),
            r is Err ==> final(self).buffer_sizes() == old(self).buffer_sizes(),
    ;

    /// Waits out one status-poll interval. The device model is unchanged;
    /// an implementation may sleep here to bound the poll rate.
    fn poll_delay(&mut self)
        ensures
            final(self).announced() == old(self).announced(),
            final(self).queued() == old(self).queued(),
            final(self).capturing() == old(self).capturing(),
            final(self).features() == old(self).features(),
            final(self).acquisition_active() ==> old(self).acquisition_active(),
            final(self).acquisition_active() == old(self).acquisition_active(),
            final(self).quiescence_bound() == old(self).quiescence_bound(),
            final(self).delivered() == old(self).delivered(),
            final(self).buffer_sizes() == old(self).buffer_sizes(),
    ;

    /// Closes the device session.
    fn close_device(&mut self) -> (r: Result<(), Error>)
        ensures
            final(self).announced() == old(self).announced(),
            final(self).queued() == old(self).queued(),
            final(self).capturing() == old(self).capturing(),
            final(self).acquisition_active() ==> old(self).acquisition_active(),
            final(self).delivered() == old(self).delivered(),
            final(self).buffer_sizes() == old(self).buffer_sizes(),
    ;
}

} // verus!
