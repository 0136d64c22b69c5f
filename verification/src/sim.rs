//! A verified reference implementation of the capture capability: a
//! scripted, in-process device that delivers pre-loaded frames. It grounds
//! the contracts of [`crate::device::CaptureDevice`] in a checked
//! implementation and doubles as the test double that lets the whole
//! session lifecycle run without hardware.

use vstd::prelude::*;

use crate::device::{
    spec_acquisition_mode_name, spec_payload_size_name, spec_status_feature_name,
    spec_status_selector_name, CaptureDevice, Completion, FrameDescriptor,
};
use crate::error::Error;
use crate::feature::{FeatureFlag, FeatureInfo, FeatureType, FeatureValue};

verus! {

/// The driver-side state of one buffer slot.
#[derive(Clone, Copy, Debug, PartialEq, Eq, Structural)]
pub struct SimSlot {
    /// Whether the slot is announced.
    pub announced: bool,
    /// Whether the slot is queued for capture.
    pub queued: bool,
}

/// One recorded driver interaction, in call order. Tests read the log to
/// check orderings the contracts enforce, e.g. that no revoke precedes the
/// flush.
#[derive(Clone, Copy, Debug, PartialEq, Eq, Structural)]
pub enum SimEvent {
    /// A buffer was announced under this slot.
    Announced(usize),
    /// The capture pipeline was engaged.
    CaptureStarted,
    /// A buffer slot was queued for capture.
    Submitted(usize),
    /// The acquisition-start command ran.
    StartCommand,
    /// The acquisition-stop command ran.
    StopCommand,
    /// A queued buffer completed and left the queue.
    Completed(usize),
    /// The capture pipeline was disengaged.
    CaptureEnded,
    /// Every queued buffer was flushed out of the queue.
    Flushed,
    /// An announced buffer was revoked.
    Revoked(usize),
    /// The device session was closed.
    Closed,
}

/// Compares two string slices by contents.
fn str_eq(a: &str, b: &str) -> (r: bool)
    ensures
        r == (a@ == b@),
{
    let owned_a: String = a.to_owned();
    let owned_b: String = b.to_owned();
    owned_a == owned_b
}

/// The well-known feature names are pairwise distinct (their lengths
/// already differ).
proof fn lemma_feature_names_distinct()
    ensures
        spec_payload_size_name() != spec_status_selector_name(),
        spec_payload_size_name() != spec_acquisition_mode_name(),
        spec_payload_size_name() != spec_status_feature_name(),
        spec_status_selector_name() != spec_acquisition_mode_name(),
        spec_status_selector_name() != spec_status_feature_name(),
        spec_acquisition_mode_name() != spec_status_feature_name(),
{
    reveal_strlit("PayloadSize");
    reveal_strlit("AcquisitionStatusSelector");
    reveal_strlit("AcquisitionMode");
    reveal_strlit("AcquisitionStatus");
    assert(spec_payload_size_name().len() == 11);
    assert(spec_status_selector_name().len() == 25);
    assert(spec_acquisition_mode_name().len() == 15);
    assert(spec_status_feature_name().len() == 17);
}

/// A scripted capture device: frames pushed onto its script are delivered,
/// one per successful wait, into whichever queued slot comes first. It
/// models a finite observation of a camera — acquisition reports active for
/// at most the configured poll budget before quiescing.
pub struct SimDevice {
    open_flag: bool,
    capturing_flag: bool,
    acquiring: bool,
    quiesce_left: u64,
    poll_budget: u64,
    payload_size: i64,
    status_selector: String,
    acq_mode: String,
    slots: Vec<SimSlot>,
    pending: Vec<(FrameDescriptor, Vec<u8>)>,
    log: Vec<SimEvent>,
    fault_plan: Option<(u64, Error)>,
    delivered_log: Ghost<Seq<(FrameDescriptor, Seq<u8>)>>,
    sizes: Ghost<Map<int, nat>>,
}

impl SimDevice {
    /// The recorded interactions, in call order.
    pub closed spec fn spec_log(&self) -> Seq<SimEvent> {
        self.log@
    }

    /// Whether the device session is open.
    pub closed spec fn spec_device_open(&self) -> bool {
        self.open_flag
    }

    /// A fresh, quiescent device: nothing announced or queued, the capture
    /// pipeline disengaged, acquisition inactive, and an empty script. The
    /// payload-size feature reports `payload_size`; once acquiring, the
    /// status feature reports active for at most `poll_budget` polls.
    pub fn new(payload_size: i64, poll_budget: u64) -> (r: SimDevice)
        ensures
            r.announced().is_empty(),
            r.queued().is_empty(),
            !r.capturing(),
            !r.acquisition_active(),
            r.frames_left() == 0,
            r.spec_device_open(),
            r.spec_log() == Seq::<SimEvent>::empty(),
            r.features().contains_key(spec_payload_size_name()),
            r.features()[spec_payload_size_name()] == FeatureValue::Int(payload_size),
            r.delivered() == Seq::<(FrameDescriptor, Seq<u8>)>::empty(),
            r.buffer_sizes() == Map::<int, nat>::empty(),
    {
        let d = SimDevice {
            open_flag: true,
            capturing_flag: false,
            acquiring: false,
            quiesce_left: 0,
            poll_budget,
            payload_size,
            status_selector: String::new(),
            acq_mode: String::new(),
            slots: Vec::new(),
            pending: Vec::new(),
            log: Vec::new(),
            fault_plan: None,
            delivered_log: Ghost(Seq::empty()),
            sizes: Ghost(Map::empty()),
        };
        proof {
            assert(d.announced() =~= Set::<int>::empty());
            assert(d.queued() =~= Set::<int>::empty());
            lemma_feature_names_distinct();
        }
        d
    }

    /// Appends one frame to the delivery script.
    pub fn push_frame(&mut self, descriptor: FrameDescriptor, data: Vec<u8>)
        ensures
            final(self).announced() == old(self).announced(),
            final(self).queued() == old(self).queued(),
            final(self).capturing() == old(self).capturing(),
            final(self).acquisition_active() == old(self).acquisition_active(),
            final(self).features() == old(self).features(),
            final(self).frames_left() == old(self).frames_left() + 1,
            final(self).spec_log() == old(self).spec_log(),
            final(self).delivered() == old(self).delivered(),
            final(self).buffer_sizes() == old(self).buffer_sizes(),
    {
        self.pending.push((descriptor, data));
    }

    /// Arms a one-shot fault: the next `calls_before` fallible driver calls
    /// succeed as usual, then one call fails with `error`, after which the
    /// device behaves normally again.
    pub fn inject_fault(&mut self, calls_before: u64, error: Error)
        ensures
            final(self).announced() == old(self).announced(),
            final(self).queued() == old(self).queued(),
            final(self).capturing() == old(self).capturing(),
            final(self).acquisition_active() == old(self).acquisition_active(),
            final(self).features() == old(self).features(),
            final(self).frames_left() == old(self).frames_left(),
            final(self).spec_log() == old(self).spec_log(),
    {
        self.fault_plan = Some((calls_before, error));
    }

    /// Consumes one step of an armed fault plan; answers the planned error
    /// when its turn has come. The device model is untouched.
    fn take_injected_fault(&mut self) -> (r: Option<Error>)
        ensures
            final(self).announced() == old(self).announced(),
            final(self).queued() == old(self).queued(),
            final(self).capturing() == old(self).capturing(),
            final(self).acquisition_active() == old(self).acquisition_active(),
            final(self).features() == old(self).features(),
            final(self).frames_left() == old(self).frames_left(),
            final(self).quiescence_bound() == old(self).quiescence_bound(),
            final(self).spec_log() == old(self).spec_log(),
            final(self).spec_device_open() == old(self).spec_device_open(),
            final(self).delivered() == old(self).delivered(),
            final(self).buffer_sizes() == old(self).buffer_sizes(),
            final(self).open_flag == old(self).open_flag,
            final(self).capturing_flag == old(self).capturing_flag,
            final(self).acquiring == old(self).acquiring,
            final(self).quiesce_left == old(self).quiesce_left,
            final(self).poll_budget == old(self).poll_budget,
            final(self).payload_size == old(self).payload_size,
            final(self).status_selector == old(self).status_selector,
            final(self).acq_mode == old(self).acq_mode,
            final(self).slots == old(self).slots,
            final(self).pending == old(self).pending,
            final(self).log == old(self).log,
    {
        match self.fault_plan {
            None => None,
            Some((calls_before, error)) => {
                if calls_before == 0 {
                    self.fault_plan = None;
                    Some(error)
                } else {
                    self.fault_plan = Some((calls_before - 1, error));
                    None
                }
            },
        }
    }

    /// Whether a slot is currently announced.
    pub fn is_announced(&self, slot: usize) -> (r: bool)
        ensures
            r == self.announced().contains(slot as int),
    {
        slot < self.slots.len() && self.slots[slot].announced
    }

    /// Whether a slot is currently queued.
    pub fn is_queued(&self, slot: usize) -> (r: bool)
        ensures
            r == self.queued().contains(slot as int),
    {
        slot < self.slots.len() && self.slots[slot].queued
    }

    /// Whether any slot at all is still announced.
    pub fn any_announced(&self) -> (r: bool)
        ensures
            r == !self.announced().is_empty(),
    {
        let mut i: usize = 0;
        while i < self.slots.len()
            invariant
                i <= self.slots@.len(),
                forall|j: int| 0 <= j < i ==> !self.slots@[j].announced,
            decreases self.slots@.len() - i,
        {
            if self.slots[i].announced {
                assert(self.announced().contains(i as int));
                return true;
            }
            i = i + 1;
        }
        proof {
            assert(self.announced() =~= Set::<int>::empty());
        }
        false
    }

    /// Whether the device session is open.
    pub fn is_device_open(&self) -> (r: bool)
        ensures
            r == self.spec_device_open(),
    {
        self.open_flag
    }

    /// A borrow of the recorded interactions, in call order.
    pub fn event_log(&self) -> (r: &Vec<SimEvent>)
        ensures
            r@ == self.spec_log(),
    {
        &self.log
    }

    /// The first queued slot, scanning upwards, or `None` when nothing is
    /// queued.
    fn first_queued(&self) -> (r: Option<usize>)
        ensures
            r matches Some(i) ==> i < self.slots@.len() && self.slots@[i as int].queued
                && self.queued().contains(i as int),
            r is None ==> self.queued().is_empty(),
    {
        let mut i: usize = 0;
        while i < self.slots.len()
            invariant
                i <= self.slots@.len(),
                forall|j: int| 0 <= j < i ==> !self.slots@[j].queued,
            decreases self.slots@.len() - i,
        {
            if self.slots[i].queued {
                assert(self.queued().contains(i as int));
                return Some(i);
            }
            i = i + 1;
        }
        proof {
            assert(self.queued() =~= Set::<int>::empty());
        }
        None
    }
}

impl CaptureDevice for SimDevice {
    closed spec fn announced(&self) -> Set<int> {
        Set::new(|i: int| 0 <= i < self.slots@.len() && self.slots@[i].announced)
    }

    closed spec fn queued(&self) -> Set<int> {
        Set::new(|i: int| 0 <= i < self.slots@.len() && self.slots@[i].queued)
    }

    closed spec fn capturing(&self) -> bool {
        self.capturing_flag
    }

    closed spec fn acquisition_active(&self) -> bool {
        self.acquiring
    }

    closed spec fn features(&self) -> Map<Seq<char>, FeatureValue> {
        Map::<Seq<char>, FeatureValue>::empty().insert(
            spec_payload_size_name(),
            FeatureValue::Int(self.payload_size),
        ).insert(
            spec_status_selector_name(),
            FeatureValue::Enum(self.status_selector),
        ).insert(spec_acquisition_mode_name(), FeatureValue::Enum(self.acq_mode))
    }

    closed spec fn quiescence_bound(&self) -> nat {
        self.quiesce_left as nat
    }

    closed spec fn frames_left(&self) -> nat {
        self.pending@.len()
    }

    closed spec fn delivered(&self) -> Seq<(FrameDescriptor, Seq<u8>)> {
        self.delivered_log@
    }

    closed spec fn buffer_sizes(&self) -> Map<int, nat> {
        self.sizes@
    }

    fn get_feature(&mut self, name: &str) -> (r: Result<FeatureValue, Error>) {
        proof {
            lemma_feature_names_distinct();
        }
        if !self.open_flag {
            return Err(Error::DeviceNotOpen);
        }
        match self.take_injected_fault() {
            Some(e) => {
                return Err(e);
            },
            None => {},
        }
        if str_eq(name, "AcquisitionStatus") {
            // Reports acquisition activity; each poll that still reports
            // active consumes one unit of the quiescence budget.
            if self.acquiring {
                if self.quiesce_left > 0 {
                    self.quiesce_left = self.quiesce_left - 1;
                    return Ok(FeatureValue::Bool(true));
                } else {
                    self.acquiring = false;
                    return Ok(FeatureValue::Bool(false));
                }
            }
            return Ok(FeatureValue::Bool(false));
        }
        if str_eq(name, "PayloadSize") {
            return Ok(FeatureValue::Int(self.payload_size));
        }
        if str_eq(name, "AcquisitionStatusSelector") {
            return Ok(FeatureValue::Enum(self.status_selector.clone()));
        }
        if str_eq(name, "AcquisitionMode") {
            return Ok(FeatureValue::Enum(self.acq_mode.clone()));
        }
        Err(Error::NotFound)
    }

    fn set_feature(&mut self, name: &str, value: FeatureValue) -> (r: Result<(), Error>) {
        proof {
            lemma_feature_names_distinct();
        }
        if !self.open_flag {
            return Err(Error::DeviceNotOpen);
        }
        match self.take_injected_fault() {
            Some(e) => {
                return Err(e);
            },
            None => {},
        }
        if str_eq(name, "PayloadSize") {
            match value {
                FeatureValue::Int(v) => {
                    self.payload_size = v;
                    proof {
                        assert(self.features() =~= old(self).features().insert(
                            name@,
                            FeatureValue::Int(v),
                        ));
                    }
                    return Ok(());
                },
                _ => {
                    return Err(Error::WrongType);
                },
            }
        }
        if str_eq(name, "AcquisitionStatusSelector") {
            match value {
                FeatureValue::Enum(v) => {
                    self.status_selector = v;
                    proof {
                        assert(self.features() =~= old(self).features().insert(
                            name@,
                            FeatureValue::Enum(self.status_selector),
                        ));
                    }
                    return Ok(());
                },
                _ => {
                    return Err(Error::WrongType);
                },
            }
        }
        if str_eq(name, "AcquisitionMode") {
            match value {
                FeatureValue::Enum(v) => {
                    self.acq_mode = v;
                    proof {
                        assert(self.features() =~= old(self).features().insert(
                            name@,
                            FeatureValue::Enum(self.acq_mode),
                        ));
                    }
                    return Ok(());
                },
                _ => {
                    return Err(Error::WrongType);
                },
            }
        }
        Err(Error::NotFound)
    }

    fn run_command(&mut self, name: &str) -> (r: Result<(), Error>) {
        if !self.open_flag {
            return Err(Error::DeviceNotOpen);
        }
        match self.take_injected_fault() {
            Some(e) => {
                return Err(e);
            },
            None => {},
        }
        if str_eq(name, "AcquisitionStart") {
            self.acquiring = true;
            self.quiesce_left = self.poll_budget;
            self.log.push(SimEvent::StartCommand);
            return Ok(());
        }
        if str_eq(name, "AcquisitionStop") {
            // The model quiesces through the status polls; the command
            // itself only marks the request in the log.
            self.log.push(SimEvent::StopCommand);
            return Ok(());
        }
        Err(Error::NotFound)
    }

    fn is_command_done(&mut self, name: &str) -> (r: Result<bool, Error>) {
        if !self.open_flag {
            return Err(Error::DeviceNotOpen);
        }
        match self.take_injected_fault() {
            Some(e) => {
                return Err(e);
            },
            None => {},
        }
        // Every scripted command completes synchronously.
        Ok(true)
    }

    fn list_features(&mut self) -> (r: Result<Vec<FeatureInfo>, Error>) {
        proof {
            lemma_feature_names_distinct();
        }
        if !self.open_flag {
            return Err(Error::DeviceNotOpen);
        }
        match self.take_injected_fault() {
            Some(e) => {
                return Err(e);
            },
            None => {},
        }
        let rw = FeatureFlag::from_bits_truncate(3);
        let mut list: Vec<FeatureInfo> = Vec::new();
        list.push(
            FeatureInfo {
                name: "PayloadSize".to_owned(),
                data_type: FeatureType::Int,
                flags: rw,
            },
        );
        list.push(
            FeatureInfo {
                name: "AcquisitionStatusSelector".to_owned(),
                data_type: FeatureType::Enum,
                flags: rw,
            },
        );
        list.push(
            FeatureInfo {
                name: "AcquisitionMode".to_owned(),
                data_type: FeatureType::Enum,
                flags: rw,
            },
        );
        proof {
            assert forall|k: Seq<char>| self.features().contains_key(k) implies exists|i: int|
                0 <= i < list@.len() && (#[trigger] list@[i].name@) == k by {
                if k == spec_payload_size_name() {
                    assert(list@[0].name@ == k);
                } else if k == spec_status_selector_name() {
                    assert(list@[1].name@ == k);
                } else {
                    assert(k == spec_acquisition_mode_name());
                    assert(list@[2].name@ == k);
                }
            }
        }
        Ok(list)
    }

    fn announce_buffer(&mut self, slot: usize, data: Vec<u8>) -> (r: Result<(), Error>) {
        if !self.open_flag {
            return Err(Error::DeviceNotOpen);
        }
        match self.take_injected_fault() {
            Some(e) => {
                return Err(e);
            },
            None => {},
        }
        // Grow the slot table as needed; fresh slots are neither announced
        // nor queued, so the model sets are untouched.
        while self.slots.len() <= slot
            invariant
                self.announced() == old(self).announced(),
                self.queued() == old(self).queued(),
                self.capturing_flag == old(self).capturing_flag,
                self.acquiring == old(self).acquiring,
                self.quiesce_left == old(self).quiesce_left,
                self.poll_budget == old(self).poll_budget,
                self.payload_size == old(self).payload_size,
                self.status_selector == old(self).status_selector,
                self.acq_mode == old(self).acq_mode,
                self.pending == old(self).pending,
                self.open_flag == old(self).open_flag,
                self.delivered_log == old(self).delivered_log,
                self.sizes == old(self).sizes,
            decreases slot + 1 - self.slots@.len(),
        {
            self.slots.push(SimSlot { announced: false, queued: false });
            proof {
                assert(self.announced() =~= old(self).announced());
                assert(self.queued() =~= old(self).queued());
            }
        }
        if self.slots[slot].announced {
            // Unreachable for verified callers, who may not announce an
            // announced slot again.
            return Err(Error::BadParameter);
        }
        let mut entry = self.slots[slot];
        entry.announced = true;
        self.slots[slot] = entry;
        self.sizes = Ghost(self.sizes@.insert(slot as int, data.len() as nat));
        self.log.push(SimEvent::Announced(slot));
        proof {
            assert(self.announced() =~= old(self).announced().insert(slot as int));
            assert(self.queued() =~= old(self).queued());
        }
        Ok(())
    }

    fn start_capture(&mut self) -> (r: Result<(), Error>) {
        if !self.open_flag {
            return Err(Error::DeviceNotOpen);
        }
        match self.take_injected_fault() {
            Some(e) => {
                return Err(e);
            },
            None => {},
        }
        self.capturing_flag = true;
        self.log.push(SimEvent::CaptureStarted);
        Ok(())
    }

    fn submit_buffer(&mut self, slot: usize) -> (r: Result<(), Error>) {
        if !self.open_flag {
            return Err(Error::DeviceNotOpen);
        }
        match self.take_injected_fault() {
            Some(e) => {
                return Err(e);
            },
            None => {},
        }
        if slot >= self.slots.len() || !self.slots[slot].announced || self.slots[slot].queued {
            // Unreachable for verified callers.
            return Err(Error::BadParameter);
        }
        let mut entry = self.slots[slot];
        entry.queued = true;
        self.slots[slot] = entry;
        self.log.push(SimEvent::Submitted(slot));
        proof {
            assert(self.queued() =~= old(self).queued().insert(slot as int));
            assert(self.announced() =~= old(self).announced());
        }
        Ok(())
    }

    fn wait_frame(&mut self) -> (r: Result<Completion, Error>) {
        if !self.open_flag {
            return Err(Error::DeviceNotOpen);
        }
        match self.take_injected_fault() {
            Some(e) => {
                return Err(e);
            },
            None => {},
        }
        let idx = match self.first_queued() {
            Some(i) => i,
            None => {
                return Err(Error::Timeout);
            },
        };
        if self.pending.len() == 0 {
            // The script is exhausted: no further frame will complete.
            return Err(Error::Timeout);
        }
        let (descriptor, data) = self.pending.remove(0);
        let mut entry = self.slots[idx];
        entry.queued = false;
        self.slots[idx] = entry;
        self.delivered_log = Ghost(self.delivered_log@.push((descriptor, data@)));
        self.log.push(SimEvent::Completed(idx));
        proof {
            assert(self.queued() =~= old(self).queued().remove(idx as int));
            assert(self.announced() =~= old(self).announced());
        }
        Ok(Completion { slot: idx, descriptor, data })
    }

    fn end_capture(&mut self) -> (r: Result<(), Error>) {
        if !self.open_flag {
            return Err(Error::DeviceNotOpen);
        }
        match self.take_injected_fault() {
            Some(e) => {
                return Err(e);
            },
            None => {},
        }
        self.capturing_flag = false;
        self.log.push(SimEvent::CaptureEnded);
        Ok(())
    }

    fn flush_queue(&mut self) -> (r: Result<(), Error>) {
        if !self.open_flag {
            return Err(Error::DeviceNotOpen);
        }
        match self.take_injected_fault() {
            Some(e) => {
                return Err(e);
            },
            None => {},
        }
        let mut i: usize = 0;
        while i < self.slots.len()
            invariant
                i <= self.slots@.len(),
                self.slots@.len() == old(self).slots@.len(),
                forall|j: int| 0 <= j < i ==> !self.slots@[j].queued,
                forall|j: int|
                    0 <= j < self.slots@.len() ==> self.slots@[j].announced == old(
                        self,
                    ).slots@[j].announced,
                forall|j: int| i <= j < self.slots@.len() ==> self.slots@[j] == old(self).slots@[j],
                self.capturing_flag == old(self).capturing_flag,
                self.acquiring == old(self).acquiring,
                self.quiesce_left == old(self).quiesce_left,
                self.poll_budget == old(self).poll_budget,
                self.payload_size == old(self).payload_size,
                self.status_selector == old(self).status_selector,
                self.acq_mode == old(self).acq_mode,
                self.pending == old(self).pending,
                self.open_flag == old(self).open_flag,
                self.delivered_log == old(self).delivered_log,
                self.sizes == old(self).sizes,
            decreases self.slots@.len() - i,
        {
            let mut entry = self.slots[i];
            entry.queued = false;
            self.slots[i] = entry;
            i = i + 1;
        }
        self.log.push(SimEvent::Flushed);
        proof {
            assert(self.queued() =~= Set::<int>::empty());
            assert(self.announced() =~= old(self).announced());
        }
        Ok(())
    }

    fn revoke_buffer(&mut self, slot: usize) -> (r: Result<(), Error>) {
        if !self.open_flag {
            return Err(Error::DeviceNotOpen);
        }
        match self.take_injected_fault() {
            Some(e) => {
                return Err(e);
            },
            None => {},
        }
        if slot >= self.slots.len() || !self.slots[slot].announced {
            return Err(Error::BadHandle);
        }
        if self.slots[slot].queued {
            // Unreachable for verified callers, who may never revoke a
            // queued buffer; a scripted stand-in for the driver's refusal.
            return Err(Error::Other);
        }
        let mut entry = self.slots[slot];
        entry.announced = false;
        self.slots[slot] = entry;
        self.sizes = Ghost(self.sizes@.remove(slot as int));
        self.log.push(SimEvent::Revoked(slot));
        proof {
            assert(self.announced() =~= old(self).announced().remove(slot as int));
            assert(self.queued() =~= old(self).queued());
        }
        Ok(())
    }

    fn poll_delay(&mut self) {
        // The scripted device has no cadence to respect.
    }

    fn close_device(&mut self) -> (r: Result<(), Error>) {
        if !self.open_flag {
            return Err(Error::DeviceNotOpen);
        }
        match self.take_injected_fault() {
            Some(e) => {
                return Err(e);
            },
            None => {},
        }
        self.open_flag = false;
        self.log.push(SimEvent::Closed);
        Ok(())
    }
}

} // verus!
