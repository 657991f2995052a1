//! The manager of firmware updates.
//!
//! At most one manager is held at a time.  The manager tells what the
//! storage subsystem's reports of a partition mean, opens the update
//! session, resets to the factory image and takes the outcome of marking the
//! running image.

use vstd::prelude::*;
use vstd::array::array_as_slice;
use core::marker::PhantomData;
use crate::error::{OtaError, ESP_ERR_NOT_FOUND, ESP_ERR_NOT_SUPPORTED, ESP_FAIL, ESP_OK};
use crate::cstr::read_c_str;
use crate::firmware::FirmwareInfo;
use crate::partition::{
    NativeCall, Partition, PartitionQuery, PartitionReport, FACTORY_LABEL,
    PARTITION_SUBTYPE_APP_FACTORY, PARTITION_TYPE_APP,
};
use crate::slot::{
    firmware_info, firmware_result_view, slot_of, slot_result_view, slot_state, Slot, SlotState,
    SlotView, OTA_IMG_ABORTED, OTA_IMG_INVALID, OTA_IMG_NEW, OTA_IMG_PENDING_VERIFY,
    OTA_IMG_VALID,
};
use crate::update::{written, Completion, EspOtaUpdate, Session};

verus! {

/// The latch through which a manager is acquired.  The process keeps one, and
/// one thread at a time has it.
#[derive(Clone, Copy, Debug, PartialEq, Eq, Structural)]
pub struct OtaLatch {
    /// Whether a manager is held.
    pub taken: bool,
}

impl OtaLatch {
    /// The latch after an attempt to acquire a manager, and whether the
    /// attempt succeeds: it does where no manager is held.
    pub open spec fn acquire(self) -> (OtaLatch, Result<(), OtaError>) {
        if self.taken {
            (self, Err(OtaError::AlreadyHeld))
        } else {
            (OtaLatch { taken: true }, Ok(()))
        }
    }

    /// The latch after a manager was released.
    pub open spec fn release(self) -> OtaLatch {
        OtaLatch { taken: false }
    }

    /// A latch through which no manager was acquired yet.
    pub fn new() -> (latch: OtaLatch)
        ensures
            latch == (OtaLatch { taken: false }),
    {
        OtaLatch { taken: false }
    }
}

/// While a manager is held no second one can be acquired, and once it is
/// released the next attempt succeeds.  To release is to free the latch,
/// whatever state it was in, so that releasing twice is releasing once.
pub proof fn lemma_one_manager_at_a_time(latch: OtaLatch)
    ensures
        latch.taken ==> latch.acquire() == (latch, Err::<(), OtaError>(OtaError::AlreadyHeld)),
        !latch.taken ==> latch.acquire().1 is Ok,
        latch.acquire().1 is Ok ==> latch.acquire().0.acquire() == (
            latch.acquire().0,
            Err::<(), OtaError>(OtaError::AlreadyHeld),
        ),
        latch.release().acquire().1 is Ok,
        !latch.release().taken,
        latch.release().release() == latch.release(),
{
}

/// The search for the factory partition: the application partition of
/// subtype factory that is labelled `factory`.
pub open spec fn factory_query() -> PartitionQuery {
    PartitionQuery {
        kind: PARTITION_TYPE_APP,
        subtype: PARTITION_SUBTYPE_APP_FACTORY,
        label: FACTORY_LABEL,
    }
}

/// The factory partition, from what the search for it found: without one
/// the device does not support a factory reset.
pub open spec fn factory_partition(found: Option<Partition>) -> Result<Partition, OtaError> {
    match found {
        Some(partition) => Ok(partition),
        None => Err(OtaError::NotSupported),
    }
}

/// The answer to a request for a factory reset: the factory partition is to
/// become the boot partition, and without one the reset is not supported.
pub open spec fn factory_reset(found: Option<Partition>) -> Result<NativeCall<'static>, OtaError> {
    match found {
        Some(partition) => Ok(NativeCall::SetBootPartition { partition }),
        None => Err(OtaError::NotSupported),
    }
}

/// A factory reset is refused where there is no factory partition, and
/// only there.  Else it asks for one call, which makes the factory partition
/// the boot partition, and the reset has worked where that call succeeds.
pub proof fn lemma_factory_reset(found: Option<Partition>)
    ensures
        found is None <==> factory_reset(found) == Err::<NativeCall, OtaError>(
            OtaError::NotSupported,
        ),
        found is Some ==> factory_reset(found) is Ok && factory_reset(found)->Ok_0.boot_target()
            == found,
        OtaError::spec_check(ESP_OK) is Ok,
{
}

/// The slot that was last found invalid, where there is one.
pub open spec fn last_invalid_slot(report: Option<&PartitionReport>) -> Result<
    Option<SlotView>,
    OtaError,
> {
    match report {
        None => Ok(None),
        Some(report) => match slot_of(*report) {
            Ok(slot) => Ok(Some(slot)),
            Err(e) => Err(e),
        },
    }
}

/// The view of a result that may hold a slot.
pub open spec fn optional_slot_view(r: Result<Option<Slot>, OtaError>) -> Result<
    Option<SlotView>,
    OtaError,
> {
    match r {
        Ok(Some(slot)) => Ok(Some(slot@)),
        Ok(None) => Ok(None),
        Err(e) => Err(e),
    }
}

/// What becomes of an update that was begun on `target`, once the storage
/// subsystem has answered with `status` and `handle`: after success a session
/// that writes to the target through the handle.  The subsystem refuses to
/// begin without a target; should it report success all the same, there is
/// nothing to write to and no session.
pub open spec fn opened(target: Option<Partition>, status: i32, handle: u32) -> Result<
    Session,
    OtaError,
> {
    if status != ESP_OK {
        Err(OtaError::NativeFailure(status))
    } else {
        match target {
            Some(partition) => Ok(Session::Open { partition, handle }),
            None => Err(OtaError::NotOpen),
        }
    }
}

/// The error that a return from the restart amounts to.  The restart does
/// not return where it works, so that every status code reports a failure,
/// the code of success too.
pub open spec fn reboot_failure(status: i32) -> OtaError {
    if status != ESP_OK {
        OtaError::NativeFailure(status)
    } else {
        OtaError::NativeFailure(ESP_FAIL)
    }
}

/// No error of this crate bears the status code of success: whatever the
/// storage subsystem reported, and whatever state a session or the latch is
/// in, an error that comes out can be told from success by its code.
pub proof fn lemma_errors_are_failures(
    status: i32,
    state: u32,
    report: PartitionReport,
    session: Session,
    buf: &[u8],
    len: usize,
    completion: Completion,
    target: Option<Partition>,
    handle: u32,
    latch: OtaLatch,
    found: Option<Partition>,
)
    ensures
        OtaError::spec_check(status) is Err ==> OtaError::spec_check(status)->Err_0.is_failure(),
        slot_state(status, state) is Err ==> slot_state(status, state)->Err_0.is_failure(),
        firmware_info(status, report.description@) is Err ==> firmware_info(
            status,
            report.description@,
        )->Err_0.is_failure(),
        slot_of(report) is Err ==> slot_of(report)->Err_0.is_failure(),
        session.check_write() is Err ==> session.check_write()->Err_0.is_failure(),
        session.write(buf) is Err ==> session.write(buf)->Err_0.is_failure(),
        session.complete().1 is Err ==> session.complete().1->Err_0.is_failure(),
        session.abort().1 is Err ==> session.abort().1->Err_0.is_failure(),
        written(len, status) is Err ==> written(len, status)->Err_0.is_failure(),
        completion.spec_ended(status) is Err ==> completion.spec_ended(status)->Err_0.is_failure(),
        opened(target, status, handle) is Err ==> opened(target, status, handle)->Err_0.is_failure(),
        reboot_failure(status).is_failure(),
        latch.acquire().1 is Err ==> latch.acquire().1->Err_0.is_failure(),
        factory_partition(found) is Err ==> factory_partition(found)->Err_0.is_failure(),
        factory_reset(found) is Err ==> factory_reset(found)->Err_0.is_failure(),
{
}

/// The view of a result that holds a session.
pub open spec fn session_view(r: Result<EspOtaUpdate<'_>, OtaError>) -> Result<Session, OtaError> {
    match r {
        Ok(update) => Ok(update@),
        Err(e) => Err(e),
    }
}

/// An update that the manager has decided to begin.
///
/// It lives no longer than the borrow of the manager, and so does the session
/// that comes out of it.
#[derive(Debug)]
pub struct PendingUpdate<'a> {
    target: Option<Partition>,
    _owner: PhantomData<&'a mut ()>,
}

impl<'a> PendingUpdate<'a> {
    /// The partition that the update is to be written to, where one is
    /// available.
    pub closed spec fn target(&self) -> Option<Partition> {
        self.target
    }

    /// The call that begins the update: open a write handle on the target.
    pub fn call(&self) -> (call: NativeCall<'static>)
        ensures
            call == (NativeCall::Begin { target: self.target() }),
    {
        NativeCall::Begin { target: self.target }
    }

    /// Takes the storage subsystem's answer to the call: its status code,
    /// and the write handle where it succeeded.
    ///
    /// After success the answer is an open session on the target.  After a
    /// failure it is the status code as the error, which is how an update
    /// without a partition ends.  Should the subsystem report success for
    /// an update without a partition, the answer is [`OtaError::NotOpen`].
    pub fn opened(self, status: i32, handle: u32) -> (r: Result<EspOtaUpdate<'a>, OtaError>)
        ensures
            session_view(r) == opened(self.target(), status, handle),
    {
        if status != ESP_OK {
            Err(OtaError::NativeFailure(status))
        } else {
            match self.target {
                Some(partition) => Ok(EspOtaUpdate::open(partition, handle)),
                None => Err(OtaError::NotOpen),
            }
        }
    }
}

/// The manager of firmware updates: a token that shows that its holder came
/// past the latch.
#[derive(Debug)]
pub struct EspOta {
    _token: (),
}

impl EspOta {
    /// Acquires the manager.
    ///
    /// Fails with [`OtaError::AlreadyHeld`] while a manager is held, and
    /// leaves the latch as it is.  Else the latch is taken from now on.
    pub fn new(latch: &mut OtaLatch) -> (r: Result<Self, OtaError>)
        ensures
            *final(latch) == old(latch).acquire().0,
            r is Ok <==> old(latch).acquire().1 is Ok,
            r is Err ==> r->Err_0 == OtaError::AlreadyHeld,
    {
        if latch.taken {
            return Err(OtaError::AlreadyHeld);
        }
        latch.taken = true;
        Ok(EspOta { _token: () })
    }

    /// Gives the manager back.  The latch is free afterwards, whatever state
    /// it was in and whatever has become of the sessions that the manager
    /// opened.
    pub fn release(self, latch: &mut OtaLatch)
        ensures
            *final(latch) == old(latch).release(),
    {
        latch.taken = false;
    }

    /// The slot that the device boots from, from the report of the boot
    /// partition.
    pub fn get_boot_slot(&self, boot: &PartitionReport) -> (r: Result<Slot, OtaError>)
        ensures
            slot_result_view(r) == slot_of(*boot),
    {
        self.get_slot(boot)
    }

    /// The slot whose image is running, from the report of the running
    /// partition.
    pub fn get_running_slot(&self, running: &PartitionReport) -> (r: Result<Slot, OtaError>)
        ensures
            slot_result_view(r) == slot_of(*running),
    {
        self.get_slot(running)
    }

    /// The slot that the next update goes to, from the report of the next
    /// update partition.
    pub fn get_update_slot(&self, next: &PartitionReport) -> (r: Result<Slot, OtaError>)
        ensures
            slot_result_view(r) == slot_of(*next),
    {
        self.get_slot(next)
    }

    /// The slot that was last found invalid, from the report of that
    /// partition: none where there is no such partition.
    pub fn get_last_invalid_slot(&self, last_invalid: Option<&PartitionReport>) -> (r: Result<
        Option<Slot>,
        OtaError,
    >)
        ensures
            optional_slot_view(r) == last_invalid_slot(last_invalid),
    {
        match last_invalid {
            None => Ok(None),
            Some(report) => match self.get_slot(report) {
                Ok(slot) => Ok(Some(slot)),
                Err(e) => Err(e),
            },
        }
    }

    /// Whether the device can be reset to its factory image: it can where a
    /// factory partition was found.  This never fails.
    pub fn is_factory_reset_supported(&self, found: Option<&Partition>) -> (r: Result<
        bool,
        OtaError,
    >)
        ensures
            r == Ok::<bool, OtaError>(found is Some),
    {
        Ok(found.is_some())
    }

    /// Resets the device to its factory image.
    ///
    /// Fails with [`OtaError::NotSupported`] where no factory partition was
    /// found.  Else the answer is the call that makes the factory partition
    /// the boot partition; its status code is the outcome of the reset.
    pub fn factory_reset(&mut self, found: Option<Partition>) -> (r: Result<
        NativeCall<'static>,
        OtaError,
    >)
        ensures
            r == factory_reset(found),
    {
        match self.get_factory_partition(found) {
            Ok(partition) => Ok(NativeCall::SetBootPartition { partition }),
            Err(e) => Err(e),
        }
    }

    /// Decides to begin an update on the partition that the storage subsystem
    /// names for the next update.
    ///
    /// Whether there is such a partition is not looked at here: without one
    /// the call that begins the update is left to fail.
    pub fn initiate_update(&mut self, next: Option<Partition>) -> (pending: PendingUpdate<'_>)
        ensures
            pending.target() == next,
    {
        PendingUpdate { target: next, _owner: PhantomData }
    }

    /// Takes the status code with which the running image was confirmed:
    /// success for [`ESP_OK`], else the code as the error.
    pub fn mark_running_slot_valid(&mut self, status: i32) -> (r: Result<(), OtaError>)
        ensures
            r == OtaError::spec_check(status),
    {
        OtaError::check(status)
    }

    /// Takes the status code with which the storage subsystem came back from
    /// declaring the running image invalid and restarting.
    ///
    /// That it came back at all shows that the restart failed.  The answer is
    /// the error to hand on: the status code, or a failure without a reason
    /// where the code claims success.
    pub fn mark_running_slot_invalid_and_reboot(&mut self, status: i32) -> (e: OtaError)
        ensures
            e == reboot_failure(status),
    {
        if status != ESP_OK {
            OtaError::NativeFailure(status)
        } else {
            OtaError::NativeFailure(ESP_FAIL)
        }
    }

    /// The search of the partition table that finds the factory partition.
    pub fn factory_query(&self) -> (query: PartitionQuery)
        ensures
            query == factory_query(),
    {
        PartitionQuery {
            kind: PARTITION_TYPE_APP,
            subtype: PARTITION_SUBTYPE_APP_FACTORY,
            label: FACTORY_LABEL,
        }
    }

    /// The factory partition, from what the search for it found.  Fails with
    /// [`OtaError::NotSupported`] where it found none.
    pub fn get_factory_partition(&self, found: Option<Partition>) -> (r: Result<
        Partition,
        OtaError,
    >)
        ensures
            r == factory_partition(found),
    {
        match found {
            Some(partition) => Ok(partition),
            None => Err(OtaError::NotSupported),
        }
    }

    /// The slot that a report describes.
    pub fn get_slot(&self, report: &PartitionReport) -> (r: Result<Slot, OtaError>)
        ensures
            slot_result_view(r) == slot_of(*report),
    {
        let state = match self.get_state(report) {
            Ok(state) => state,
            Err(e) => {
                return Err(e);
            },
        };
        let firmware = match self.get_firmware_info(report) {
            Ok(firmware) => firmware,
            Err(e) => {
                return Err(e);
            },
        };
        let label = read_c_str(array_as_slice(&report.partition.label));
        Ok(Slot { label, state, firmware })
    }

    /// The state of the image in the partition that a report describes.
    pub fn get_state(&self, report: &PartitionReport) -> (r: Result<SlotState, OtaError>)
        ensures
            r == slot_state(report.state_status, report.state),
    {
        let status: i32 = report.state_status;
        let state: u32 = report.state;
        if status == ESP_ERR_NOT_FOUND {
            Ok(SlotState::Unknown)
        } else if status == ESP_ERR_NOT_SUPPORTED {
            Ok(SlotState::Factory)
        } else if status != ESP_OK {
            Err(OtaError::NativeFailure(status))
        } else if state == OTA_IMG_NEW || state == OTA_IMG_PENDING_VERIFY {
            Ok(SlotState::Unverified)
        } else if state == OTA_IMG_VALID {
            Ok(SlotState::Valid)
        } else if state == OTA_IMG_INVALID || state == OTA_IMG_ABORTED {
            Ok(SlotState::Invalid)
        } else {
            Ok(SlotState::Unknown)
        }
    }

    /// What the image in the partition that a report describes says of
    /// itself: nothing where the partition holds no descriptor.
    pub fn get_firmware_info(&self, report: &PartitionReport) -> (r: Result<
        Option<FirmwareInfo>,
        OtaError,
    >)
        ensures
            firmware_result_view(r) == firmware_info(
                report.description_status,
                report.description@,
            ),
    {
        let status: i32 = report.description_status;
        if status == ESP_ERR_NOT_FOUND {
            Ok(None)
        } else if status != ESP_OK {
            Err(OtaError::NativeFailure(status))
        } else {
            match FirmwareInfo::from_app_desc(report.description.as_slice()) {
                Ok(info) => Ok(Some(info)),
                Err(e) => Err(e),
            }
        }
    }
}

} // verus!
