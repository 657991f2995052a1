use esp_ota::error::{ESP_ERR_NOT_FOUND, ESP_FAIL, ESP_OK};
use esp_ota::{
    Completion, EspOta, EspOtaUpdate, NativeCall, OtaError, OtaLatch, Partition, PartitionReport,
    Session, SlotState,
};

fn update_partition(text: &[u8], offset: u32) -> Partition {
    let mut label = [0u8; 17];
    label[..text.len()].copy_from_slice(text);
    Partition { kind: 0, subtype: 0x10, offset, size: 0x10_0000, label }
}

/// A stand-in for the storage subsystem: it performs the calls that the
/// library asks for and keeps what a device would keep.
struct UpdateDevice {
    boot: Partition,
    next: Option<Partition>,
    handle: Option<(u32, Partition)>,
    handles_given: u32,
    written: Vec<u8>,
    end_status: i32,
    set_boot_status: i32,
    write_status: i32,
    calls: Vec<Seen>,
}

/// A call as the stand-in has seen it.
#[derive(Clone, Copy, Debug, PartialEq, Eq)]
enum Seen {
    Begin(Option<Partition>),
    Write(u32, usize),
    End(u32),
    Abort(u32),
    SetBootPartition(Partition),
}

impl UpdateDevice {
    fn new() -> Self {
        UpdateDevice {
            boot: update_partition(b"ota_0", 0x1_0000),
            next: Some(update_partition(b"ota_1", 0x11_0000)),
            handle: None,
            handles_given: 40,
            written: Vec::new(),
            end_status: ESP_OK,
            set_boot_status: ESP_OK,
            write_status: ESP_OK,
            calls: Vec::new(),
        }
    }

    /// Performs a call and answers with its status code, and with the write
    /// handle where one was opened.
    fn perform(&mut self, call: NativeCall<'_>) -> (i32, u32) {
        self.calls.push(match call {
            NativeCall::Begin { target } => Seen::Begin(target),
            NativeCall::Write { handle, data } => Seen::Write(handle, data.len()),
            NativeCall::End { handle } => Seen::End(handle),
            NativeCall::Abort { handle } => Seen::Abort(handle),
            NativeCall::SetBootPartition { partition } => Seen::SetBootPartition(partition),
        });
        match call {
            NativeCall::Begin { target: None } => (0x102, 0),
            NativeCall::Begin { target: Some(partition) } => {
                self.handles_given += 1;
                self.handle = Some((self.handles_given, partition));
                (ESP_OK, self.handles_given)
            }
            NativeCall::Write { handle, data } => match self.handle {
                Some((open, _)) if open == handle && self.write_status == ESP_OK => {
                    self.written.extend_from_slice(data);
                    (ESP_OK, 0)
                }
                Some((open, _)) if open == handle => (self.write_status, 0),
                _ => (ESP_ERR_NOT_FOUND, 0),
            },
            NativeCall::End { handle } => match self.handle {
                Some((open, _)) if open == handle => {
                    self.handle = None;
                    (self.end_status, 0)
                }
                _ => (ESP_ERR_NOT_FOUND, 0),
            },
            NativeCall::Abort { handle } => match self.handle {
                Some((open, _)) if open == handle => {
                    self.handle = None;
                    (ESP_OK, 0)
                }
                _ => (ESP_ERR_NOT_FOUND, 0),
            },
            NativeCall::SetBootPartition { partition } => {
                if self.set_boot_status == ESP_OK {
                    self.boot = partition;
                }
                (self.set_boot_status, 0)
            }
        }
    }

    fn boot_report(&self) -> PartitionReport {
        PartitionReport {
            partition: self.boot,
            state_status: ESP_OK,
            state: 0,
            description_status: ESP_ERR_NOT_FOUND,
            description: Vec::new(),
        }
    }
}

fn update_open<'a>(ota: &'a mut EspOta, device: &mut UpdateDevice) -> EspOtaUpdate<'a> {
    let pending = ota.initiate_update(device.next);
    let (status, handle) = device.perform(pending.call());
    pending.opened(status, handle).expect("an open session")
}

fn update_write(
    update: &mut EspOtaUpdate<'_>,
    device: &mut UpdateDevice,
    buf: &[u8],
) -> Result<usize, OtaError> {
    let call = update.write(buf)?;
    let (status, _) = device.perform(call);
    EspOtaUpdate::written(buf, status)
}

fn update_complete(
    update: &mut EspOtaUpdate<'_>,
    device: &mut UpdateDevice,
) -> Result<(), OtaError> {
    let completion = update.complete()?;
    let (ended, _) = device.perform(completion.call());
    let call = completion.ended(ended)?;
    let (switched, _) = device.perform(call);
    OtaError::check(switched)
}

fn update_abort(update: &mut EspOtaUpdate<'_>, device: &mut UpdateDevice) -> Result<(), OtaError> {
    let call = update.abort()?;
    let (status, _) = device.perform(call);
    OtaError::check(status)
}

fn update_manager() -> EspOta {
    let mut latch = OtaLatch::new();
    EspOta::new(&mut latch).expect("a free latch")
}

#[test]
fn new_session_is_open_on_the_next_update_partition() {
    let mut ota = update_manager();
    let mut device = UpdateDevice::new();
    let update = update_open(&mut ota, &mut device);
    assert!(update.is_open());
    assert_eq!(
        update.state(),
        Session::Open { partition: update_partition(b"ota_1", 0x11_0000), handle: 41 }
    );
    assert_eq!(update.check_write(), Ok(()));
    assert_eq!(device.calls, vec![Seen::Begin(device.next)]);
}

#[test]
fn open_session_writes_whole_buffers() {
    let mut ota = update_manager();
    let mut device = UpdateDevice::new();
    let mut update = update_open(&mut ota, &mut device);
    assert_eq!(update.write(b"abc"), Ok(NativeCall::Write { handle: 41, data: b"abc" }));
    assert_eq!(update_write(&mut update, &mut device, b"firm"), Ok(4));
    assert_eq!(update_write(&mut update, &mut device, b"w"), Ok(1));
    assert_eq!(update_write(&mut update, &mut device, &[7u8; 4096]), Ok(4096));
    assert_eq!(update_write(&mut update, &mut device, b""), Ok(0));
    assert_eq!(device.written.len(), 4101);
    assert_eq!(&device.written[..5], b"firmw");
    assert!(update.is_open());
    assert_eq!(update.flush(), Ok(()));
    assert!(update.is_open());
}

#[test]
fn write_that_the_subsystem_refuses_is_an_error() {
    let mut ota = update_manager();
    let mut device = UpdateDevice::new();
    let mut update = update_open(&mut ota, &mut device);
    device.write_status = 0x1503;
    assert_eq!(
        update_write(&mut update, &mut device, b"firm"),
        Err(OtaError::NativeFailure(0x1503))
    );
    assert!(update.is_open());
    assert_eq!(EspOtaUpdate::written(b"firm", ESP_FAIL), Err(OtaError::NativeFailure(ESP_FAIL)));
    assert_eq!(EspOtaUpdate::written(b"firm", ESP_OK), Ok(4));
}

#[test]
fn completed_session_refuses_everything() {
    let mut ota = update_manager();
    let mut device = UpdateDevice::new();
    let mut update = update_open(&mut ota, &mut device);
    assert_eq!(update_complete(&mut update, &mut device), Ok(()));
    assert!(!update.is_open());
    assert_eq!(update.state(), Session::Completed);
    assert_eq!(update.check_write(), Err(OtaError::NotOpen));
    assert_eq!(update.write(b"late"), Err(OtaError::NotOpen));
    assert_eq!(update.flush(), Err(OtaError::NotOpen));
    assert_eq!(update.complete(), Err(OtaError::NotOpen));
    assert_eq!(update.abort(), Err(OtaError::NotOpen));
    assert_eq!(update.state(), Session::Completed);
}

#[test]
fn aborted_session_refuses_everything() {
    let mut ota = update_manager();
    let mut device = UpdateDevice::new();
    let mut update = update_open(&mut ota, &mut device);
    assert_eq!(update_abort(&mut update, &mut device), Ok(()));
    assert!(!update.is_open());
    assert_eq!(update.state(), Session::Aborted);
    assert_eq!(update.check_write(), Err(OtaError::NotOpen));
    assert_eq!(update.write(b"late"), Err(OtaError::NotOpen));
    assert_eq!(update.flush(), Err(OtaError::NotOpen));
    assert_eq!(update.complete(), Err(OtaError::NotOpen));
    assert_eq!(update.abort(), Err(OtaError::NotOpen));
    assert_eq!(update.state(), Session::Aborted);
}

#[test]
fn complete_makes_the_target_the_boot_partition() {
    let mut ota = update_manager();
    let mut device = UpdateDevice::new();
    let before = ota.get_boot_slot(&device.boot_report()).expect("a slot");
    assert_eq!(before.label, b"ota_0".to_vec());
    let mut update = update_open(&mut ota, &mut device);
    assert_eq!(update_write(&mut update, &mut device, b"image"), Ok(5));
    assert_eq!(update_complete(&mut update, &mut device), Ok(()));
    let target = update_partition(b"ota_1", 0x11_0000);
    assert_eq!(device.boot, target);
    assert_eq!(
        device.calls[1..],
        [Seen::Write(41, 5), Seen::End(41), Seen::SetBootPartition(target)]
    );
    let after = ota.get_boot_slot(&device.boot_report()).expect("a slot");
    assert_eq!(after.label, b"ota_1".to_vec());
    assert_eq!(after.state, SlotState::Unverified);
}

#[test]
fn abort_leaves_the_boot_partition_alone() {
    let mut ota = update_manager();
    let mut device = UpdateDevice::new();
    let mut update = update_open(&mut ota, &mut device);
    assert_eq!(update_write(&mut update, &mut device, b"image"), Ok(5));
    assert_eq!(update.abort(), Ok(NativeCall::Abort { handle: 41 }));
    let (status, _) = device.perform(NativeCall::Abort { handle: 41 });
    assert_eq!(OtaError::check(status), Ok(()));
    assert_eq!(device.boot, update_partition(b"ota_0", 0x1_0000));
    assert_eq!(device.handle, None);
    let slot = ota.get_boot_slot(&device.boot_report()).expect("a slot");
    assert_eq!(slot.label, b"ota_0".to_vec());
}

#[test]
fn failure_to_finish_closes_the_session_and_sets_no_boot_partition() {
    let mut ota = update_manager();
    let mut device = UpdateDevice::new();
    device.end_status = 0x1503;
    let mut update = update_open(&mut ota, &mut device);
    assert_eq!(update_complete(&mut update, &mut device), Err(OtaError::NativeFailure(0x1503)));
    assert!(!update.is_open());
    assert_eq!(update.write(b"more"), Err(OtaError::NotOpen));
    assert_eq!(device.boot, update_partition(b"ota_0", 0x1_0000));
    assert_eq!(device.calls.last(), Some(&Seen::End(41)));
}

#[test]
fn failure_to_set_the_boot_partition_closes_the_session_and_is_handed_on() {
    let mut ota = update_manager();
    let mut device = UpdateDevice::new();
    device.set_boot_status = ESP_FAIL;
    let mut update = update_open(&mut ota, &mut device);
    assert_eq!(update_complete(&mut update, &mut device), Err(OtaError::NativeFailure(ESP_FAIL)));
    assert!(!update.is_open());
    assert_eq!(update.complete(), Err(OtaError::NotOpen));
    assert_eq!(device.boot, update_partition(b"ota_0", 0x1_0000));
}

#[test]
fn abort_that_the_subsystem_refuses_closes_the_session_all_the_same() {
    let mut ota = update_manager();
    let mut device = UpdateDevice::new();
    let mut update = update_open(&mut ota, &mut device);
    device.handle = None;
    assert_eq!(
        update_abort(&mut update, &mut device),
        Err(OtaError::NativeFailure(ESP_ERR_NOT_FOUND))
    );
    assert!(!update.is_open());
    assert_eq!(update.abort(), Err(OtaError::NotOpen));
}

#[test]
fn completion_asks_to_finish_then_to_switch() {
    let target = update_partition(b"ota_1", 0x11_0000);
    let completion = Completion { partition: target, handle: 9 };
    assert_eq!(completion.call(), NativeCall::End { handle: 9 });
    assert_eq!(completion.ended(ESP_OK), Ok(NativeCall::SetBootPartition { partition: target }));
    assert_eq!(completion.ended(ESP_FAIL), Err(OtaError::NativeFailure(ESP_FAIL)));
    assert_eq!(completion.ended(0x1503), Err(OtaError::NativeFailure(0x1503)));
}

#[test]
fn second_session_opens_after_the_first_is_done() {
    let mut ota = update_manager();
    let mut device = UpdateDevice::new();
    {
        let mut first = update_open(&mut ota, &mut device);
        assert_eq!(update_abort(&mut first, &mut device), Ok(()));
    }
    let second = update_open(&mut ota, &mut device);
    assert!(second.is_open());
    assert_eq!(
        second.state(),
        Session::Open { partition: update_partition(b"ota_1", 0x11_0000), handle: 42 }
    );
}

fn update_is_send<T: Send>(value: T) -> T {
    value
}

#[test]
fn session_can_be_handed_to_another_thread() {
    let mut ota = update_manager();
    let mut device = UpdateDevice::new();
    let update = update_is_send(update_open(&mut ota, &mut device));
    assert!(update.is_open());
}
