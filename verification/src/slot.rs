//! A slot: a partition seen as a place for firmware, with the state of the
//! image in it and what that image says of itself.

use vstd::prelude::*;
use crate::error::{OtaError, ESP_ERR_NOT_FOUND, ESP_ERR_NOT_SUPPORTED, ESP_OK};
use crate::cstr::c_str;
use crate::firmware::{parse_app_desc, FirmwareInfo, FirmwareInfoView, APP_DESC_LEN};
use crate::partition::PartitionReport;

verus! {

/// Image state: written, never booted.
pub const OTA_IMG_NEW: u32 = 0;

/// Image state: booted once, waiting to be confirmed.
pub const OTA_IMG_PENDING_VERIFY: u32 = 1;

/// Image state: confirmed.
pub const OTA_IMG_VALID: u32 = 2;

/// Image state: declared invalid.
pub const OTA_IMG_INVALID: u32 = 3;

/// Image state: not confirmed before the device restarted.
pub const OTA_IMG_ABORTED: u32 = 4;

/// Image state: none recorded.
pub const OTA_IMG_UNDEFINED: u32 = 0xFFFF_FFFF;

/// How far the image in a slot can be trusted.
#[derive(Clone, Copy, Debug, PartialEq, Eq, Structural)]
pub enum SlotState {
    /// Nothing is known of the image.
    Unknown,
    /// The slot is the factory partition.
    Factory,
    /// The image was written and has not been confirmed yet.
    Unverified,
    /// The image has booted and was confirmed.
    Valid,
    /// The image failed to be confirmed, or was declared invalid.
    Invalid,
}

/// A partition as a place for firmware.
#[derive(Clone, Debug, PartialEq, Eq)]
pub struct Slot {
    /// The partition's label.
    pub label: Vec<u8>,
    /// The state of the image in it.
    pub state: SlotState,
    /// What the image says of itself, where the partition holds one.
    pub firmware: Option<FirmwareInfo>,
}

/// A [`Slot`] as mathematical values.
pub ghost struct SlotView {
    pub label: Seq<u8>,
    pub state: SlotState,
    pub firmware: Option<FirmwareInfoView>,
}

impl View for Slot {
    type V = SlotView;

    open spec fn view(&self) -> SlotView {
        SlotView {
            label: self.label@,
            state: self.state,
            firmware: match self.firmware {
                Some(info) => Some(info@),
                None => None,
            },
        }
    }
}

/// The state of a slot, from the answer to the query for its image state.
///
/// A partition of which no state is recorded is `Unknown`, one for which the
/// query is not supported is the factory partition, and any other failure
/// of the query is an error.  Of the recorded states, new and
/// pending-verify are `Unverified`, valid is `Valid`, invalid and aborted
/// are `Invalid`, and every other value is `Unknown`.
pub open spec fn slot_state(status: i32, state: u32) -> Result<SlotState, OtaError> {
    if status == ESP_ERR_NOT_FOUND {
        Ok(SlotState::Unknown)
    } else if status == ESP_ERR_NOT_SUPPORTED {
        Ok(SlotState::Factory)
    } else if status != ESP_OK {
        Err(OtaError::NativeFailure(status))
    } else if state == OTA_IMG_NEW || state == OTA_IMG_PENDING_VERIFY {
        Ok(SlotState::Unverified)
    } else if state == OTA_IMG_VALID {
        Ok(SlotState::Valid)
    } else if state == OTA_IMG_INVALID || state == OTA_IMG_ABORTED {
        Ok(SlotState::Invalid)
    } else {
        Ok(SlotState::Unknown)
    }
}

/// What the image in a partition says of itself, from the answer to the
/// query for its application descriptor.
///
/// A partition without a descriptor has no firmware information, which is
/// no error.  Any other failure of the query is an error, and so is a
/// descriptor that is too short.
pub open spec fn firmware_info(status: i32, description: Seq<u8>) -> Result<
    Option<FirmwareInfoView>,
    OtaError,
> {
    if status == ESP_ERR_NOT_FOUND {
        Ok(None)
    } else if status != ESP_OK {
        Err(OtaError::NativeFailure(status))
    } else if description.len() < APP_DESC_LEN {
        Err(OtaError::InvalidSize)
    } else {
        Ok(Some(parse_app_desc(description)))
    }
}

/// The slot that a report describes: the partition's label, the state of
/// its image and the image's own information.  A failure to tell the state
/// comes before one to tell the information.
pub open spec fn slot_of(report: PartitionReport) -> Result<SlotView, OtaError> {
    match slot_state(report.state_status, report.state) {
        Err(e) => Err(e),
        Ok(state) => match firmware_info(report.description_status, report.description@) {
            Err(e) => Err(e),
            Ok(firmware) => Ok(
                SlotView { label: c_str(report.partition.label@), state, firmware },
            ),
        },
    }
}

/// The view of a result that holds a slot.
pub open spec fn slot_result_view(r: Result<Slot, OtaError>) -> Result<SlotView, OtaError> {
    match r {
        Ok(slot) => Ok(slot@),
        Err(e) => Err(e),
    }
}

/// The view of a result that may hold firmware information.
pub open spec fn firmware_result_view(r: Result<Option<FirmwareInfo>, OtaError>) -> Result<
    Option<FirmwareInfoView>,
    OtaError,
> {
    match r {
        Ok(Some(info)) => Ok(Some(info@)),
        Ok(None) => Ok(None),
        Err(e) => Err(e),
    }
}

} // verus!
