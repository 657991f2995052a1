//! Partitions of the flash, what the storage subsystem reports of one, and
//! the calls that it is asked to perform.

use vstd::prelude::*;
use crate::cstr::{c_str, lemma_c_str_len};

verus! {

/// Length in bytes of the label field of a partition.
pub const LABEL_LEN: usize = 17;

/// A named, typed region of the flash, as the partition table describes it.
///
/// This crate reads the label and hands the rest through: a partition is
/// told from another by its fields.
#[derive(Clone, Copy, Debug, PartialEq, Eq)]
pub struct Partition {
    /// The partition's type: application or data, as the table encodes it.
    pub kind: u32,
    /// The partition's subtype: factory, an update slot, and so on.
    pub subtype: u32,
    /// Where the partition begins in the flash.
    pub offset: u32,
    /// The partition's length in bytes.
    pub size: u32,
    /// The label field.  The label is its text up to the first zero byte.
    pub label: [u8; LABEL_LEN],
}

/// Partition type: the partition holds an application.
pub const PARTITION_TYPE_APP: u32 = 0;

/// Partition subtype of an application partition: the factory image.
pub const PARTITION_SUBTYPE_APP_FACTORY: u32 = 0;

/// The label of the factory partition, as a label field.
pub const FACTORY_LABEL: [u8; LABEL_LEN] = [
    0x66, 0x61, 0x63, 0x74, 0x6F, 0x72, 0x79, 0, 0, 0, 0, 0, 0, 0, 0, 0, 0,
];

/// The label of the factory partition reads `factory`.
pub proof fn lemma_factory_label()
    ensures
        c_str(FACTORY_LABEL@) == seq![0x66u8, 0x61, 0x63, 0x74, 0x6F, 0x72, 0x79],
{
    lemma_c_str_len(FACTORY_LABEL@, 7);
    assert(FACTORY_LABEL@.take(7) =~= seq![0x66u8, 0x61, 0x63, 0x74, 0x6F, 0x72, 0x79]);
}

/// A search of the partition table: for the first partition of a type and
/// subtype that bears a label.
#[derive(Clone, Copy, Debug, PartialEq, Eq)]
pub struct PartitionQuery {
    /// The type that the partition is to have.
    pub kind: u32,
    /// The subtype that the partition is to have.
    pub subtype: u32,
    /// The label that the partition is to bear, as a label field.
    pub label: [u8; LABEL_LEN],
}

/// What the storage subsystem reports of one partition.
#[derive(Clone, Debug, PartialEq, Eq)]
pub struct PartitionReport {
    /// The partition that was asked about.
    pub partition: Partition,
    /// The status code of the query for the partition's image state.
    pub state_status: i32,
    /// The image state, where that query succeeded.
    pub state: u32,
    /// The status code of the query for the partition's application
    /// descriptor.
    pub description_status: i32,
    /// The application descriptor, where that query succeeded.
    pub description: Vec<u8>,
}

/// A call that the storage subsystem is to perform, with what is handed to
/// it.  This crate decides on the call; its caller performs it and reports
/// the status code.
#[derive(Clone, Copy, Debug, PartialEq, Eq)]
pub enum NativeCall<'a> {
    /// Open a write handle on `target` for an image of unknown size.  Without
    /// a target the subsystem is left to refuse the call.
    Begin { target: Option<Partition> },
    /// Append the bytes of `data` to what was written through `handle`.
    Write { handle: u32, data: &'a [u8] },
    /// Finish writing through `handle` and validate the image.
    End { handle: u32 },
    /// Give up `handle` and what was written through it.
    Abort { handle: u32 },
    /// Make `partition` the one that the device boots from.
    SetBootPartition { partition: Partition },
}

impl<'a> NativeCall<'a> {
    /// The partition that the device boots from once this call has succeeded,
    /// where the call changes that.
    pub open spec fn boot_target(self) -> Option<Partition> {
        match self {
            NativeCall::SetBootPartition { partition } => Some(partition),
            _ => None,
        }
    }
}

} // verus!
