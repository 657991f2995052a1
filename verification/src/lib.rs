//! Over-the-air firmware update for a device whose flash is managed by a
//! native storage subsystem.
//!
//! The crate holds the decisions of an update and none of its input or
//! output: every function works on plain values.  What the storage subsystem
//! reported is handed in as an argument, and where this crate chooses what is
//! handed to the subsystem, it hands out a [`NativeCall`].  The caller
//! performs the call and comes back with its status code.
//!
//! * [`EspFirmwareInfoLoader`] gathers the head of a firmware image and reads
//!   the application descriptor out of it.
//! * [`EspOta`] is the manager: a token of which at most one is held at a
//!   time, guarded by an [`OtaLatch`].
//! * [`EspOtaUpdate`] is the write transaction that the manager opens.

pub mod buffer;
pub mod cstr;
pub mod error;
pub mod firmware;
pub mod loader;
pub mod ota;
pub mod partition;
pub mod slot;
pub mod update;

pub use error::OtaError;
pub use firmware::FirmwareInfo;
pub use loader::{EspFirmwareInfoLoader, ImageLayout, LoadResult};
pub use ota::{EspOta, OtaLatch, PendingUpdate};
pub use partition::{NativeCall, Partition, PartitionQuery, PartitionReport};
pub use slot::{Slot, SlotState};
pub use update::{Completion, EspOtaUpdate, Session};
