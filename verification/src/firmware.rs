//! The application descriptor that a firmware image carries, and what is
//! read out of it.
//!
//! The descriptor is a record of fixed layout, 256 bytes long.  It begins
//! with a magic word, a secure version and two reserved words, of four bytes
//! each.  Then come the version (32 bytes), the project name (32), the build
//! time (16), the build date (16), the version of the SDK (32) and the hash
//! of the image's contents (32); the rest is reserved.  The text fields hold
//! text as [`crate::cstr`] describes it, and here it is kept as the bytes that
//! it is made of.

use vstd::prelude::*;
use vstd::slice::{slice_subrange, slice_to_vec};
use crate::cstr::{c_str, field_of, lemma_c_str_of_field, read_c_str};
use crate::error::OtaError;

verus! {

/// Length in bytes of the application descriptor.
pub const APP_DESC_LEN: usize = 256;

/// Where the version field begins in the descriptor.
pub const VERSION_START: usize = 16;

/// Where the version field ends and the project name begins.
pub const PROJECT_NAME_START: usize = 48;

/// Where the project name ends and the build time begins.
pub const TIME_START: usize = 80;

/// Where the build time ends and the build date begins.
pub const DATE_START: usize = 96;

/// Where the build date ends.
pub const DATE_END: usize = 112;

/// Where the hash of the image's contents begins.
pub const SHA256_START: usize = 144;

/// Where the hash of the image's contents ends.
pub const SHA256_END: usize = 176;

/// The byte that stands between build date and build time in a release stamp.
pub const STAMP_SEPARATOR: u8 = 0x20;

/// What a firmware image says of itself.
#[derive(Clone, Debug, PartialEq, Eq)]
pub struct FirmwareInfo {
    /// The version of the firmware.
    pub version: Vec<u8>,
    /// When it was built: the build date, a space, the build time.
    pub released: Vec<u8>,
    /// The name of the project it was built from.
    pub description: Option<Vec<u8>>,
    /// The hash of its contents.
    pub signature: Option<Vec<u8>>,
    /// Under which name it can be downloaded; a descriptor holds none.
    pub download_id: Option<Vec<u8>>,
}

/// A [`FirmwareInfo`] as mathematical sequences of bytes.
pub ghost struct FirmwareInfoView {
    pub version: Seq<u8>,
    pub released: Seq<u8>,
    pub description: Option<Seq<u8>>,
    pub signature: Option<Seq<u8>>,
    pub download_id: Option<Seq<u8>>,
}

/// The bytes of an optional byte string.
pub open spec fn bytes_view(bytes: Option<Vec<u8>>) -> Option<Seq<u8>> {
    match bytes {
        Some(b) => Some(b@),
        None => None,
    }
}

impl View for FirmwareInfo {
    type V = FirmwareInfoView;

    open spec fn view(&self) -> FirmwareInfoView {
        FirmwareInfoView {
            version: self.version@,
            released: self.released@,
            description: bytes_view(self.description),
            signature: bytes_view(self.signature),
            download_id: bytes_view(self.download_id),
        }
    }
}

/// What the application descriptor `desc` says: the version, the project
/// name as description, date and time of the build joined by a space, and
/// the hash of the image's contents.
pub open spec fn parse_app_desc(desc: Seq<u8>) -> FirmwareInfoView
    recommends
        desc.len() >= APP_DESC_LEN,
{
    FirmwareInfoView {
        version: c_str(desc.subrange(VERSION_START as int, PROJECT_NAME_START as int)),
        released: c_str(desc.subrange(DATE_START as int, DATE_END as int)).push(STAMP_SEPARATOR)
            + c_str(desc.subrange(TIME_START as int, DATE_START as int)),
        description: Some(
            c_str(desc.subrange(PROJECT_NAME_START as int, TIME_START as int)),
        ),
        signature: Some(desc.subrange(SHA256_START as int, SHA256_END as int)),
        download_id: None,
    }
}

/// What was written into the fields of a descriptor is what is read out of
/// it: version, project name, build date and build time come back byte for
/// byte, and the hash is the 32 bytes at its place.
pub proof fn lemma_descriptor_fields(
    desc: Seq<u8>,
    version: Seq<u8>,
    project: Seq<u8>,
    time: Seq<u8>,
    date: Seq<u8>,
)
    requires
        desc.len() >= APP_DESC_LEN,
        version.len() <= 32 && project.len() <= 32 && time.len() <= 16 && date.len() <= 16,
        forall|j: int| 0 <= j < version.len() ==> version[j] != 0,
        forall|j: int| 0 <= j < project.len() ==> project[j] != 0,
        forall|j: int| 0 <= j < time.len() ==> time[j] != 0,
        forall|j: int| 0 <= j < date.len() ==> date[j] != 0,
        desc.subrange(VERSION_START as int, PROJECT_NAME_START as int) == field_of(version, 32),
        desc.subrange(PROJECT_NAME_START as int, TIME_START as int) == field_of(project, 32),
        desc.subrange(TIME_START as int, DATE_START as int) == field_of(time, 16),
        desc.subrange(DATE_START as int, DATE_END as int) == field_of(date, 16),
    ensures
        parse_app_desc(desc).version == version,
        parse_app_desc(desc).description == Some(project),
        parse_app_desc(desc).released == date.push(STAMP_SEPARATOR) + time,
        parse_app_desc(desc).signature == Some(
            desc.subrange(SHA256_START as int, SHA256_END as int),
        ),
        parse_app_desc(desc).signature->Some_0.len() == 32,
        parse_app_desc(desc).download_id is None,
{
    lemma_c_str_of_field(version, 32);
    lemma_c_str_of_field(project, 32);
    lemma_c_str_of_field(time, 16);
    lemma_c_str_of_field(date, 16);
}

impl FirmwareInfo {
    /// Reads an application descriptor.
    ///
    /// Fails with [`OtaError::InvalidSize`] where `desc` is shorter than a
    /// descriptor, and only there.  Bytes behind the descriptor are not
    /// looked at.
    pub fn from_app_desc(desc: &[u8]) -> (r: Result<FirmwareInfo, OtaError>)
        ensures
            desc@.len() < APP_DESC_LEN ==> r == Err::<FirmwareInfo, OtaError>(
                OtaError::InvalidSize,
            ),
            desc@.len() >= APP_DESC_LEN ==> r is Ok && r->Ok_0@ == parse_app_desc(desc@),
    {
        if desc.len() < APP_DESC_LEN {
            return Err(OtaError::InvalidSize);
        }
        let version = read_c_str(slice_subrange(desc, VERSION_START, PROJECT_NAME_START));
        let project = read_c_str(slice_subrange(desc, PROJECT_NAME_START, TIME_START));
        let time = read_c_str(slice_subrange(desc, TIME_START, DATE_START));
        let mut released = read_c_str(slice_subrange(desc, DATE_START, DATE_END));
        released.push(STAMP_SEPARATOR);
        released.extend_from_slice(time.as_slice());
        let signature = slice_to_vec(slice_subrange(desc, SHA256_START, SHA256_END));
        let info = FirmwareInfo {
            version,
            released,
            description: Some(project),
            signature: Some(signature),
            download_id: None,
        };
        proof {
            let expected = parse_app_desc(desc@);
            assert(info@.released =~= expected.released);
            assert(info@.description == expected.description);
            assert(info@.signature == expected.signature);
            assert(info@ == expected);
        }
        Ok(info)
    }
}

} // verus!
