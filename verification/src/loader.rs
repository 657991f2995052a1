//! Gathering the head of a firmware image until the application descriptor
//! can be read out of it.
//!
//! An image begins with an image header, the header of its first segment and
//! the application descriptor, each of a length that the platform fixes.  A
//! loader takes the image in chunks, keeps the bytes of these three parts and
//! lets the rest pass.

use vstd::prelude::*;
use vstd::slice::slice_subrange;
use crate::buffer::{
    buffer_as_slice, buffer_bytes, buffer_capacity, buffer_extend, buffer_new, BUFFER_CAPACITY,
};
use crate::error::OtaError;
use crate::firmware::{parse_app_desc, FirmwareInfo, APP_DESC_LEN};

verus! {

/// Length in bytes of the image header on the supported chips.
pub const IMAGE_HEADER_LEN: usize = 24;

/// Length in bytes of a segment header on the supported chips.
pub const SEGMENT_HEADER_LEN: usize = 8;

/// The lengths of the three parts at the head of a firmware image.
#[derive(Clone, Copy, Debug, PartialEq, Eq, Structural)]
pub struct ImageLayout {
    /// Length of the image header.
    pub header_len: usize,
    /// Length of the header of the first segment.
    pub segment_header_len: usize,
    /// Length of the application descriptor.
    pub descriptor_len: usize,
}

impl ImageLayout {
    /// Where the application descriptor begins in the image.
    pub open spec fn descriptor_start(&self) -> int {
        self.header_len + self.segment_header_len
    }

    /// The number of bytes up to the end of the application descriptor.
    pub open spec fn total_len(&self) -> int {
        self.header_len + self.segment_header_len + self.descriptor_len
    }

    /// A layout is valid where its descriptor has room for the fields of an
    /// application descriptor and the three parts fit in an image buffer.
    pub open spec fn valid(&self) -> bool {
        &&& self.descriptor_len >= APP_DESC_LEN
        &&& self.total_len() <= BUFFER_CAPACITY
    }

    /// The layout of the supported chips.
    pub fn platform() -> (layout: ImageLayout)
        ensures
            layout == (ImageLayout {
                header_len: IMAGE_HEADER_LEN,
                segment_header_len: SEGMENT_HEADER_LEN,
                descriptor_len: APP_DESC_LEN,
            }),
            layout.valid(),
    {
        ImageLayout {
            header_len: IMAGE_HEADER_LEN,
            segment_header_len: SEGMENT_HEADER_LEN,
            descriptor_len: APP_DESC_LEN,
        }
    }

    /// Tells whether the three parts fit in `capacity` bytes and the
    /// descriptor is long enough.
    fn fits(&self, capacity: usize) -> (ok: bool)
        ensures
            ok == (self.descriptor_len >= APP_DESC_LEN && self.total_len() <= capacity),
    {
        self.descriptor_len >= APP_DESC_LEN && self.descriptor_len <= capacity
            && self.header_len <= capacity - self.descriptor_len && self.segment_header_len
            <= capacity - self.descriptor_len - self.header_len
    }
}

/// What a loader says after it was given a chunk.
#[derive(Clone, Copy, Debug, PartialEq, Eq, Structural)]
pub enum LoadResult {
    /// The descriptor is not complete yet.
    LoadMore,
    /// All bytes up to the end of the descriptor have arrived.
    Loaded,
}

/// The bytes that a loader holds once it was given `chunk`: a loader that
/// holds `held` and wants `capacity` bytes takes from the front of the chunk
/// what it still misses, and nothing once it is full.
pub open spec fn fed(held: Seq<u8>, capacity: int, chunk: Seq<u8>) -> Seq<u8> {
    if held.len() >= capacity {
        held
    } else if chunk.len() <= capacity - held.len() {
        held + chunk
    } else {
        held + chunk.take(capacity - held.len())
    }
}

/// What a loader that holds `held` of the `capacity` bytes it wants says.
pub open spec fn load_result(held: Seq<u8>, capacity: int) -> LoadResult {
    if held.len() >= capacity {
        LoadResult::Loaded
    } else {
        LoadResult::LoadMore
    }
}

/// The bytes that a loader holds once it was given the chunks, one after the
/// other.
pub open spec fn fed_all(held: Seq<u8>, capacity: int, chunks: Seq<Seq<u8>>) -> Seq<u8>
    decreases chunks.len(),
{
    if chunks.len() == 0 {
        held
    } else {
        fed(fed_all(held, capacity, chunks.drop_last()), capacity, chunks.last())
    }
}

/// The chunks put together: the image as far as it was sent.
pub open spec fn joined(chunks: Seq<Seq<u8>>) -> Seq<u8>
    decreases chunks.len(),
{
    if chunks.len() == 0 {
        Seq::empty()
    } else {
        joined(chunks.drop_last()) + chunks.last()
    }
}

/// A full loader takes nothing more and says `Loaded`.
pub proof fn lemma_full_loader_takes_nothing(held: Seq<u8>, capacity: int, chunk: Seq<u8>)
    requires
        held.len() >= capacity,
    ensures
        fed(held, capacity, chunk) == held,
        load_result(fed(held, capacity, chunk), capacity) == LoadResult::Loaded,
{
}

/// A loader that began empty holds the front of the image that it was sent:
/// all of it while that is less than it wants, and then as much as it wants.
/// So it is full after the chunk with which the image reaches its capacity,
/// and not before.
pub proof fn lemma_fed_all(capacity: int, chunks: Seq<Seq<u8>>)
    requires
        0 <= capacity,
    ensures
        joined(chunks).len() <= capacity ==> fed_all(Seq::empty(), capacity, chunks) == joined(
            chunks,
        ),
        joined(chunks).len() >= capacity ==> fed_all(Seq::empty(), capacity, chunks) == joined(
            chunks,
        ).take(capacity),
        load_result(fed_all(Seq::empty(), capacity, chunks), capacity) == LoadResult::Loaded
            <==> joined(chunks).len() >= capacity,
    decreases chunks.len(),
{
    if chunks.len() > 0 {
        let before = chunks.drop_last();
        let chunk = chunks.last();
        let held = fed_all(Seq::empty(), capacity, before);
        lemma_fed_all(capacity, before);
        if joined(before).len() >= capacity {
            assert(joined(chunks).take(capacity) =~= joined(before).take(capacity));
        } else if chunk.len() <= capacity - held.len() {
            assert(joined(chunks).take(joined(chunks).len() as int) =~= joined(chunks));
        } else {
            assert(held + chunk.take(capacity - held.len()) =~= joined(chunks).take(capacity));
        }
    } else {
        assert(joined(chunks).take(0) =~= Seq::<u8>::empty());
    }
}

/// A loader that was sent at least as much of an image as it wants reads the
/// descriptor from where it stands in the image: behind the image header
/// and the segment header.
pub proof fn lemma_descriptor_of_image(layout: ImageLayout, chunks: Seq<Seq<u8>>)
    requires
        layout.valid(),
        joined(chunks).len() >= layout.total_len(),
    ensures
        fed_all(Seq::empty(), layout.total_len(), chunks).len() == layout.total_len(),
        fed_all(Seq::empty(), layout.total_len(), chunks).subrange(
            layout.descriptor_start(),
            layout.total_len(),
        ) == joined(chunks).subrange(layout.descriptor_start(), layout.total_len()),
{
    lemma_fed_all(layout.total_len(), chunks);
    assert(joined(chunks).take(layout.total_len()).subrange(
        layout.descriptor_start(),
        layout.total_len(),
    ) =~= joined(chunks).subrange(layout.descriptor_start(), layout.total_len()));
}

/// Gathers the head of a firmware image, chunk by chunk.
pub struct EspFirmwareInfoLoader {
    buf: heapless::Vec<u8, 1024>,
    layout: ImageLayout,
}

impl EspFirmwareInfoLoader {
    #[verifier::type_invariant]
    spec fn well_formed(self) -> bool {
        &&& self.layout.valid()
        &&& buffer_bytes(self.buf).len() <= self.layout.total_len()
    }

    /// The lengths of the parts that this loader expects.
    pub closed spec fn layout(&self) -> ImageLayout {
        self.layout
    }

    /// The bytes gathered so far.
    pub closed spec fn bytes(&self) -> Seq<u8> {
        buffer_bytes(self.buf)
    }

    /// The number of bytes that this loader wants: all up to the end of the
    /// application descriptor.
    pub open spec fn capacity(&self) -> int {
        self.layout().total_len()
    }

    /// Whether all bytes up to the end of the descriptor have arrived.
    pub open spec fn loaded(&self) -> bool {
        self.bytes().len() >= self.capacity()
    }

    /// An empty loader for images of the supported chips.
    pub fn new() -> (loader: Self)
        ensures
            loader.bytes() == Seq::<u8>::empty(),
            loader.layout() == (ImageLayout {
                header_len: IMAGE_HEADER_LEN,
                segment_header_len: SEGMENT_HEADER_LEN,
                descriptor_len: APP_DESC_LEN,
            }),
    {
        EspFirmwareInfoLoader { buf: buffer_new(), layout: ImageLayout::platform() }
    }

    /// An empty loader for images with the given layout.
    ///
    /// Fails with [`OtaError::InvalidSize`] where the layout is not valid,
    /// and only there.
    pub fn with_layout(layout: ImageLayout) -> (r: Result<Self, OtaError>)
        ensures
            !layout.valid() ==> r is Err && r->Err_0 == OtaError::InvalidSize,
            layout.valid() ==> r is Ok && r->Ok_0.layout() == layout && r->Ok_0.bytes()
                == Seq::<u8>::empty(),
    {
        let buf = buffer_new();
        if layout.fits(buffer_capacity(&buf)) {
            Ok(EspFirmwareInfoLoader { buf, layout })
        } else {
            Err(OtaError::InvalidSize)
        }
    }

    /// Takes the next chunk of the image.
    ///
    /// A loader that is not full yet appends, from the front of `chunk`, as
    /// many bytes as it still misses, and lets the rest pass.  A full loader
    /// takes nothing.  The answer is [`LoadResult::Loaded`] once the loader is
    /// full and [`LoadResult::LoadMore`] before.
    pub fn load(&mut self, chunk: &[u8]) -> (r: Result<LoadResult, OtaError>)
        ensures
            final(self).layout() == old(self).layout(),
            final(self).bytes() == fed(old(self).bytes(), old(self).capacity(), chunk@),
            r == Ok::<LoadResult, OtaError>(
                load_result(final(self).bytes(), old(self).capacity()),
            ),
    {
        proof {
            use_type_invariant(&*self);
        }
        let held: usize = buffer_as_slice(&self.buf).len();
        let capacity: usize = self.layout.header_len + self.layout.segment_header_len
            + self.layout.descriptor_len;
        if held < capacity {
            let missing: usize = capacity - held;
            let taken: usize = if chunk.len() <= missing {
                chunk.len()
            } else {
                missing
            };
            let front = slice_subrange(chunk, 0, taken);
            assert(chunk.len() <= missing ==> front@ == chunk@);
            let appended = buffer_extend(&mut self.buf, front);
            assert(appended is Ok);
        }
        Ok(
            if self.is_loaded() {
                LoadResult::Loaded
            } else {
                LoadResult::LoadMore
            },
        )
    }

    /// Whether all bytes up to the end of the descriptor have arrived.  A
    /// loader never holds more than these, and its layout is valid.
    pub fn is_loaded(&self) -> (loaded: bool)
        ensures
            loaded == self.loaded(),
            self.bytes().len() <= self.capacity(),
            self.layout().valid(),
    {
        proof {
            use_type_invariant(self);
        }
        let capacity: usize = self.layout.header_len + self.layout.segment_header_len
            + self.layout.descriptor_len;
        buffer_as_slice(&self.buf).len() >= capacity
    }

    /// Reads the application descriptor out of the gathered bytes.
    ///
    /// Fails with [`OtaError::InvalidSize`] while the loader is not full, and
    /// only then.  A full loader answers with what the descriptor says, which
    /// begins behind the image header and the segment header.
    pub fn get_info(&self) -> (r: Result<FirmwareInfo, OtaError>)
        ensures
            !self.loaded() ==> r == Err::<FirmwareInfo, OtaError>(OtaError::InvalidSize),
            self.loaded() ==> r is Ok && r->Ok_0@ == parse_app_desc(
                self.bytes().subrange(self.layout().descriptor_start(), self.capacity()),
            ),
    {
        proof {
            use_type_invariant(self);
        }
        if !self.is_loaded() {
            return Err(OtaError::InvalidSize);
        }
        let bytes = buffer_as_slice(&self.buf);
        let start: usize = self.layout.header_len + self.layout.segment_header_len;
        let end: usize = start + self.layout.descriptor_len;
        FirmwareInfo::from_app_desc(slice_subrange(bytes, start, end))
    }
}

impl Default for EspFirmwareInfoLoader {
    /// An empty loader for images of the supported chips.
    fn default() -> (loader: Self)
        ensures
            loader.bytes() == Seq::<u8>::empty(),
            loader.layout() == (ImageLayout {
                header_len: IMAGE_HEADER_LEN,
                segment_header_len: SEGMENT_HEADER_LEN,
                descriptor_len: APP_DESC_LEN,
            }),
    {
        Self::new()
    }
}

} // verus!
