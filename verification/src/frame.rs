//! Frame types: stream information, multi-planar frame data and buffer
//! pooling.

use crate::color::Formaton;
use crate::core_types::{FrameRate, Resolution, TimeInfo};
use vstd::prelude::*;

verus! {

/// Frame type classification.
#[derive(Debug, Clone, Copy, PartialEq, Eq, Structural, Hash)]
pub enum PictureType {
    /// Intra frame (keyframe), decodable on its own.
    Intra,
    /// Inter frame, needing previous frames.
    Inter,
    /// Bidirectional frame, needing past and future frames.
    Bidirectional,
    /// Skip frame: reuse the previous frame.
    Skip,
    /// Unknown frame type.
    Unknown,
}

impl Default for PictureType {
    /// The default picture type is unknown.
    fn default() -> (r: Self)
        ensures
            r is Unknown,
    {
        PictureType::Unknown
    }
}

/// Plane descriptor for multi-planar frame formats.
#[derive(Debug, Clone, Copy, PartialEq, Eq, Structural)]
pub enum PlaneDescriptor {
    /// Video plane with a stride and height.
    Video {
        /// Bytes per row.
        stride: usize,
        /// Number of rows.
        height: u32,
    },
    /// Audio plane with a sample count.
    Audio {
        /// Number of samples.
        samples: usize,
    },
}

impl PlaneDescriptor {
    /// Creates a video plane descriptor.
    pub fn video(stride: usize, height: u32) -> (r: Self)
        ensures
            r == (PlaneDescriptor::Video { stride, height }),
    {
        PlaneDescriptor::Video { stride, height }
    }

    /// Creates an audio plane descriptor.
    pub fn audio(samples: usize) -> (r: Self)
        ensures
            r == (PlaneDescriptor::Audio { samples }),
    {
        PlaneDescriptor::Audio { samples }
    }

    /// The byte size of the plane: rows times stride for video, four
    /// bytes per sample for audio.
    pub open spec fn spec_byte_size(self) -> int {
        match self {
            PlaneDescriptor::Video { stride, height } => stride * height,
            PlaneDescriptor::Audio { samples } => samples * 4,
        }
    }

    /// Returns the byte size of this plane.
    pub fn byte_size(&self) -> (r: usize)
        requires
            self.spec_byte_size() <= usize::MAX,
        ensures
            r == self.spec_byte_size(),
    {
        match self {
            PlaneDescriptor::Video { stride, height } => {
                proof {
                    assert(*stride * *height <= usize::MAX);
                }
                *stride * (*height as usize)
            },
            PlaneDescriptor::Audio { samples } => *samples * 4,
        }
    }
}

/// Frame buffer error values.
#[derive(Debug, Clone, Copy, PartialEq, Eq, Structural, Hash)]
pub enum FrameError {
    /// Invalid plane index.
    InvalidPlaneIndex,
    /// Invalid buffer size.
    InvalidBufferSize,
    /// Format mismatch.
    FormatMismatch,
    /// Buffer allocation failed.
    AllocationFailed,
    /// Buffer is locked.
    BufferLocked,
}

impl FrameError {
    /// Returns a description of the error.
    pub fn message(&self) -> (r: &'static str)
        ensures
            self is InvalidPlaneIndex ==> r@ == "Invalid plane index"@,
            self is InvalidBufferSize ==> r@ == "Invalid buffer size"@,
            self is FormatMismatch ==> r@ == "Format mismatch"@,
            self is AllocationFailed ==> r@ == "Buffer allocation failed"@,
            self is BufferLocked ==> r@ == "Buffer is locked"@,
    {
        match self {
            FrameError::InvalidPlaneIndex => "Invalid plane index",
            FrameError::InvalidBufferSize => "Invalid buffer size",
            FrameError::FormatMismatch => "Format mismatch",
            FrameError::AllocationFailed => "Buffer allocation failed",
            FrameError::BufferLocked => "Buffer is locked",
        }
    }
}

/// Video stream information.
#[derive(Debug, Clone)]
pub struct VideoInfo {
    /// Frame width in pixels.
    pub width: usize,
    /// Frame height in pixels.
    pub height: usize,
    /// Whether the frame is stored upside down.
    pub flipped: bool,
    /// Frame type.
    pub frame_type: PictureType,
    /// Pixel format descriptor.
    pub format: Formaton,
    /// Bits per sample.
    pub bit_depth: u8,
    /// Frame rate.
    pub frame_rate: FrameRate,
}

impl VideoInfo {
    /// Creates stream information with the bit depth taken from the
    /// format's total depth.
    pub fn new(width: usize, height: usize, format: Formaton, frame_type: PictureType) -> (r: Self)
        ensures
            r.width == width,
            r.height == height,
            !r.flipped,
            r.frame_type == frame_type,
            r.format == format,
            r.frame_rate == (FrameRate { numerator: 30u32, denominator: 1u32 }),
    {
        let bit_depth = format.total_depth();
        VideoInfo {
            width,
            height,
            flipped: false,
            frame_type,
            format,
            bit_depth,
            frame_rate: FrameRate::default(),
        }
    }

    /// Returns the resolution, saturating each dimension at the 32-bit
    /// range.
    pub fn resolution(&self) -> (r: Resolution)
        ensures
            self.width <= u32::MAX && self.height <= u32::MAX ==> r.width == self.width && r.height
                == self.height,
    {
        let w: u32 = if self.width <= u32::MAX as usize {
            self.width as u32
        } else {
            u32::MAX
        };
        let h: u32 = if self.height <= u32::MAX as usize {
            self.height as u32
        } else {
            u32::MAX
        };
        Resolution::new(w, h)
    }

    /// Returns the total number of pixels.
    pub fn pixel_count(&self) -> (r: usize)
        requires
            self.width * self.height <= usize::MAX,
        ensures
            r == self.width * self.height,
    {
        self.width * self.height
    }

    /// Returns the byte size of a frame at this geometry and depth: the
    /// total bits, rounded up to whole bytes.
    pub fn buffer_size(&self) -> (r: usize)
        requires
            self.width * self.height <= usize::MAX,
            spec_total_depth_of(self.format) <= u8::MAX,
            self.width * self.height * spec_total_depth_of(self.format) + 7 <= usize::MAX,
        ensures
            r == (self.width * self.height * spec_total_depth_of(self.format) + 7) / 8,
    {
        let bits: usize = self.format.total_depth() as usize;
        let pixels: usize = self.width * self.height;
        proof {
            assert(pixels * bits == self.width * self.height * spec_total_depth_of(
                self.format,
            )) by (nonlinear_arith)
                requires
                    pixels == self.width * self.height,
                    bits == spec_total_depth_of(self.format),
            ;
        }
        (pixels * bits + 7) / 8
    }
}

/// The total bit depth of a pixel format, read off its components.
pub open spec fn spec_total_depth_of(f: Formaton) -> int {
    crate::color::spec_total_depth(f.components@)
}

/// Audio stream information.
#[derive(Debug, Clone, Copy, PartialEq, Eq, Structural)]
pub struct AudioInfo {
    /// Number of samples per channel.
    pub samples: usize,
    /// Sample rate in Hz.
    pub sample_rate: u32,
    /// Number of channels.
    pub channels: u8,
    /// Bits per sample.
    pub bit_depth: u8,
    /// Whether channels sit in separate planes.
    pub planar: bool,
}

impl AudioInfo {
    /// Creates interleaved audio stream information.
    pub fn new(samples: usize, sample_rate: u32, channels: u8, bit_depth: u8) -> (r: Self)
        ensures
            r == (AudioInfo { samples, sample_rate, channels, bit_depth, planar: false }),
    {
        AudioInfo { samples, sample_rate, channels, bit_depth, planar: false }
    }

    /// Returns the byte size of a buffer for this stream: samples times
    /// channels times whole bytes per sample.
    pub fn buffer_size(&self) -> (r: usize)
        requires
            self.samples * self.channels <= usize::MAX,
            self.samples * self.channels * ((self.bit_depth + 7) / 8) <= usize::MAX,
        ensures
            r == self.samples * self.channels * ((self.bit_depth + 7) / 8),
    {
        let bytes_per_sample: usize = ((self.bit_depth as usize) + 7) / 8;
        let frames: usize = self.samples * (self.channels as usize);
        proof {
            assert(frames * bytes_per_sample == self.samples * self.channels * ((self.bit_depth
                + 7) / 8)) by (nonlinear_arith)
                requires
                    frames == self.samples * self.channels,
                    bytes_per_sample == (self.bit_depth + 7) / 8,
            ;
        }
        frames * bytes_per_sample
    }
}

/// Frame data container with multi-plane support: one backing byte
/// buffer, plus per-plane descriptors and offsets into it.
#[derive(Debug, Clone)]
pub struct FrameData {
    /// Raw data storage.
    pub data: Vec<u8>,
    /// Plane descriptors.
    pub planes: Vec<PlaneDescriptor>,
    /// Plane offsets within the data.
    pub offsets: Vec<usize>,
}

impl FrameData {
    /// Creates empty frame data.
    pub fn new() -> (r: Self)
        ensures
            r.data@.len() == 0,
            r.planes@.len() == 0,
            r.offsets@.len() == 0,
    {
        FrameData { data: Vec::new(), planes: Vec::new(), offsets: Vec::new() }
    }

    /// Returns the number of planes.
    pub fn plane_count(&self) -> (r: usize)
        ensures
            r == self.planes@.len(),
    {
        self.planes.len()
    }

    /// Returns the stride of a video plane, or `None` for an audio plane
    /// or an out-of-range index.
    pub fn plane_stride(&self, index: usize) -> (r: Option<usize>)
        ensures
            (index < self.planes@.len() && self.planes@[index as int] is Video) ==> r == Some(
                self.planes@[index as int]->Video_stride,
            ),
            index >= self.planes@.len() ==> r is None,
            (index < self.planes@.len() && self.planes@[index as int] is Audio) ==> r is None,
    {
        if index >= self.planes.len() {
            return None;
        }
        match self.planes[index] {
            PlaneDescriptor::Video { stride, .. } => Some(stride),
            PlaneDescriptor::Audio { .. } => None,
        }
    }
}

impl Default for FrameData {
    /// The default frame data is empty.
    fn default() -> (r: Self)
        ensures
            r.data@.len() == 0,
            r.planes@.len() == 0,
    {
        FrameData::new()
    }
}

/// A video frame: stream information, data and timing.
#[derive(Debug, Clone)]
pub struct VideoFrame {
    /// Video stream information.
    pub info: VideoInfo,
    /// Frame data.
    pub data: FrameData,
    /// Timestamp information.
    pub time_info: TimeInfo,
    /// Frame sequence number.
    pub sequence: u64,
}

impl VideoFrame {
    /// Creates a video frame from existing data.
    pub fn from_data(info: VideoInfo, data: FrameData, time_info: TimeInfo) -> (r: Self)
        ensures
            r.info == info,
            r.data == data,
            r.time_info == time_info,
            r.sequence == 0,
    {
        VideoFrame { info, data, time_info, sequence: 0 }
    }

    /// Returns the frame type.
    pub fn frame_type(&self) -> (r: PictureType)
        ensures
            r == self.info.frame_type,
    {
        self.info.frame_type
    }

    /// Checks whether this is a keyframe.
    pub fn is_keyframe(&self) -> (r: bool)
        ensures
            r == (self.info.frame_type is Intra),
    {
        matches!(self.info.frame_type, PictureType::Intra)
    }
}

/// Reference-counted frame buffer for reuse across the pipeline. The
/// count starts at one and is adjusted explicitly.
#[derive(Debug)]
pub struct FrameBuffer {
    data: Vec<u8>,
    size: usize,
    refcount: u32,
}

impl FrameBuffer {
    /// The buffer's byte size.
    pub closed spec fn spec_size(self) -> usize {
        self.size
    }

    /// The current reference count.
    pub closed spec fn spec_refcount(self) -> u32 {
        self.refcount
    }

    /// The buffer's contents.
    pub closed spec fn spec_data(self) -> Seq<u8> {
        self.data@
    }

    /// Creates a zero-filled buffer of the given size with one reference.
    pub fn new(size: usize) -> (r: Self)
        ensures
            r.spec_size() == size,
            r.spec_refcount() == 1,
            r.spec_data().len() == size,
            forall|i: int| 0 <= i < size ==> r.spec_data()[i] == 0,
    {
        let mut data: Vec<u8> = Vec::new();
        let mut i: usize = 0;
        while i < size
            invariant
                0 <= i <= size,
                data@.len() == i,
                forall|k: int| 0 <= k < i ==> data@[k] == 0,
            decreases size - i,
        {
            data.push(0);
            i = i + 1;
        }
        FrameBuffer { data, size, refcount: 1 }
    }

    /// Returns the buffer size.
    pub fn size(&self) -> (r: usize)
        ensures
            r == self.spec_size(),
    {
        self.size
    }

    /// Takes one more reference, saturating at the counter's range.
    pub fn retain(&mut self)
        ensures
            old(self).spec_refcount() < u32::MAX ==> final(self).spec_refcount() == old(self).spec_refcount() + 1,
            final(self).spec_size() == old(self).spec_size(),
            final(self).spec_data() == old(self).spec_data(),
    {
        self.refcount = self.refcount.saturating_add(1);
    }

    /// Drops one reference; returns whether the last reference was
    /// released.
    pub fn release(&mut self) -> (r: bool)
        ensures
            r == (old(self).spec_refcount() == 1),
            final(self).spec_refcount() == if old(self).spec_refcount() >= 1 {
                (old(self).spec_refcount() - 1) as u32
            } else {
                0u32
            },
            final(self).spec_size() == old(self).spec_size(),
            final(self).spec_data() == old(self).spec_data(),
    {
        let was_one = self.refcount == 1;
        self.refcount = if self.refcount >= 1 {
            self.refcount - 1
        } else {
            0
        };
        was_one
    }
}

/// Pool of frame buffers of one size, bounded in length.
pub struct FrameBufferPool {
    buffers: Vec<FrameBuffer>,
    buffer_size: usize,
    max_size: usize,
}

impl FrameBufferPool {
    /// The pooled buffers.
    pub closed spec fn spec_buffers(self) -> Seq<FrameBuffer> {
        self.buffers@
    }

    /// The byte size buffers in this pool have.
    pub closed spec fn spec_buffer_size(self) -> usize {
        self.buffer_size
    }

    /// The maximum number of pooled buffers.
    pub closed spec fn spec_max_size(self) -> usize {
        self.max_size
    }

    /// Creates an empty pool for buffers of the given size.
    pub fn new(buffer_size: usize, max_size: usize) -> (r: Self)
        ensures
            r.spec_buffers().len() == 0,
            r.spec_buffer_size() == buffer_size,
            r.spec_max_size() == max_size,
    {
        FrameBufferPool { buffers: Vec::new(), buffer_size, max_size }
    }

    /// Takes a pooled buffer, or allocates a fresh zero-filled one when
    /// the pool is empty.
    pub fn acquire(&mut self) -> (r: FrameBuffer)
        ensures
            old(self).spec_buffers().len() > 0 ==> final(self).spec_buffers() == old(self).spec_buffers().drop_last() && r == old(self).spec_buffers().last(),
            old(self).spec_buffers().len() == 0 ==> final(self).spec_buffers() == old(self).spec_buffers() && r.spec_size() == old(self).spec_buffer_size()
                && r.spec_refcount() == 1,
            final(self).spec_buffer_size() == old(self).spec_buffer_size(),
            final(self).spec_max_size() == old(self).spec_max_size(),
    {
        if self.buffers.len() > 0 {
            match self.buffers.pop() {
                Some(b) => b,
                None => FrameBuffer::new(self.buffer_size),
            }
        } else {
            FrameBuffer::new(self.buffer_size)
        }
    }

    /// Returns a buffer to the pool; a full pool drops it instead.
    pub fn release(&mut self, buffer: FrameBuffer)
        ensures
            old(self).spec_buffers().len() < old(self).spec_max_size() ==> final(self).spec_buffers() == old(self).spec_buffers().push(buffer),
            old(self).spec_buffers().len() >= old(self).spec_max_size() ==> final(self).spec_buffers() == old(self).spec_buffers(),
            final(self).spec_buffer_size() == old(self).spec_buffer_size(),
            final(self).spec_max_size() == old(self).spec_max_size(),
    {
        if self.buffers.len() < self.max_size {
            self.buffers.push(buffer);
        }
    }

    /// Clears all pooled buffers.
    pub fn clear(&mut self)
        ensures
            final(self).spec_buffers().len() == 0,
            final(self).spec_buffer_size() == old(self).spec_buffer_size(),
            final(self).spec_max_size() == old(self).spec_max_size(),
    {
        self.buffers.clear();
    }

    /// Returns the current number of pooled buffers.
    pub fn pooled_count(&self) -> (r: usize)
        ensures
            r == self.spec_buffers().len(),
    {
        self.buffers.len()
    }
}

} // verus!
