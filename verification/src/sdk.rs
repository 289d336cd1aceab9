//! The runtime's records and tags, as plain values.
//!
//! Addresses of runtime memory are carried as `usize`, with 0 for the null
//! pointer; the single-precision aspect ratio is carried as its bit pattern.

use vstd::prelude::*;

verus! {

/// Frame type tag: nothing was captured before the timeout ran out.
pub const FRAME_TYPE_NONE: u32 = 0;

/// Frame type tag: a video frame was captured.
pub const FRAME_TYPE_VIDEO: u32 = 1;

/// Frame type tag: an audio frame was captured.
pub const FRAME_TYPE_AUDIO: u32 = 2;

/// Frame type tag: a metadata frame was captured.
pub const FRAME_TYPE_METADATA: u32 = 3;

/// Frame type tag: the connection was lost.
pub const FRAME_TYPE_ERROR: u32 = 4;

/// Frame type tag: the settings of the source changed.
pub const FRAME_TYPE_STATUS_CHANGE: u32 = 100;

/// Pixel format code `UYVY`.
pub const FOURCC_UYVY: u32 = 0x5956_5955;

/// Pixel format code `UYVA`.
pub const FOURCC_UYVA: u32 = 0x4156_5955;

/// Pixel format code `YV12`.
pub const FOURCC_YV12: u32 = 0x3231_5659;

/// Pixel format code `I420`.
pub const FOURCC_I420: u32 = 0x3032_3449;

/// Pixel format code `NV12`.
pub const FOURCC_NV12: u32 = 0x3231_564e;

/// Pixel format code `BGRA`.
pub const FOURCC_BGRA: u32 = 0x4152_4742;

/// Pixel format code `BGRX`.
pub const FOURCC_BGRX: u32 = 0x5852_4742;

/// Pixel format code `RGBA`.
pub const FOURCC_RGBA: u32 = 0x4142_4752;

/// Pixel format code `RGBX`.
pub const FOURCC_RGBX: u32 = 0x5842_4752;

/// Field layout code: both fields interleaved in one frame.
pub const FRAME_FORMAT_INTERLEAVED: u32 = 0;

/// Field layout code: a progressive frame.
pub const FRAME_FORMAT_PROGRESSIVE: u32 = 1;

/// Field layout code: the even lines of an interlaced frame.
pub const FRAME_FORMAT_FIELD_0: u32 = 2;

/// Field layout code: the odd lines of an interlaced frame.
pub const FRAME_FORMAT_FIELD_1: u32 = 3;

/// Receive bandwidth code: metadata only.
pub const RECV_BANDWIDTH_METADATA_ONLY: i32 = -10;

/// Receive bandwidth code: metadata and audio.
pub const RECV_BANDWIDTH_AUDIO_ONLY: i32 = 10;

/// Receive bandwidth code: everything, video at reduced resolution.
pub const RECV_BANDWIDTH_LOWEST: i32 = 0;

/// Receive bandwidth code: everything at full resolution.
pub const RECV_BANDWIDTH_HIGHEST: i32 = 100;

/// Receive color format code: BGRX without alpha, BGRA with alpha.
pub const RECV_COLOR_FORMAT_BGRX_BGRA: u32 = 0;

/// Receive color format code: UYVY without alpha, BGRA with alpha.
pub const RECV_COLOR_FORMAT_UYVY_BGRA: u32 = 1;

/// Receive color format code: RGBX without alpha, RGBA with alpha.
pub const RECV_COLOR_FORMAT_RGBX_RGBA: u32 = 2;

/// Receive color format code: UYVY without alpha, RGBA with alpha.
pub const RECV_COLOR_FORMAT_UYVY_RGBA: u32 = 3;

/// Receive color format code: whatever is cheapest to deliver.
pub const RECV_COLOR_FORMAT_FASTEST: u32 = 100;

/// Timecode that asks the runtime to stamp the frame itself.
pub const SEND_TIMECODE_SYNTHESIZE: i64 = 0x7fff_ffff_ffff_ffff;

/// Size in bytes of one audio sample.
pub const BYTES_PER_SAMPLE: i32 = 4;

/// The record that describes one video frame.
#[derive(Clone, Copy, Debug, PartialEq, Eq, Structural)]
pub struct VideoDescriptor {
    /// Width in pixels.
    pub xres: i32,
    /// Height in lines.
    pub yres: i32,
    /// Pixel format code.
    pub four_cc: u32,
    /// Frame rate numerator.
    pub frame_rate_n: i32,
    /// Frame rate denominator.
    pub frame_rate_d: i32,
    /// Picture aspect ratio, as the bits of a single-precision number.
    pub picture_aspect_ratio: u32,
    /// Field layout code.
    pub frame_format_type: u32,
    /// Timecode in units of 100 ns.
    pub timecode: i64,
    /// Address of the pixel data, 0 when there is none.
    pub data: usize,
    /// Distance in bytes from one line to the next.
    pub line_stride_in_bytes: i32,
    /// Address of the metadata text, 0 when there is none.
    pub metadata: usize,
    /// Time at which the frame was submitted, in units of 100 ns.
    pub timestamp: i64,
}

/// The record that describes one audio frame.
#[derive(Clone, Copy, Debug, PartialEq, Eq, Structural)]
pub struct AudioDescriptor {
    /// Samples per second.
    pub sample_rate: i32,
    /// Number of channels.
    pub no_channels: i32,
    /// Number of samples in each channel.
    pub no_samples: i32,
    /// Timecode in units of 100 ns.
    pub timecode: i64,
    /// Address of the sample data, 0 when there is none.
    pub data: usize,
    /// Distance in bytes from one channel to the next.
    pub channel_stride_in_bytes: i32,
    /// Address of the metadata text, 0 when there is none.
    pub metadata: usize,
    /// Time at which the frame was submitted, in units of 100 ns.
    pub timestamp: i64,
}

/// The record that describes one metadata frame.
#[derive(Clone, Copy, Debug, PartialEq, Eq, Structural)]
pub struct MetadataDescriptor {
    /// Length of the text in bytes, terminator included.
    pub length: i32,
    /// Timecode in units of 100 ns.
    pub timecode: i64,
    /// Address of the text, 0 when there is none.
    pub data: usize,
}

impl VideoDescriptor {
    /// The descriptor with every field zero, as handed to the runtime to fill.
    pub open spec fn spec_zeroed() -> Self {
        VideoDescriptor {
            xres: 0,
            yres: 0,
            four_cc: 0,
            frame_rate_n: 0,
            frame_rate_d: 0,
            picture_aspect_ratio: 0,
            frame_format_type: 0,
            timecode: 0,
            data: 0,
            line_stride_in_bytes: 0,
            metadata: 0,
            timestamp: 0,
        }
    }

    /// Number of bytes that the pixel data spans: stride times height.
    pub open spec fn data_len(self) -> int {
        self.line_stride_in_bytes * self.yres
    }

    /// A descriptor whose pixel data can be read: the address is set, and the
    /// span is a size that a slice of memory can have on this machine.
    pub open spec fn readable(self) -> bool {
        &&& self.data != 0
        &&& self.line_stride_in_bytes >= 0
        &&& self.yres >= 0
        &&& self.data_len() <= isize::MAX
    }

    /// Returns the descriptor with every field zero.
    #[verifier::when_used_as_spec(spec_zeroed)]
    pub fn zeroed() -> (d: Self)
        ensures
            d == Self::spec_zeroed(),
    {
        VideoDescriptor {
            xres: 0,
            yres: 0,
            four_cc: 0,
            frame_rate_n: 0,
            frame_rate_d: 0,
            picture_aspect_ratio: 0,
            frame_format_type: 0,
            timecode: 0,
            data: 0,
            line_stride_in_bytes: 0,
            metadata: 0,
            timestamp: 0,
        }
    }

    /// Computes the span of the pixel data from the stride and the height as
    /// they stand now. `None` when the descriptor is not readable.
    pub fn byte_len(&self) -> (len: Option<usize>)
        ensures
            len is Some <==> self.readable(),
            len matches Some(n) ==> n == self.data_len(),
    {
        if self.data == 0 || self.line_stride_in_bytes < 0 || self.yres < 0 {
            return None;
        }
        let stride: u64 = self.line_stride_in_bytes as u64;
        let lines: u64 = self.yres as u64;
        assert(stride * lines <= 0x7fff_ffff * 0x7fff_ffff) by (nonlinear_arith)
            requires
                0 <= stride <= 0x7fff_ffff,
                0 <= lines <= 0x7fff_ffff,
        ;
        let total: u64 = stride * lines;
        if total > isize::MAX as u64 {
            None
        } else {
            Some(total as usize)
        }
    }
}

impl AudioDescriptor {
    /// The descriptor with every field zero, as handed to the runtime to fill.
    pub open spec fn spec_zeroed() -> Self {
        AudioDescriptor {
            sample_rate: 0,
            no_channels: 0,
            no_samples: 0,
            timecode: 0,
            data: 0,
            channel_stride_in_bytes: 0,
            metadata: 0,
            timestamp: 0,
        }
    }

    /// Number of samples that the sample data spans: stride times channels,
    /// in bytes, divided by the size of a sample.
    pub open spec fn data_len(self) -> int {
        self.byte_len() / (BYTES_PER_SAMPLE as int)
    }

    /// Number of bytes that the sample data spans: stride times channels.
    pub open spec fn byte_len(self) -> int {
        self.channel_stride_in_bytes * self.no_channels
    }

    /// A descriptor whose sample data can be read: the address is set and is
    /// that of a sample, and the span is a size that a slice of memory can have
    /// on this machine.
    pub open spec fn readable(self) -> bool {
        &&& self.data != 0
        &&& self.data % (BYTES_PER_SAMPLE as usize) == 0
        &&& self.channel_stride_in_bytes >= 0
        &&& self.no_channels >= 0
        &&& self.byte_len() <= isize::MAX
    }

    /// Returns the descriptor with every field zero.
    #[verifier::when_used_as_spec(spec_zeroed)]
    pub fn zeroed() -> (d: Self)
        ensures
            d == Self::spec_zeroed(),
    {
        AudioDescriptor {
            sample_rate: 0,
            no_channels: 0,
            no_samples: 0,
            timecode: 0,
            data: 0,
            channel_stride_in_bytes: 0,
            metadata: 0,
            timestamp: 0,
        }
    }

    /// Computes the span of the sample data, in samples, from the stride and
    /// the channel count as they stand now. `None` when the descriptor is not
    /// readable.
    pub fn sample_len(&self) -> (len: Option<usize>)
        ensures
            len is Some <==> self.readable(),
            len matches Some(n) ==> n == self.data_len(),
    {
        if self.data == 0 || self.data % (BYTES_PER_SAMPLE as usize) != 0
            || self.channel_stride_in_bytes < 0 || self.no_channels < 0 {
            return None;
        }
        let stride: u64 = self.channel_stride_in_bytes as u64;
        let channels: u64 = self.no_channels as u64;
        assert(stride * channels <= 0x7fff_ffff * 0x7fff_ffff) by (nonlinear_arith)
            requires
                0 <= stride <= 0x7fff_ffff,
                0 <= channels <= 0x7fff_ffff,
        ;
        let bytes: u64 = stride * channels;
        if bytes > isize::MAX as u64 {
            None
        } else {
            Some((bytes / (BYTES_PER_SAMPLE as u64)) as usize)
        }
    }
}

impl MetadataDescriptor {
    /// The descriptor with every field zero, as handed to the runtime to fill.
    pub open spec fn spec_zeroed() -> Self {
        MetadataDescriptor { length: 0, timecode: 0, data: 0 }
    }

    /// Returns the descriptor with every field zero.
    #[verifier::when_used_as_spec(spec_zeroed)]
    pub fn zeroed() -> (d: Self)
        ensures
            d == Self::spec_zeroed(),
    {
        MetadataDescriptor { length: 0, timecode: 0, data: 0 }
    }
}

} // verus!
