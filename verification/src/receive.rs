//! The receiving side: capturing frames, reading them, and handing their
//! memory back to the runtime.

use crate::sdk::{
    AudioDescriptor, MetadataDescriptor, VideoDescriptor, FOURCC_BGRA, FOURCC_BGRX, FOURCC_I420, FOURCC_NV12, FOURCC_RGBA, FOURCC_RGBX, FOURCC_UYVA, FOURCC_UYVY,
    FOURCC_YV12, FRAME_FORMAT_FIELD_0, FRAME_FORMAT_FIELD_1, FRAME_FORMAT_INTERLEAVED,
    FRAME_FORMAT_PROGRESSIVE, FRAME_TYPE_AUDIO, FRAME_TYPE_ERROR, FRAME_TYPE_METADATA,
    FRAME_TYPE_NONE, FRAME_TYPE_STATUS_CHANGE, FRAME_TYPE_VIDEO, RECV_BANDWIDTH_AUDIO_ONLY,
    RECV_BANDWIDTH_HIGHEST, RECV_BANDWIDTH_LOWEST, RECV_BANDWIDTH_METADATA_ONLY,
    RECV_COLOR_FORMAT_BGRX_BGRA, RECV_COLOR_FORMAT_FASTEST, RECV_COLOR_FORMAT_RGBX_RGBA,
    RECV_COLOR_FORMAT_UYVY_BGRA, RECV_COLOR_FORMAT_UYVY_RGBA,
};
use crate::finder::FindSource;
use crate::store::{
    lemma_descriptors_are_conserved, lists_each_once, ReceiveDataStore, StoreModel, StoreOp,
};
use crate::util::{has_nul, is_c_string_of, is_optional_c_string_of, to_ndi_source};
use vstd::prelude::*;
use vstd::std_specs::convert::{FromSpecImpl, TryFromSpecImpl};
use vstd::utf8::encode_utf8;

verus! {

/// How the lines of a video frame are laid out in time.
#[derive(Debug, PartialEq, Eq, Hash, Copy, Clone, Structural)]
pub enum FrameFormatType {
    Progressive,
    Interlaced,
    Field0,
    Field1,
}

impl FrameFormatType {
    /// The code that the runtime uses for this layout.
    pub open spec fn spec_code(self) -> u32 {
        match self {
            FrameFormatType::Progressive => FRAME_FORMAT_PROGRESSIVE,
            FrameFormatType::Interlaced => FRAME_FORMAT_INTERLEAVED,
            FrameFormatType::Field0 => FRAME_FORMAT_FIELD_0,
            FrameFormatType::Field1 => FRAME_FORMAT_FIELD_1,
        }
    }

    /// The layout that a code of the runtime stands for, if it stands for one.
    pub open spec fn from_code(v: u32) -> Option<Self> {
        if v == FRAME_FORMAT_PROGRESSIVE {
            Some(FrameFormatType::Progressive)
        } else if v == FRAME_FORMAT_INTERLEAVED {
            Some(FrameFormatType::Interlaced)
        } else if v == FRAME_FORMAT_FIELD_0 {
            Some(FrameFormatType::Field0)
        } else if v == FRAME_FORMAT_FIELD_1 {
            Some(FrameFormatType::Field1)
        } else {
            None
        }
    }

    /// Returns the code that the runtime uses for this layout.
    #[verifier::when_used_as_spec(spec_code)]
    pub fn code(self) -> (c: u32)
        ensures
            c == self.spec_code(),
            Self::from_code(c) == Some(self),
    {
        match self {
            FrameFormatType::Progressive => FRAME_FORMAT_PROGRESSIVE,
            FrameFormatType::Interlaced => FRAME_FORMAT_INTERLEAVED,
            FrameFormatType::Field0 => FRAME_FORMAT_FIELD_0,
            FrameFormatType::Field1 => FRAME_FORMAT_FIELD_1,
        }
    }
}

impl TryFrom<u32> for FrameFormatType {
    type Error = ();

    /// Reads a code of the runtime. Fails exactly on a code that stands for no
    /// layout.
    fn try_from(v: u32) -> (r: Result<Self, ()>)
        ensures
            r == match Self::from_code(v) {
                Some(format) => Ok::<Self, ()>(format),
                None => Err(()),
            },
    {
        if v == FRAME_FORMAT_PROGRESSIVE {
            Ok(FrameFormatType::Progressive)
        } else if v == FRAME_FORMAT_INTERLEAVED {
            Ok(FrameFormatType::Interlaced)
        } else if v == FRAME_FORMAT_FIELD_0 {
            Ok(FrameFormatType::Field0)
        } else if v == FRAME_FORMAT_FIELD_1 {
            Ok(FrameFormatType::Field1)
        } else {
            Err(())
        }
    }
}

impl TryFromSpecImpl<u32> for FrameFormatType {
    open spec fn obeys_try_from_spec() -> bool {
        true
    }

    open spec fn try_from_spec(v: u32) -> Result<Self, ()> {
        match Self::from_code(v) {
            Some(format) => Ok(format),
            None => Err(()),
        }
    }
}

/// The pixel format of a video frame.
#[derive(Debug, PartialEq, Eq, Hash, Copy, Clone, Structural)]
pub enum FourCCType {
    UYVY,
    UYVA,
    YV12,
    I420,
    NV12,
    BGRA,
    BGRX,
    RGBA,
    RGBX,
}

impl FourCCType {
    /// The code that the runtime uses for this pixel format.
    pub open spec fn spec_code(self) -> u32 {
        match self {
            FourCCType::UYVY => FOURCC_UYVY,
            FourCCType::UYVA => FOURCC_UYVA,
            FourCCType::YV12 => FOURCC_YV12,
            FourCCType::I420 => FOURCC_I420,
            FourCCType::NV12 => FOURCC_NV12,
            FourCCType::BGRA => FOURCC_BGRA,
            FourCCType::BGRX => FOURCC_BGRX,
            FourCCType::RGBA => FOURCC_RGBA,
            FourCCType::RGBX => FOURCC_RGBX,
        }
    }

    /// The pixel format that a code of the runtime stands for, if it stands for
    /// one.
    pub open spec fn from_code(v: u32) -> Option<Self> {
        if v == FOURCC_UYVY {
            Some(FourCCType::UYVY)
        } else if v == FOURCC_UYVA {
            Some(FourCCType::UYVA)
        } else if v == FOURCC_YV12 {
            Some(FourCCType::YV12)
        } else if v == FOURCC_I420 {
            Some(FourCCType::I420)
        } else if v == FOURCC_NV12 {
            Some(FourCCType::NV12)
        } else if v == FOURCC_BGRA {
            Some(FourCCType::BGRA)
        } else if v == FOURCC_BGRX {
            Some(FourCCType::BGRX)
        } else if v == FOURCC_RGBA {
            Some(FourCCType::RGBA)
        } else if v == FOURCC_RGBX {
            Some(FourCCType::RGBX)
        } else {
            None
        }
    }

    /// Returns the code that the runtime uses for this pixel format.
    #[verifier::when_used_as_spec(spec_code)]
    pub fn code(self) -> (c: u32)
        ensures
            c == self.spec_code(),
            Self::from_code(c) == Some(self),
    {
        match self {
            FourCCType::UYVY => FOURCC_UYVY,
            FourCCType::UYVA => FOURCC_UYVA,
            FourCCType::YV12 => FOURCC_YV12,
            FourCCType::I420 => FOURCC_I420,
            FourCCType::NV12 => FOURCC_NV12,
            FourCCType::BGRA => FOURCC_BGRA,
            FourCCType::BGRX => FOURCC_BGRX,
            FourCCType::RGBA => FOURCC_RGBA,
            FourCCType::RGBX => FOURCC_RGBX,
        }
    }
}

impl TryFrom<u32> for FourCCType {
    type Error = ();

    /// Reads a code of the runtime. Fails exactly on a code that stands for no
    /// pixel format known here.
    fn try_from(v: u32) -> (r: Result<Self, ()>)
        ensures
            r == match Self::from_code(v) {
                Some(format) => Ok::<Self, ()>(format),
                None => Err(()),
            },
    {
        if v == FOURCC_UYVY {
            Ok(FourCCType::UYVY)
        } else if v == FOURCC_UYVA {
            Ok(FourCCType::UYVA)
        } else if v == FOURCC_YV12 {
            Ok(FourCCType::YV12)
        } else if v == FOURCC_I420 {
            Ok(FourCCType::I420)
        } else if v == FOURCC_NV12 {
            Ok(FourCCType::NV12)
        } else if v == FOURCC_BGRA {
            Ok(FourCCType::BGRA)
        } else if v == FOURCC_BGRX {
            Ok(FourCCType::BGRX)
        } else if v == FOURCC_RGBA {
            Ok(FourCCType::RGBA)
        } else if v == FOURCC_RGBX {
            Ok(FourCCType::RGBX)
        } else {
            Err(())
        }
    }
}

impl TryFromSpecImpl<u32> for FourCCType {
    open spec fn obeys_try_from_spec() -> bool {
        true
    }

    open spec fn try_from_spec(v: u32) -> Result<Self, ()> {
        match Self::from_code(v) {
            Some(format) => Ok(format),
            None => Err(()),
        }
    }
}

/// Why a capture gave no frame.
#[derive(Debug, PartialEq, Eq, Copy, Clone, Structural)]
pub enum ReceiveCaptureError {
    /// The runtime reported a frame of a kind that was not asked for.
    Failed,
    /// The frame could not be registered, so no handle stands for it.
    Poisoned,
    /// The runtime reported something that is no frame, or a frame in a format
    /// that is not known here.
    Invalid,
}

impl From<()> for ReceiveCaptureError {
    /// A code that could not be read makes the capture invalid.
    fn from(_err: ()) -> (e: ReceiveCaptureError)
        ensures
            e == ReceiveCaptureError::Invalid,
    {
        ReceiveCaptureError::Invalid
    }
}

impl FromSpecImpl<()> for ReceiveCaptureError {
    open spec fn obeys_from_spec() -> bool {
        true
    }

    open spec fn from_spec(_err: ()) -> ReceiveCaptureError {
        ReceiveCaptureError::Invalid
    }
}

/// What kind of thing a capture call of the runtime reported.
#[derive(Debug, PartialEq, Eq, Copy, Clone, Structural)]
pub enum ReceiveCaptureResultType {
    /// Nothing arrived before the timeout ran out.
    Empty,
    Video,
    Audio,
    Metadata,
    Error,
    StatusChange,
}

impl ReceiveCaptureResultType {
    /// The kind that a frame type tag of the runtime stands for, if it stands
    /// for one.
    pub open spec fn from_tag(tag: u32) -> Option<Self> {
        if tag == FRAME_TYPE_NONE {
            Some(ReceiveCaptureResultType::Empty)
        } else if tag == FRAME_TYPE_VIDEO {
            Some(ReceiveCaptureResultType::Video)
        } else if tag == FRAME_TYPE_AUDIO {
            Some(ReceiveCaptureResultType::Audio)
        } else if tag == FRAME_TYPE_METADATA {
            Some(ReceiveCaptureResultType::Metadata)
        } else if tag == FRAME_TYPE_ERROR {
            Some(ReceiveCaptureResultType::Error)
        } else if tag == FRAME_TYPE_STATUS_CHANGE {
            Some(ReceiveCaptureResultType::StatusChange)
        } else {
            None
        }
    }

    /// Reads a frame type tag of the runtime. A tag that stands for no kind is
    /// an error; it is never taken for "nothing captured".
    pub fn classify(tag: u32) -> (r: Result<Self, ReceiveCaptureError>)
        ensures
            r == match Self::from_tag(tag) {
                Some(kind) => Ok::<Self, ReceiveCaptureError>(kind),
                None => Err(ReceiveCaptureError::Invalid),
            },
    {
        if tag == FRAME_TYPE_NONE {
            Ok(ReceiveCaptureResultType::Empty)
        } else if tag == FRAME_TYPE_VIDEO {
            Ok(ReceiveCaptureResultType::Video)
        } else if tag == FRAME_TYPE_AUDIO {
            Ok(ReceiveCaptureResultType::Audio)
        } else if tag == FRAME_TYPE_METADATA {
            Ok(ReceiveCaptureResultType::Metadata)
        } else if tag == FRAME_TYPE_ERROR {
            Ok(ReceiveCaptureResultType::Error)
        } else if tag == FRAME_TYPE_STATUS_CHANGE {
            Ok(ReceiveCaptureResultType::StatusChange)
        } else {
            Err(ReceiveCaptureError::Invalid)
        }
    }
}

/// Why no receiver came to be.
#[derive(Debug, PartialEq, Eq, Copy, Clone, Structural)]
pub enum ReceiveCreateError {
    /// The runtime did not create a connection.
    Failed,
}

/// How much of a source a receiver asks for.
#[derive(Debug, PartialEq, Eq, Copy, Clone, Structural)]
pub enum ReceiveBandwidth {
    MetadataOnly,
    AudioOnly,
    Lowest,
    Highest,
}

impl ReceiveBandwidth {
    /// The code that the runtime uses for this bandwidth.
    pub open spec fn spec_code(self) -> i32 {
        match self {
            ReceiveBandwidth::MetadataOnly => RECV_BANDWIDTH_METADATA_ONLY,
            ReceiveBandwidth::AudioOnly => RECV_BANDWIDTH_AUDIO_ONLY,
            ReceiveBandwidth::Lowest => RECV_BANDWIDTH_LOWEST,
            ReceiveBandwidth::Highest => RECV_BANDWIDTH_HIGHEST,
        }
    }

    /// Returns the code that the runtime uses for this bandwidth.
    #[verifier::when_used_as_spec(spec_code)]
    pub fn code(self) -> (c: i32)
        ensures
            c == self.spec_code(),
    {
        match self {
            ReceiveBandwidth::MetadataOnly => RECV_BANDWIDTH_METADATA_ONLY,
            ReceiveBandwidth::AudioOnly => RECV_BANDWIDTH_AUDIO_ONLY,
            ReceiveBandwidth::Lowest => RECV_BANDWIDTH_LOWEST,
            ReceiveBandwidth::Highest => RECV_BANDWIDTH_HIGHEST,
        }
    }
}

/// In which pixel formats a receiver wants its video.
#[derive(Debug, PartialEq, Eq, Copy, Clone, Structural)]
pub enum ReceiveColorFormat {
    Fastest,
    /// BGRX where there is no alpha channel, BGRA where there is one.
    BgrxBgra,
    /// UYVY where there is no alpha channel, BGRA where there is one.
    UyvyBgra,
    /// RGBX where there is no alpha channel, RGBA where there is one.
    RgbxRgba,
    /// UYVY where there is no alpha channel, RGBA where there is one.
    UyvyRgba,
}

impl ReceiveColorFormat {
    /// The code that the runtime uses for this choice.
    pub open spec fn spec_code(self) -> u32 {
        match self {
            ReceiveColorFormat::Fastest => RECV_COLOR_FORMAT_FASTEST,
            ReceiveColorFormat::BgrxBgra => RECV_COLOR_FORMAT_BGRX_BGRA,
            ReceiveColorFormat::UyvyBgra => RECV_COLOR_FORMAT_UYVY_BGRA,
            ReceiveColorFormat::RgbxRgba => RECV_COLOR_FORMAT_RGBX_RGBA,
            ReceiveColorFormat::UyvyRgba => RECV_COLOR_FORMAT_UYVY_RGBA,
        }
    }

    /// Returns the code that the runtime uses for this choice.
    #[verifier::when_used_as_spec(spec_code)]
    pub fn code(self) -> (c: u32)
        ensures
            c == self.spec_code(),
    {
        match self {
            ReceiveColorFormat::Fastest => RECV_COLOR_FORMAT_FASTEST,
            ReceiveColorFormat::BgrxBgra => RECV_COLOR_FORMAT_BGRX_BGRA,
            ReceiveColorFormat::UyvyBgra => RECV_COLOR_FORMAT_UYVY_BGRA,
            ReceiveColorFormat::RgbxRgba => RECV_COLOR_FORMAT_RGBX_RGBA,
            ReceiveColorFormat::UyvyRgba => RECV_COLOR_FORMAT_UYVY_RGBA,
        }
    }
}

/// A window onto the data of one captured frame.
///
/// It borrows the descriptor that it was made from for as long as it lives, so
/// the frame cannot be released, nor the descriptor changed, while the data is
/// being read. The length is worked out from the descriptor when the window is
/// made and is never kept from an earlier one.
pub struct GuardedPointer<'a, T> {
    guard: &'a T,
    address: usize,
    len: usize,
}

impl<'a, T> GuardedPointer<'a, T> {
    /// The descriptor that the window holds on to.
    pub closed spec fn spec_descriptor(&self) -> T {
        *self.guard
    }

    /// Where the data starts.
    pub closed spec fn spec_address(&self) -> usize {
        self.address
    }

    /// How many elements the data holds.
    pub closed spec fn spec_len(&self) -> usize {
        self.len
    }

    /// Returns the descriptor that the window holds on to.
    pub fn descriptor(&self) -> (d: &'a T)
        ensures
            *d == self.spec_descriptor(),
    {
        self.guard
    }

    /// Returns the address at which the data starts.
    #[verifier::when_used_as_spec(spec_address)]
    pub fn address(&self) -> (a: usize)
        ensures
            a == self.spec_address(),
    {
        self.address
    }

    /// Returns the number of elements that the data holds: bytes of a video
    /// frame, samples of an audio frame.
    #[verifier::when_used_as_spec(spec_len)]
    pub fn len(&self) -> (n: usize)
        ensures
            n == self.spec_len(),
    {
        self.len
    }

    /// Whether the data holds no element.
    pub fn is_empty(&self) -> (empty: bool)
        ensures
            empty <==> self.spec_len() == 0,
    {
        self.len == 0
    }
}

/// The pixel data of a video frame, in bytes.
pub type VideoFrameData<'a> = GuardedPointer<'a, VideoDescriptor>;

/// The sample data of an audio frame, in samples.
pub type AudioFrameData<'a> = GuardedPointer<'a, AudioDescriptor>;

/// What a receiver holds, as mathematics: the video frames and the audio frames
/// that were captured and not handed back yet.
pub struct ReceiveModel {
    pub video: StoreModel<VideoDescriptor>,
    pub audio: StoreModel<AudioDescriptor>,
}

impl ReceiveModel {
    /// Both registries are well formed.
    pub open spec fn wf(self) -> bool {
        self.video.wf() && self.audio.wf()
    }

    /// A receiver that holds no frame yet.
    pub open spec fn empty() -> Self {
        ReceiveModel { video: StoreModel::starting_at(0), audio: StoreModel::starting_at(0) }
    }

    /// The state after a capture in which the runtime reported `captured` and
    /// filled the descriptors that it was given.
    pub open spec fn after_capture(
        self,
        captured: u32,
        video: Option<VideoDescriptor>,
        audio: Option<AudioDescriptor>,
    ) -> Self {
        if captured == FRAME_TYPE_VIDEO && video is Some {
            ReceiveModel { video: self.video.track(video->0), audio: self.audio }
        } else if captured == FRAME_TYPE_AUDIO && audio is Some {
            ReceiveModel { video: self.video, audio: self.audio.track(audio->0) }
        } else {
            self
        }
    }

    /// The state after the video frame `id` was released.
    pub open spec fn free_video(self, id: usize) -> Self {
        ReceiveModel { video: self.video.remove(id), audio: self.audio }
    }

    /// The state after the audio frame `id` was released.
    pub open spec fn free_audio(self, id: usize) -> Self {
        ReceiveModel { video: self.video, audio: self.audio.remove(id) }
    }

    /// Where the pixel data of the video frame `id` lies and how many bytes it
    /// spans, if the frame is outstanding and its data can be read.
    pub open spec fn video_span(self, id: usize) -> Option<(usize, int)> {
        if self.video.entries.contains_key(id) && self.video.entries[id].readable() {
            Some((self.video.entries[id].data, self.video.entries[id].data_len()))
        } else {
            None
        }
    }

    /// Where the sample data of the audio frame `id` lies and how many samples
    /// it spans, if the frame is outstanding and its data can be read.
    pub open spec fn audio_span(self, id: usize) -> Option<(usize, int)> {
        if self.audio.entries.contains_key(id) && self.audio.entries[id].readable() {
            Some((self.audio.entries[id].data, self.audio.entries[id].data_len()))
        } else {
            None
        }
    }
}

/// A captured video frame, for as long as its memory has not gone back to the
/// runtime.
///
/// The handle owns the duty to release the frame. It names the receiver that
/// captured the frame by its connection, and the frame by its id in that
/// receiver, and carries what the descriptor said of the picture at that time.
/// Offered any other receiver, it opens no window and releases nothing.
#[derive(Debug)]
pub struct VideoFrame {
    /// The id under which the receiver holds the frame.
    pub id: usize,
    /// The connection of the receiver that captured the frame.
    pub parent: usize,
    pub width: i32,
    pub height: i32,
    pub frame_rate_n: i32,
    pub frame_rate_d: i32,
    pub four_cc_type: FourCCType,
    pub frame_format_type: FrameFormatType,
    pub timecode: i64,
    pub timestamp: i64,
}

impl VideoFrame {
    /// The handle stands for the frame `id` of the receiver on `connection`,
    /// captured with descriptor `d`.
    pub open spec fn describes(&self, connection: usize, id: usize, d: VideoDescriptor) -> bool {
        &&& self.parent == connection
        &&& self.id == id
        &&& self.width == d.xres
        &&& self.height == d.yres
        &&& self.frame_rate_n == d.frame_rate_n
        &&& self.frame_rate_d == d.frame_rate_d
        &&& FourCCType::from_code(d.four_cc) == Some(self.four_cc_type)
        &&& FrameFormatType::from_code(d.frame_format_type) == Some(self.frame_format_type)
        &&& self.timecode == d.timecode
        &&& self.timestamp == d.timestamp
    }

    /// Opens a window onto the pixel data, as `parent` holds it now.
    ///
    /// There is a window exactly while `parent` is the receiver that captured
    /// the frame, the frame is outstanding in it, and its data can be read. Its
    /// length is the stride times the height of the descriptor, worked out in
    /// this call.
    pub fn lock_data<'a>(&self, parent: &'a ReceiveInstance) -> (view: Option<VideoFrameData<'a>>)
        ensures
            view is Some <==> self.parent == parent.spec_connection() && parent@.video_span(
                self.id,
            ) is Some,
            view matches Some(v) ==> {
                &&& parent@.video_span(self.id) == Some((v.spec_address(), v.spec_len() as int))
                &&& v.spec_descriptor() == parent@.video.entries[self.id]
            },
    {
        if self.parent != parent.instance {
            return None;
        }
        match parent.video_frames.get(self.id) {
            None => None,
            Some(locked) => match locked.byte_len() {
                None => None,
                Some(len) => Some(GuardedPointer { guard: locked, address: locked.data, len }),
            },
        }
    }

    /// Ends the life of the handle: the frame leaves `parent`, and what comes
    /// back is the descriptor that the runtime has to be given to free it.
    /// `None`, with `parent` as it was, when `parent` does not hold the frame
    /// any more or is not the receiver that captured it.
    pub fn release(self, parent: &mut ReceiveInstance) -> (freed: Option<VideoDescriptor>)
        ensures
            final(parent).spec_connection() == old(parent).spec_connection(),
            self.parent == old(parent).spec_connection() ==> freed == old(parent)@.video.removed(
                self.id,
            ) && final(parent)@ == old(parent)@.free_video(self.id),
            self.parent != old(parent).spec_connection() ==> freed is None && final(parent)@ == old(
                parent,
            )@,
    {
        if self.parent != parent.instance {
            return None;
        }
        parent.free_video(self.id)
    }
}

/// A captured audio frame, for as long as its memory has not gone back to the
/// runtime.
#[derive(Debug)]
pub struct AudioFrame {
    /// The id under which the receiver holds the frame.
    pub id: usize,
    /// The connection of the receiver that captured the frame.
    pub parent: usize,
    pub sample_rate: i32,
    pub channel_count: i32,
    pub sample_count: i32,
    pub timecode: i64,
    pub timestamp: i64,
}

impl AudioFrame {
    /// The handle stands for the frame `id` of the receiver on `connection`,
    /// captured with descriptor `d`.
    pub open spec fn describes(&self, connection: usize, id: usize, d: AudioDescriptor) -> bool {
        &&& self.parent == connection
        &&& self.id == id
        &&& self.sample_rate == d.sample_rate
        &&& self.channel_count == d.no_channels
        &&& self.sample_count == d.no_samples
        &&& self.timecode == d.timecode
        &&& self.timestamp == d.timestamp
    }

    /// Opens a window onto the sample data, as `parent` holds it now.
    ///
    /// There is a window exactly while `parent` is the receiver that captured
    /// the frame, the frame is outstanding in it, and its data can be read. Its
    /// length, in samples, is the stride times the channel count of the
    /// descriptor divided by the size of a sample, worked out in this call.
    pub fn lock_data<'a>(&self, parent: &'a ReceiveInstance) -> (view: Option<AudioFrameData<'a>>)
        ensures
            view is Some <==> self.parent == parent.spec_connection() && parent@.audio_span(
                self.id,
            ) is Some,
            view matches Some(v) ==> {
                &&& parent@.audio_span(self.id) == Some((v.spec_address(), v.spec_len() as int))
                &&& v.spec_descriptor() == parent@.audio.entries[self.id]
            },
    {
        if self.parent != parent.instance {
            return None;
        }
        match parent.audio_frames.get(self.id) {
            None => None,
            Some(locked) => match locked.sample_len() {
                None => None,
                Some(len) => Some(GuardedPointer { guard: locked, address: locked.data, len }),
            },
        }
    }

    /// Ends the life of the handle: the frame leaves `parent`, and what comes
    /// back is the descriptor that the runtime has to be given to free it.
    /// `None`, with `parent` as it was, when `parent` does not hold the frame
    /// any more or is not the receiver that captured it.
    pub fn release(self, parent: &mut ReceiveInstance) -> (freed: Option<AudioDescriptor>)
        ensures
            final(parent).spec_connection() == old(parent).spec_connection(),
            self.parent == old(parent).spec_connection() ==> freed == old(parent)@.audio.removed(
                self.id,
            ) && final(parent)@ == old(parent)@.free_audio(self.id),
            self.parent != old(parent).spec_connection() ==> freed is None && final(parent)@ == old(
                parent,
            )@,
    {
        if self.parent != parent.instance {
            return None;
        }
        parent.free_audio(self.id)
    }
}

/// What a capture gave.
#[derive(Debug)]
pub enum ReceiveCaptureResult {
    /// Nothing arrived before the timeout ran out.
    Empty,
    Video(VideoFrame),
    Audio(AudioFrame),
    Metadata(u32),
}

/// The descriptors that a capture call hands to the runtime to fill: one for
/// each kind of frame that is asked for.
#[derive(Clone, Copy, Debug, PartialEq, Eq, Structural)]
pub struct CaptureBuffers {
    pub video: Option<VideoDescriptor>,
    pub audio: Option<AudioDescriptor>,
    pub metadata: Option<MetadataDescriptor>,
}

impl CaptureBuffers {
    /// Makes a zeroed descriptor for each kind that is asked for, and none for
    /// the others.
    pub fn new(capture_video: bool, capture_audio: bool, capture_metadata: bool) -> (buffers: Self)
        ensures
            buffers.video == if capture_video {
                Some(VideoDescriptor::spec_zeroed())
            } else {
                None
            },
            buffers.audio == if capture_audio {
                Some(AudioDescriptor::spec_zeroed())
            } else {
                None
            },
            buffers.metadata == if capture_metadata {
                Some(MetadataDescriptor::spec_zeroed())
            } else {
                None
            },
    {
        CaptureBuffers {
            video: if capture_video {
                Some(VideoDescriptor::zeroed())
            } else {
                None
            },
            audio: if capture_audio {
                Some(AudioDescriptor::zeroed())
            } else {
                None
            },
            metadata: if capture_metadata {
                Some(MetadataDescriptor::zeroed())
            } else {
                None
            },
        }
    }
}

/// `r` is what a capture returns when the receiver on `connection` was in state
/// `before`, the runtime reported `captured` and the descriptors came back as
/// `video` and `audio`.
pub open spec fn is_capture_result(
    r: Result<ReceiveCaptureResult, ReceiveCaptureError>,
    before: ReceiveModel,
    connection: usize,
    captured: u32,
    video: Option<VideoDescriptor>,
    audio: Option<AudioDescriptor>,
) -> bool {
    match ReceiveCaptureResultType::from_tag(captured) {
        Some(ReceiveCaptureResultType::Empty) => r matches Ok(ReceiveCaptureResult::Empty),
        Some(ReceiveCaptureResultType::Video) => match video {
            None => r matches Err(ReceiveCaptureError::Failed),
            Some(d) => match before.video.issued() {
                None => r matches Err(ReceiveCaptureError::Poisoned),
                Some(id) => if FourCCType::from_code(d.four_cc) is Some && FrameFormatType::from_code(
                    d.frame_format_type,
                ) is Some {
                    r matches Ok(ReceiveCaptureResult::Video(frame)) && frame.describes(
                        connection,
                        id,
                        d,
                    )
                } else {
                    r matches Err(ReceiveCaptureError::Invalid)
                },
            },
        },
        Some(ReceiveCaptureResultType::Audio) => match audio {
            None => r matches Err(ReceiveCaptureError::Failed),
            Some(d) => match before.audio.issued() {
                None => r matches Err(ReceiveCaptureError::Poisoned),
                Some(id) => r matches Ok(ReceiveCaptureResult::Audio(frame)) && frame.describes(
                    connection,
                    id,
                    d,
                ),
            },
        },
        _ => r matches Err(ReceiveCaptureError::Invalid),
    }
}

/// What the runtime has to be asked to do when a receiver goes away.
#[allow(inconsistent_fields)]
#[derive(Clone, Copy, Debug, PartialEq, Eq, Structural)]
pub enum ReceiveCommand {
    /// Free the video frame that was tracked as `id`.
    FreeVideo { id: usize, frame: VideoDescriptor },
    /// Free the audio frame that was tracked as `id`.
    FreeAudio { id: usize, frame: AudioDescriptor },
    /// Destroy the connection.
    Destroy { connection: usize },
}

impl ReceiveCommand {
    /// The command frees the video frame that was tracked as `id`.
    pub open spec fn frees_video(self, id: usize) -> bool {
        self matches ReceiveCommand::FreeVideo { id: freed, .. } && freed == id
    }

    /// The command frees the audio frame that was tracked as `id`.
    pub open spec fn frees_audio(self, id: usize) -> bool {
        self matches ReceiveCommand::FreeAudio { id: freed, .. } && freed == id
    }
}

/// `commands` is what tears down a receiver on `connection` that holds
/// `before`: one release for each outstanding video frame, then one for each
/// outstanding audio frame, no frame twice and none that `before` does not
/// hold, and after them all the end of the connection.
pub open spec fn is_teardown_of(
    commands: Seq<ReceiveCommand>,
    before: ReceiveModel,
    connection: usize,
) -> bool {
    let n = before.video.entries.dom().len() as int;
    let m = before.audio.entries.dom().len() as int;
    &&& commands.len() == n + m + 1
    &&& commands[n + m] == (ReceiveCommand::Destroy { connection })
    &&& forall|i: int|
        0 <= i < n ==> (#[trigger] commands[i] matches ReceiveCommand::FreeVideo { id, frame }
            && before.video.entries.contains_key(id) && before.video.entries[id] == frame)
    &&& forall|i: int|
        n <= i < n + m ==> (#[trigger] commands[i] matches ReceiveCommand::FreeAudio { id, frame }
            && before.audio.entries.contains_key(id) && before.audio.entries[id] == frame)
    &&& forall|i: int, j: int|
        0 <= i < j < n + m ==> #[trigger] commands[i] != #[trigger] commands[j]
    &&& forall|id: usize| #[trigger]
        before.video.entries.contains_key(id) ==> exists|i: int|
            0 <= i < n && #[trigger] commands[i] == (ReceiveCommand::FreeVideo {
                id,
                frame: before.video.entries[id],
            })
    &&& forall|id: usize| #[trigger]
        before.audio.entries.contains_key(id) ==> exists|i: int|
            n <= i < n + m && #[trigger] commands[i] == (ReceiveCommand::FreeAudio {
                id,
                frame: before.audio.entries[id],
            })
}

/// What the runtime has to be asked when a receiver is pointed at a source.
#[derive(Debug, PartialEq, Eq)]
pub enum ConnectRequest {
    /// Drop the connection that is there, and make none.
    Clear,
    /// Connect to the source with this name and, where it is known, this
    /// address; each buffer ends in a zero byte.
    Source { name: Vec<u8>, url: Option<Vec<u8>> },
}

/// A receiver: one connection of the runtime, and the frames that were
/// captured on it and have not been handed back.
pub struct ReceiveInstance {
    instance: usize,
    video_frames: ReceiveDataStore<VideoDescriptor>,
    audio_frames: ReceiveDataStore<AudioDescriptor>,
}

impl View for ReceiveInstance {
    type V = ReceiveModel;

    closed spec fn view(&self) -> ReceiveModel {
        ReceiveModel { video: self.video_frames@, audio: self.audio_frames@ }
    }
}

impl ReceiveInstance {
    /// The address of the connection in the runtime.
    pub closed spec fn spec_connection(&self) -> usize {
        self.instance
    }

    /// A receiver on `connection` that holds the frames in the two stores.
    pub fn with_stores(
        connection: usize,
        video_frames: ReceiveDataStore<VideoDescriptor>,
        audio_frames: ReceiveDataStore<AudioDescriptor>,
    ) -> (receiver: Self)
        ensures
            receiver.spec_connection() == connection,
            receiver@ == (ReceiveModel { video: video_frames@, audio: audio_frames@ }),
    {
        ReceiveInstance { instance: connection, video_frames, audio_frames }
    }

    /// Returns the address of the connection in the runtime.
    #[verifier::when_used_as_spec(spec_connection)]
    pub fn connection(&self) -> (connection: usize)
        ensures
            connection == self.spec_connection(),
    {
        self.instance
    }

    /// Number of video frames that are outstanding.
    pub fn video_frame_count(&self) -> (n: usize)
        ensures
            self@.wf(),
            n == self@.video.entries.dom().len(),
    {
        proof {
            use_type_invariant(&self.audio_frames);
        }
        self.video_frames.len()
    }

    /// Number of audio frames that are outstanding.
    pub fn audio_frame_count(&self) -> (n: usize)
        ensures
            self@.wf(),
            n == self@.audio.entries.dom().len(),
    {
        proof {
            use_type_invariant(&self.video_frames);
        }
        self.audio_frames.len()
    }

    /// Works out what the runtime has to be asked to point the receiver at
    /// `source`, or at nothing. The source is left as it is.
    ///
    /// There is no request exactly when the name or the address of the source
    /// holds a zero byte.
    pub fn connect(&self, source: Option<&FindSource>) -> (request: Option<ConnectRequest>)
        ensures
            match source {
                None => request == Some(ConnectRequest::Clear),
                Some(s) => if has_nul(encode_utf8(s.name@)) || (s.url matches Some(u) && has_nul(
                    encode_utf8(u@),
                )) {
                    request is None
                } else {
                    &&& request matches Some(ConnectRequest::Source { name, url })
                    &&& is_c_string_of(name@, s.name@)
                    &&& is_optional_c_string_of(url, s.url)
                },
            },
    {
        match source {
            None => Some(ConnectRequest::Clear),
            Some(s) => match to_ndi_source(s) {
                Ok((name, url)) => Some(ConnectRequest::Source { name, url }),
                Err(_) => None,
            },
        }
    }

    /// Takes the video frame `id` out of the receiver. What comes back is the
    /// descriptor that the runtime has to be given to free the frame. `None`,
    /// with the receiver as it was, when the frame is not outstanding: it was
    /// released before, or never captured here.
    pub fn free_video(&mut self, id: usize) -> (freed: Option<VideoDescriptor>)
        ensures
            old(self)@.wf(),
            final(self)@.wf(),
            freed == old(self)@.video.removed(id),
            final(self)@ == old(self)@.free_video(id),
            final(self).spec_connection() == old(self).spec_connection(),
    {
        proof {
            use_type_invariant(&self.audio_frames);
        }
        self.video_frames.remove(id)
    }

    /// Takes the audio frame `id` out of the receiver. What comes back is the
    /// descriptor that the runtime has to be given to free the frame. `None`,
    /// with the receiver as it was, when the frame is not outstanding: it was
    /// released before, or never captured here.
    pub fn free_audio(&mut self, id: usize) -> (freed: Option<AudioDescriptor>)
        ensures
            old(self)@.wf(),
            final(self)@.wf(),
            freed == old(self)@.audio.removed(id),
            final(self)@ == old(self)@.free_audio(id),
            final(self).spec_connection() == old(self).spec_connection(),
    {
        proof {
            use_type_invariant(&self.video_frames);
        }
        self.audio_frames.remove(id)
    }

    /// Ends the receiver. What comes back is what the runtime has to be asked,
    /// in this order: to free every video frame that is still outstanding, then
    /// every audio frame that is, and only then to destroy the connection.
    ///
    /// A frame that was released before is not outstanding and is not freed
    /// again. Handles that are still around name frames of a receiver that is
    /// gone; there is nothing left for them to release.
    pub fn teardown(self) -> (commands: Vec<ReceiveCommand>)
        ensures
            self@.wf(),
            is_teardown_of(commands@, self@, self.spec_connection()),
    {
        let mut receiver = self;
        let connection: usize = receiver.instance;
        let video = receiver.video_frames.drain();
        let audio = receiver.audio_frames.drain();
        let ghost before = self@;
        let ghost n = video@.len() as int;
        let ghost m = audio@.len() as int;
        let mut commands: Vec<ReceiveCommand> = Vec::new();
        let mut i: usize = 0;
        while i < video.len()
            invariant
                i <= video.len(),
                n == video@.len(),
                lists_each_once(video@, before.video.entries),
                commands@.len() == i,
                forall|k: int|
                    0 <= k < i ==> #[trigger] commands@[k] == (ReceiveCommand::FreeVideo {
                        id: video@[k].0,
                        frame: video@[k].1,
                    }),
            decreases video.len() - i,
        {
            let (id, frame) = video[i];
            commands.push(ReceiveCommand::FreeVideo { id, frame });
            i = i + 1;
        }
        let mut j: usize = 0;
        while j < audio.len()
            invariant
                j <= audio.len(),
                n == video@.len(),
                m == audio@.len(),
                lists_each_once(audio@, before.audio.entries),
                commands@.len() == n + j,
                forall|k: int|
                    0 <= k < n ==> #[trigger] commands@[k] == (ReceiveCommand::FreeVideo {
                        id: video@[k].0,
                        frame: video@[k].1,
                    }),
                forall|k: int|
                    n <= k < n + j ==> #[trigger] commands@[k] == (ReceiveCommand::FreeAudio {
                        id: audio@[k - n].0,
                        frame: audio@[k - n].1,
                    }),
            decreases audio.len() - j,
        {
            let (id, frame) = audio[j];
            commands.push(ReceiveCommand::FreeAudio { id, frame });
            j = j + 1;
        }
        commands.push(ReceiveCommand::Destroy { connection });
        proof {
            let c = commands@;
            assert forall|a: int, b: int| 0 <= a < b < n + m implies #[trigger] c[a]
                != #[trigger] c[b] by {
                if b < n {
                    assert(video@[a].0 != video@[b].0);
                } else if a >= n {
                    assert(audio@[a - n].0 != audio@[b - n].0);
                }
            }
            assert forall|id: usize| #[trigger]
                before.video.entries.contains_key(id) implies exists|k: int|
                0 <= k < n && #[trigger] c[k] == (ReceiveCommand::FreeVideo {
                    id,
                    frame: before.video.entries[id],
                }) by {
                let k = choose|k: int| 0 <= k < video@.len() && #[trigger] video@[k].0 == id;
                assert(c[k] == (ReceiveCommand::FreeVideo { id, frame: before.video.entries[id] }));
            }
            assert forall|id: usize| #[trigger]
                before.audio.entries.contains_key(id) implies exists|k: int|
                n <= k < n + m && #[trigger] c[k] == (ReceiveCommand::FreeAudio {
                    id,
                    frame: before.audio.entries[id],
                }) by {
                let k = choose|k: int| 0 <= k < audio@.len() && #[trigger] audio@[k].0 == id;
                assert(c[k + n] == (ReceiveCommand::FreeAudio {
                    id,
                    frame: before.audio.entries[id],
                }));
            }
        }
        commands
    }
}

/// Capturing, as a receiver offers it.
pub trait ReceiveInstanceExt {
    /// Takes in what one capture call of the runtime gave: the frame type tag
    /// that it returned and the descriptors that it was handed, as they came
    /// back.
    fn receive_capture(&mut self, captured: u32, buffers: CaptureBuffers) -> Result<
        ReceiveCaptureResult,
        ReceiveCaptureError,
    >;
}

impl ReceiveInstanceExt for ReceiveInstance {
    /// Takes in what one capture call of the runtime gave.
    ///
    /// Nothing captured is a result, not an error. A video or an audio frame is
    /// registered under a fresh id and comes back as a handle with that id. It
    /// is an error when the frame is of a kind that no descriptor was handed
    /// out for, when the ids have run out, when the tag stands for anything
    /// but a frame or nothing, and when a video frame is in a pixel format or
    /// field layout that is not known here. In the last case the frame stays
    /// registered, so that the end of the receiver frees it.
    fn receive_capture(&mut self, captured: u32, buffers: CaptureBuffers) -> (r: Result<
        ReceiveCaptureResult,
        ReceiveCaptureError,
    >)
        ensures
            old(self)@.wf(),
            final(self)@.wf(),
            final(self)@ == old(self)@.after_capture(captured, buffers.video, buffers.audio),
            final(self).spec_connection() == old(self).spec_connection(),
            is_capture_result(
                r,
                old(self)@,
                old(self).spec_connection(),
                captured,
                buffers.video,
                buffers.audio,
            ),
    {
        proof {
            use_type_invariant(&self.video_frames);
            use_type_invariant(&self.audio_frames);
        }
        let kind = match ReceiveCaptureResultType::classify(captured) {
            Ok(kind) => kind,
            Err(e) => {
                return Err(e);
            },
        };
        match kind {
            ReceiveCaptureResultType::Video => match buffers.video {
                None => Err(ReceiveCaptureError::Failed),
                Some(video_data) => match self.video_frames.track(video_data) {
                    None => Err(ReceiveCaptureError::Poisoned),
                    Some(id) => {
                        let four_cc_type = match FourCCType::try_from(video_data.four_cc) {
                            Ok(format) => format,
                            Err(e) => {
                                return Err(ReceiveCaptureError::from(e));
                            },
                        };
                        let frame_format_type = match FrameFormatType::try_from(
                            video_data.frame_format_type,
                        ) {
                            Ok(format) => format,
                            Err(e) => {
                                return Err(ReceiveCaptureError::from(e));
                            },
                        };
                        Ok(
                            ReceiveCaptureResult::Video(
                                VideoFrame {
                                    id,
                                    parent: self.instance,
                                    width: video_data.xres,
                                    height: video_data.yres,
                                    frame_rate_n: video_data.frame_rate_n,
                                    frame_rate_d: video_data.frame_rate_d,
                                    four_cc_type,
                                    frame_format_type,
                                    timecode: video_data.timecode,
                                    timestamp: video_data.timestamp,
                                },
                            ),
                        )
                    },
                },
            },
            ReceiveCaptureResultType::Audio => match buffers.audio {
                None => Err(ReceiveCaptureError::Failed),
                Some(audio_data) => match self.audio_frames.track(audio_data) {
                    None => Err(ReceiveCaptureError::Poisoned),
                    Some(id) => Ok(
                        ReceiveCaptureResult::Audio(
                            AudioFrame {
                                id,
                                parent: self.instance,
                                sample_rate: audio_data.sample_rate,
                                channel_count: audio_data.no_channels,
                                sample_count: audio_data.no_samples,
                                timecode: audio_data.timecode,
                                timestamp: audio_data.timestamp,
                            },
                        ),
                    ),
                },
            },
            ReceiveCaptureResultType::Empty => Ok(ReceiveCaptureResult::Empty),
            _ => Err(ReceiveCaptureError::Invalid),
        }
    }
}

/// What the runtime is asked for when a receiver is created.
#[derive(Clone, Copy, Debug, PartialEq, Eq, Structural)]
pub struct ReceiveCreateProps {
    /// Code of the pixel formats that are asked for.
    pub color_format: u32,
    /// Code of the bandwidth that is asked for.
    pub bandwidth: i32,
    /// Whether interlaced video may arrive as single fields.
    pub allow_video_fields: bool,
}

impl ReceiveCreateProps {
    /// The settings of a receiver with this bandwidth and these pixel formats.
    /// It is connected to nothing at first, goes by no name of its own, and
    /// takes interlaced video as whole frames.
    pub fn new(bandwidth: ReceiveBandwidth, color_format: ReceiveColorFormat) -> (props: Self)
        ensures
            props == (ReceiveCreateProps {
                color_format: color_format.spec_code(),
                bandwidth: bandwidth.spec_code(),
                allow_video_fields: false,
            }),
    {
        ReceiveCreateProps {
            color_format: color_format.code(),
            bandwidth: bandwidth.code(),
            allow_video_fields: false,
        }
    }
}

/// Makes the receiver for a connection that the runtime was asked to create.
/// `connection` is the address that the runtime answered with, 0 when it
/// created nothing; there is a receiver, with no frame yet, exactly when it is
/// not 0.
pub fn create_receive_instance(connection: usize) -> (r: Result<
    ReceiveInstance,
    ReceiveCreateError,
>)
    ensures
        match r {
            Ok(receiver) => {
                &&& connection != 0
                &&& receiver.spec_connection() == connection
                &&& receiver@ == ReceiveModel::empty()
            },
            Err(e) => connection == 0 && e == ReceiveCreateError::Failed,
        },
{
    if connection == 0 {
        Err(ReceiveCreateError::Failed)
    } else {
        Ok(
            ReceiveInstance {
                instance: connection,
                video_frames: ReceiveDataStore::new(),
                audio_frames: ReceiveDataStore::new(),
            },
        )
    }
}

/// Releasing one frame leaves every other frame as readable as it was: the
/// window onto another video frame, and onto any audio frame, stays where it
/// is and as long as it is.
pub proof fn lemma_release_leaves_others_readable(m: ReceiveModel, released: usize, other: usize)
    ensures
        released != other ==> m.free_video(released).video_span(other) == m.video_span(other),
        released != other ==> m.free_audio(released).audio_span(other) == m.audio_span(other),
        m.free_video(released).audio_span(other) == m.audio_span(other),
        m.free_audio(released).video_span(other) == m.video_span(other),
        m.free_video(released).video_span(released) is None,
        m.free_audio(released).audio_span(released) is None,
{
}

/// The window onto a frame depends on nothing but the descriptor of that frame:
/// in any two states of a receiver that hold the frame with the same
/// descriptor, the window lies at the same address and has the same length,
/// stride times height. So two windows that are opened one after the other,
/// with no change to the frame in between, are equally long.
pub proof fn lemma_span_depends_on_descriptor_alone(a: ReceiveModel, b: ReceiveModel, id: usize)
    ensures
        a.video.entries.contains_key(id) && b.video.entries.contains_key(id)
            && a.video.entries[id] == b.video.entries[id] ==> a.video_span(id) == b.video_span(id),
        a.audio.entries.contains_key(id) && b.audio.entries.contains_key(id)
            && a.audio.entries[id] == b.audio.entries[id] ==> a.audio_span(id) == b.audio_span(id),
        a.video_span(id) matches Some((_, len)) ==> len == a.video.entries[id].line_stride_in_bytes
            * a.video.entries[id].yres,
        a.audio_span(id) matches Some((_, len)) ==> len == (
        a.audio.entries[id].channel_stride_in_bytes * a.audio.entries[id].no_channels) / 4,
{
}

/// A capture disturbs no frame that is outstanding: whatever the runtime
/// reported, the window onto every frame that the receiver held before is
/// what it was.
pub proof fn lemma_capture_leaves_others_readable(
    m: ReceiveModel,
    captured: u32,
    video: Option<VideoDescriptor>,
    audio: Option<AudioDescriptor>,
    id: usize,
)
    requires
        m.wf(),
    ensures
        m.after_capture(captured, video, audio).wf(),
        m.video.entries.contains_key(id) ==> m.after_capture(captured, video, audio).video_span(id)
            == m.video_span(id),
        m.audio.entries.contains_key(id) ==> m.after_capture(captured, video, audio).audio_span(id)
            == m.audio_span(id),
{
}

/// Two video captures in a row that both give a handle give handles with
/// different ids, and the second frame is still outstanding, with the
/// descriptor it was captured with, after the first has been released.
pub proof fn lemma_sequential_captures_are_independent(
    m: ReceiveModel,
    first: VideoDescriptor,
    second: VideoDescriptor,
)
    requires
        m.video.issued() is Some,
        m.after_capture(FRAME_TYPE_VIDEO, Some(first), None).video.issued() is Some,
    ensures
        ({
            let a = m.video.issued()->0;
            let m1 = m.after_capture(FRAME_TYPE_VIDEO, Some(first), None);
            let b = m1.video.issued()->0;
            let m2 = m1.after_capture(FRAME_TYPE_VIDEO, Some(second), None);
            &&& a < b
            &&& m2.video.entries.contains_key(a)
            &&& m2.video.entries.contains_key(b)
            &&& m2.free_video(a).video.entries.contains_key(b)
            &&& m2.free_video(a).video.entries[b] == second
        }),
{
}

/// A frame that was released is not freed again when the receiver ends: the
/// teardown of what is left after the release of `id` holds no command for
/// `id`.
pub proof fn lemma_released_video_is_not_freed_again(
    before: ReceiveModel,
    id: usize,
    connection: usize,
    commands: Seq<ReceiveCommand>,
)
    requires
        is_teardown_of(commands, before.free_video(id), connection),
    ensures
        forall|i: int| 0 <= i < commands.len() ==> !(#[trigger] commands[i]).frees_video(id),
{
    let after = before.free_video(id);
    let n = after.video.entries.dom().len() as int;
    let m = after.audio.entries.dom().len() as int;
    assert forall|i: int| 0 <= i < commands.len() implies !(#[trigger] commands[i]).frees_video(
        id,
    ) by {
        if i < n {
            assert(commands[i] is FreeVideo);
        } else if i < n + m {
            assert(commands[i] is FreeAudio);
        }
    }
}

/// The end of a receiver frees nothing but frames that were captured on it:
/// every id in the teardown is one that the receiver has issued.
pub proof fn lemma_teardown_frees_only_tracked_frames(
    before: ReceiveModel,
    connection: usize,
    commands: Seq<ReceiveCommand>,
)
    requires
        before.wf(),
        is_teardown_of(commands, before, connection),
    ensures
        commands.len() - 1 == before.video.entries.dom().len() + before.audio.entries.dom().len(),
        forall|i: int, id: usize|
            0 <= i < commands.len() && #[trigger] commands[i].frees_video(id) ==> id
                < before.video.next_id,
        forall|i: int, id: usize|
            0 <= i < commands.len() && #[trigger] commands[i].frees_audio(id) ==> id
                < before.audio.next_id,
{
    let n = before.video.entries.dom().len() as int;
    let m = before.audio.entries.dom().len() as int;
    assert forall|i: int, id: usize|
        0 <= i < commands.len() && #[trigger] commands[i].frees_video(id) implies id
        < before.video.next_id by {
        if i < n {
            assert(commands[i] is FreeVideo);
        } else if i < n + m {
            assert(commands[i] is FreeAudio);
        }
    }
    assert forall|i: int, id: usize|
        0 <= i < commands.len() && #[trigger] commands[i].frees_audio(id) implies id
        < before.audio.next_id by {
        if i < n {
            assert(commands[i] is FreeVideo);
        } else if i < n + m {
            assert(commands[i] is FreeAudio);
        }
    }
}

/// An audio frame that was released is not freed again when the receiver ends.
pub proof fn lemma_released_audio_is_not_freed_again(
    before: ReceiveModel,
    id: usize,
    connection: usize,
    commands: Seq<ReceiveCommand>,
)
    requires
        is_teardown_of(commands, before.free_audio(id), connection),
    ensures
        forall|i: int| 0 <= i < commands.len() ==> !(#[trigger] commands[i]).frees_audio(id),
{
    let after = before.free_audio(id);
    let n = after.video.entries.dom().len() as int;
    let m = after.audio.entries.dom().len() as int;
    assert forall|i: int| 0 <= i < commands.len() implies !(#[trigger] commands[i]).frees_audio(
        id,
    ) by {
        if i < n {
            assert(commands[i] is FreeVideo);
        } else if i < n + m {
            assert(commands[i] is FreeAudio);
        }
    }
}

/// One step in the life of a receiver.
pub enum ReceiveOp {
    /// A capture in which the runtime reported `captured` and the descriptors
    /// came back as `video` and `audio`.
    Capture { captured: u32, video: Option<VideoDescriptor>, audio: Option<AudioDescriptor> },
    /// The release of the video frame `id`.
    FreeVideo { id: usize },
    /// The release of the audio frame `id`.
    FreeAudio { id: usize },
}

impl ReceiveModel {
    /// The state after one step.
    pub open spec fn step(self, op: ReceiveOp) -> Self {
        match op {
            ReceiveOp::Capture { captured, video, audio } => self.after_capture(
                captured,
                video,
                audio,
            ),
            ReceiveOp::FreeVideo { id } => self.free_video(id),
            ReceiveOp::FreeAudio { id } => self.free_audio(id),
        }
    }

    /// The state after a history of steps.
    pub open spec fn run(self, ops: Seq<ReceiveOp>) -> Self
        decreases ops.len(),
    {
        if ops.len() == 0 {
            self
        } else {
            self.run(ops.drop_last()).step(ops.last())
        }
    }
}

/// What a history of a receiver does to its registry of video frames.
pub open spec fn video_history(ops: Seq<ReceiveOp>) -> Seq<StoreOp<VideoDescriptor>>
    decreases ops.len(),
{
    if ops.len() == 0 {
        Seq::empty()
    } else {
        let earlier = video_history(ops.drop_last());
        match ops.last() {
            ReceiveOp::Capture { captured, video: Some(d), .. } => if captured == FRAME_TYPE_VIDEO {
                earlier.push(StoreOp::Track(d))
            } else {
                earlier
            },
            ReceiveOp::FreeVideo { id } => earlier.push(StoreOp::Remove(id)),
            _ => earlier,
        }
    }
}

/// What a history of a receiver does to its registry of audio frames.
pub open spec fn audio_history(ops: Seq<ReceiveOp>) -> Seq<StoreOp<AudioDescriptor>>
    decreases ops.len(),
{
    if ops.len() == 0 {
        Seq::empty()
    } else {
        let earlier = audio_history(ops.drop_last());
        match ops.last() {
            ReceiveOp::Capture { captured, audio: Some(d), .. } => if captured == FRAME_TYPE_AUDIO {
                earlier.push(StoreOp::Track(d))
            } else {
                earlier
            },
            ReceiveOp::FreeAudio { id } => earlier.push(StoreOp::Remove(id)),
            _ => earlier,
        }
    }
}

/// Some command of `commands` frees the video frame `id`.
pub open spec fn teardown_frees_video(commands: Seq<ReceiveCommand>, id: usize) -> bool {
    exists|i: int| 0 <= i < commands.len() && #[trigger] commands[i].frees_video(id)
}

/// Some command of `commands` frees the audio frame `id`.
pub open spec fn teardown_frees_audio(commands: Seq<ReceiveCommand>, id: usize) -> bool {
    exists|i: int| 0 <= i < commands.len() && #[trigger] commands[i].frees_audio(id)
}

/// The two registries of a receiver go through its history each on its own.
pub proof fn lemma_receiver_runs_its_stores(m: ReceiveModel, ops: Seq<ReceiveOp>)
    ensures
        m.run(ops).video == m.video.run(video_history(ops)),
        m.run(ops).audio == m.audio.run(audio_history(ops)),
    decreases ops.len(),
{
    if ops.len() > 0 {
        lemma_receiver_runs_its_stores(m, ops.drop_last());
        let v = video_history(ops.drop_last());
        let a = audio_history(ops.drop_last());
        match ops.last() {
            ReceiveOp::Capture { captured, video, audio } => {
                if captured == FRAME_TYPE_VIDEO && video is Some {
                    let op = StoreOp::Track(video->0);
                    assert(v.push(op).drop_last() =~= v);
                } else if captured == FRAME_TYPE_AUDIO && audio is Some {
                    let op = StoreOp::Track(audio->0);
                    assert(a.push(op).drop_last() =~= a);
                }
            },
            ReceiveOp::FreeVideo { id } => {
                let op = StoreOp::<VideoDescriptor>::Remove(id);
                assert(v.push(op).drop_last() =~= v);
            },
            ReceiveOp::FreeAudio { id } => {
                let op = StoreOp::<AudioDescriptor>::Remove(id);
                assert(a.push(op).drop_last() =~= a);
            },
        }
    }
}

/// The end of a receiver frees exactly the frames that it holds.
pub proof fn lemma_teardown_frees_what_is_held(
    held: ReceiveModel,
    connection: usize,
    commands: Seq<ReceiveCommand>,
    id: usize,
)
    requires
        is_teardown_of(commands, held, connection),
    ensures
        teardown_frees_video(commands, id) <==> held.video.entries.contains_key(id),
        teardown_frees_audio(commands, id) <==> held.audio.entries.contains_key(id),
{
    let n = held.video.entries.dom().len() as int;
    let m = held.audio.entries.dom().len() as int;
    if teardown_frees_video(commands, id) {
        let i = choose|i: int| 0 <= i < commands.len() && #[trigger] commands[i].frees_video(id);
        if i < n {
            assert(commands[i] is FreeVideo);
        } else if i < n + m {
            assert(commands[i] is FreeAudio);
        }
    }
    if held.video.entries.contains_key(id) {
        let i = choose|i: int|
            0 <= i < n && #[trigger] commands[i] == (ReceiveCommand::FreeVideo {
                id,
                frame: held.video.entries[id],
            });
        assert(commands[i].frees_video(id));
    }
    if teardown_frees_audio(commands, id) {
        let i = choose|i: int| 0 <= i < commands.len() && #[trigger] commands[i].frees_audio(id);
        if i < n {
            assert(commands[i] is FreeVideo);
        } else if i < n + m {
            assert(commands[i] is FreeAudio);
        }
    }
    if held.audio.entries.contains_key(id) {
        let i = choose|i: int|
            n <= i < n + m && #[trigger] commands[i] == (ReceiveCommand::FreeAudio {
                id,
                frame: held.audio.entries[id],
            });
        assert(commands[i].frees_audio(id));
    }
}

/// Over the whole life of a receiver the memory of every frame goes back to
/// the runtime exactly once. Take any history of captures and releases and the
/// teardown at its end: each frame that the receiver held at the start or
/// captured on the way was freed by a release or is freed by the teardown, and
/// never by both; and nothing else is freed.
pub proof fn lemma_every_frame_is_freed_exactly_once(
    m: ReceiveModel,
    ops: Seq<ReceiveOp>,
    connection: usize,
    commands: Seq<ReceiveCommand>,
    id: usize,
)
    requires
        m.wf(),
        is_teardown_of(commands, m.run(ops), connection),
    ensures
        (m.video.entries.contains_key(id) || m.video.issued_ids(video_history(ops)).contains(id))
            <==> (m.video.removed_ids(video_history(ops)).contains(id) || teardown_frees_video(
            commands,
            id,
        )),
        !(m.video.removed_ids(video_history(ops)).contains(id) && teardown_frees_video(
            commands,
            id,
        )),
        (m.audio.entries.contains_key(id) || m.audio.issued_ids(audio_history(ops)).contains(id))
            <==> (m.audio.removed_ids(audio_history(ops)).contains(id) || teardown_frees_audio(
            commands,
            id,
        )),
        !(m.audio.removed_ids(audio_history(ops)).contains(id) && teardown_frees_audio(
            commands,
            id,
        )),
{
    let vh = video_history(ops);
    let ah = audio_history(ops);
    lemma_receiver_runs_its_stores(m, ops);
    lemma_teardown_frees_what_is_held(m.run(ops), connection, commands, id);
    lemma_descriptors_are_conserved(m.video, vh);
    lemma_descriptors_are_conserved(m.audio, ah);
    assert(m.video.run(vh).entries.dom().union(m.video.removed_ids(vh)).contains(id)
        <==> m.video.entries.dom().union(m.video.issued_ids(vh)).contains(id));
    assert(m.audio.run(ah).entries.dom().union(m.audio.removed_ids(ah)).contains(id)
        <==> m.audio.entries.dom().union(m.audio.issued_ids(ah)).contains(id));
}

} // verus!
