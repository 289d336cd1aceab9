//! The sending side: building frames, and keeping a submitted frame alive for
//! as long as the runtime may still read it.

use crate::sdk::{
    AudioDescriptor, VideoDescriptor, BYTES_PER_SAMPLE, FOURCC_BGRA, FOURCC_BGRX, FOURCC_I420,
    FOURCC_NV12, FOURCC_RGBA, FOURCC_RGBX, FOURCC_UYVA, FOURCC_UYVY, FOURCC_YV12,
    FRAME_FORMAT_FIELD_0, FRAME_FORMAT_FIELD_1, FRAME_FORMAT_INTERLEAVED,
    FRAME_FORMAT_PROGRESSIVE, SEND_TIMECODE_SYNTHESIZE,
};
use crate::util::{has_nul, is_c_string_of, to_c_string};
use vstd::prelude::*;
use vstd::utf8::encode_utf8;

verus! {

/// How the lines of a video frame that is sent are laid out in time.
#[derive(Debug, PartialEq, Eq, Copy, Clone, Structural)]
pub enum FrameFormatType {
    Progressive,
    Interleaved,
    Field0,
    Field1,
}

impl FrameFormatType {
    /// The code that the runtime uses for this layout.
    pub open spec fn spec_code(self) -> u32 {
        match self {
            FrameFormatType::Progressive => FRAME_FORMAT_PROGRESSIVE,
            FrameFormatType::Interleaved => FRAME_FORMAT_INTERLEAVED,
            FrameFormatType::Field0 => FRAME_FORMAT_FIELD_0,
            FrameFormatType::Field1 => FRAME_FORMAT_FIELD_1,
        }
    }

    /// Returns the code that the runtime uses for this layout.
    #[verifier::when_used_as_spec(spec_code)]
    pub fn code(self) -> (c: u32)
        ensures
            c == self.spec_code(),
    {
        match self {
            FrameFormatType::Progressive => FRAME_FORMAT_PROGRESSIVE,
            FrameFormatType::Interleaved => FRAME_FORMAT_INTERLEAVED,
            FrameFormatType::Field0 => FRAME_FORMAT_FIELD_0,
            FrameFormatType::Field1 => FRAME_FORMAT_FIELD_1,
        }
    }
}

/// The pixel format of a video frame that is sent.
#[derive(Debug, PartialEq, Eq, Copy, Clone, Structural)]
pub enum SendColorFormat {
    Uyvy,
    Yv12,
    Nv12,
    I420,
    Bgra,
    Bgrx,
    Rgba,
    Rgbx,
    Uyva,
}

impl SendColorFormat {
    /// The code that the runtime uses for this pixel format.
    pub open spec fn spec_code(self) -> u32 {
        match self {
            SendColorFormat::Uyvy => FOURCC_UYVY,
            SendColorFormat::Yv12 => FOURCC_YV12,
            SendColorFormat::Nv12 => FOURCC_NV12,
            SendColorFormat::I420 => FOURCC_I420,
            SendColorFormat::Bgra => FOURCC_BGRA,
            SendColorFormat::Bgrx => FOURCC_BGRX,
            SendColorFormat::Rgba => FOURCC_RGBA,
            SendColorFormat::Rgbx => FOURCC_RGBX,
            SendColorFormat::Uyva => FOURCC_UYVA,
        }
    }

    /// Returns the code that the runtime uses for this pixel format.
    #[verifier::when_used_as_spec(spec_code)]
    pub fn code(self) -> (c: u32)
        ensures
            c == self.spec_code(),
    {
        match self {
            SendColorFormat::Uyvy => FOURCC_UYVY,
            SendColorFormat::Yv12 => FOURCC_YV12,
            SendColorFormat::Nv12 => FOURCC_NV12,
            SendColorFormat::I420 => FOURCC_I420,
            SendColorFormat::Bgra => FOURCC_BGRA,
            SendColorFormat::Bgrx => FOURCC_BGRX,
            SendColorFormat::Rgba => FOURCC_RGBA,
            SendColorFormat::Rgbx => FOURCC_RGBX,
            SendColorFormat::Uyva => FOURCC_UYVA,
        }
    }
}

/// Why no sender, or no frame to send, came to be.
#[derive(Debug, PartialEq, Eq, Copy, Clone, Structural)]
pub enum SendCreateError {
    /// A text that was to go to the runtime holds a zero byte.
    InvalidName,
    /// The runtime did not create an output, or the frame has no size that a
    /// buffer can have.
    Failed,
}

/// `data` cut or filled up with zero bytes to the length `len`.
pub open spec fn resized(data: Seq<u8>, len: int) -> Seq<u8> {
    if len <= data.len() {
        data.take(len)
    } else {
        data + Seq::new((len - data.len()) as nat, |i: int| 0u8)
    }
}

/// A video frame in the making.
pub struct NDISendVideoFrameBuilder {
    instance: VideoDescriptor,
    metadata: Option<String>,
    data: Vec<u8>,
}

impl NDISendVideoFrameBuilder {
    /// The descriptor as it stands.
    pub closed spec fn descriptor(&self) -> VideoDescriptor {
        self.instance
    }

    /// The metadata text as it stands.
    pub closed spec fn metadata(&self) -> Option<Seq<char>> {
        match self.metadata {
            Some(text) => Some(text@),
            None => None,
        }
    }

    /// The pixel data as it stands.
    pub closed spec fn data(&self) -> Seq<u8> {
        self.data@
    }

    /// Sets the frame rate to `num / den`.
    pub fn with_framerate(self, num: i32, den: i32) -> (b: Self)
        ensures
            b.descriptor() == (VideoDescriptor {
                frame_rate_n: num,
                frame_rate_d: den,
                ..self.descriptor()
            }),
            b.metadata() == self.metadata(),
            b.data() == self.data(),
    {
        let mut b = self;
        b.instance.frame_rate_n = num;
        b.instance.frame_rate_d = den;
        b
    }

    /// Sets the picture aspect ratio, given as the bits of a single-precision
    /// number.
    pub fn with_aspect_ratio(self, aspect_ratio: u32) -> (b: Self)
        ensures
            b.descriptor() == (VideoDescriptor {
                picture_aspect_ratio: aspect_ratio,
                ..self.descriptor()
            }),
            b.metadata() == self.metadata(),
            b.data() == self.data(),
    {
        let mut b = self;
        b.instance.picture_aspect_ratio = aspect_ratio;
        b
    }

    /// Sets the timecode.
    pub fn with_timecode(self, timecode: i64) -> (b: Self)
        ensures
            b.descriptor() == (VideoDescriptor { timecode, ..self.descriptor() }),
            b.metadata() == self.metadata(),
            b.data() == self.data(),
    {
        let mut b = self;
        b.instance.timecode = timecode;
        b
    }

    /// Sets the pixel data, the distance in bytes from one line to the next,
    /// and the pixel format.
    pub fn with_data(self, data: Vec<u8>, line_stride: i32, format: SendColorFormat) -> (b: Self)
        ensures
            b.descriptor() == (VideoDescriptor {
                line_stride_in_bytes: line_stride,
                four_cc: format.spec_code(),
                ..self.descriptor()
            }),
            b.metadata() == self.metadata(),
            b.data() == data@,
    {
        let mut b = self;
        b.data = data;
        b.instance.line_stride_in_bytes = line_stride;
        b.instance.four_cc = format.code();
        b
    }

    /// Sets the metadata text.
    pub fn with_metadata(self, metadata: String) -> (b: Self)
        ensures
            b.descriptor() == self.descriptor(),
            b.metadata() == Some(metadata@),
            b.data() == self.data(),
    {
        let mut b = self;
        b.metadata = Some(metadata);
        b
    }

    /// Sets the timestamp.
    pub fn with_timestamp(self, timestamp: i64) -> (b: Self)
        ensures
            b.descriptor() == (VideoDescriptor { timestamp, ..self.descriptor() }),
            b.metadata() == self.metadata(),
            b.data() == self.data(),
    {
        let mut b = self;
        b.instance.timestamp = timestamp;
        b
    }

    /// The frame can be built: the metadata, if there is any, holds no zero
    /// byte, and stride times height is a size that a buffer can have on this
    /// machine.
    pub open spec fn buildable(&self) -> bool {
        &&& self.metadata() matches Some(text) ==> !has_nul(encode_utf8(text))
        &&& self.descriptor().line_stride_in_bytes >= 0
        &&& self.descriptor().yres >= 0
        &&& self.descriptor().data_len() <= isize::MAX
    }

    /// Finishes the frame. The pixel data is cut, or filled up with zero
    /// bytes, to stride times height, so that the runtime never reads past its
    /// end; the metadata gets a buffer of its own that ends in a zero byte.
    ///
    /// Fails with `InvalidName` when the metadata holds a zero byte, else with
    /// `Failed` when the stride or the height is negative or their product is
    /// more than a buffer can hold on this machine.
    pub fn build(self) -> (r: Result<NDISendVideoFrame, SendCreateError>)
        ensures
            match r {
                Ok(frame) => {
                    &&& self.buildable()
                    &&& frame.spec_descriptor() == self.descriptor()
                    &&& frame.spec_data() == resized(self.data(), self.descriptor().data_len())
                    &&& match self.metadata() {
                        Some(text) => frame.spec_metadata() matches Some(m) && is_c_string_of(m, text),
                        None => frame.spec_metadata() is None,
                    }
                },
                Err(e) => {
                    &&& !self.buildable()
                    &&& e == if self.metadata() matches Some(text) && has_nul(encode_utf8(text)) {
                        SendCreateError::InvalidName
                    } else {
                        SendCreateError::Failed
                    }
                },
            },
    {
        let metadata = match &self.metadata {
            None => None,
            Some(text) => match to_c_string(text.as_str()) {
                Ok(buffer) => Some(buffer),
                Err(_) => {
                    return Err(SendCreateError::InvalidName);
                },
            },
        };
        if self.instance.line_stride_in_bytes < 0 || self.instance.yres < 0 {
            return Err(SendCreateError::Failed);
        }
        let stride: u64 = self.instance.line_stride_in_bytes as u64;
        let lines: u64 = self.instance.yres as u64;
        assert(stride * lines <= 0x7fff_ffff * 0x7fff_ffff) by (nonlinear_arith)
            requires
                0 <= stride <= 0x7fff_ffff,
                0 <= lines <= 0x7fff_ffff,
        ;
        let total: u64 = stride * lines;
        if total > isize::MAX as u64 {
            return Err(SendCreateError::Failed);
        }
        let len: usize = total as usize;
        let mut data = self.data;
        let ghost before = data@;
        data.resize(len, 0u8);
        assert(data@ =~= resized(before, len as int));
        Ok(NDISendVideoFrame { instance: self.instance, metadata, data })
    }
}

/// Starts a video frame of `width` by `height` pixels. Until it is told
/// otherwise the frame is BGRA, has no data, no frame rate and no metadata,
/// and leaves its timecode to the runtime.
pub fn create_ndi_send_video_frame(
    width: i32,
    height: i32,
    frame_type: FrameFormatType,
) -> (b: NDISendVideoFrameBuilder)
    ensures
        b.descriptor() == (VideoDescriptor {
            xres: width,
            yres: height,
            four_cc: FOURCC_BGRA,
            frame_format_type: frame_type.spec_code(),
            timecode: SEND_TIMECODE_SYNTHESIZE,
            ..VideoDescriptor::spec_zeroed()
        }),
        b.metadata() is None,
        b.data() == Seq::<u8>::empty(),
{
    NDISendVideoFrameBuilder {
        instance: VideoDescriptor {
            xres: width,
            yres: height,
            four_cc: FOURCC_BGRA,
            frame_rate_n: 0,
            frame_rate_d: 0,
            picture_aspect_ratio: 0,
            frame_format_type: frame_type.code(),
            timecode: SEND_TIMECODE_SYNTHESIZE,
            data: 0,
            line_stride_in_bytes: 0,
            metadata: 0,
            timestamp: 0,
        },
        metadata: None,
        data: Vec::new(),
    }
}

/// A video frame that is ready to be sent. It owns its pixel data and its
/// metadata; the runtime reads both where they lie.
pub struct NDISendVideoFrame {
    instance: VideoDescriptor,
    metadata: Option<Vec<u8>>,
    data: Vec<u8>,
}

impl NDISendVideoFrame {
    #[verifier::type_invariant]
    spec fn inv(&self) -> bool {
        &&& self.instance.line_stride_in_bytes >= 0
        &&& self.instance.yres >= 0
        &&& self.data@.len() == self.instance.data_len()
        &&& self.metadata matches Some(m) ==> m@.len() > 0 && m@.last() == 0u8
    }

    /// The descriptor of the frame. Its two addresses are 0: they are known
    /// only when the frame is handed over.
    pub closed spec fn spec_descriptor(&self) -> VideoDescriptor {
        self.instance
    }

    /// The pixel data.
    pub closed spec fn spec_data(&self) -> Seq<u8> {
        self.data@
    }

    /// The metadata, zero byte at the end included.
    pub closed spec fn spec_metadata(&self) -> Option<Seq<u8>> {
        match self.metadata {
            Some(m) => Some(m@),
            None => None,
        }
    }

    /// Returns the descriptor of the frame.
    #[verifier::when_used_as_spec(spec_descriptor)]
    pub fn descriptor(&self) -> (d: VideoDescriptor)
        ensures
            d == self.spec_descriptor(),
            d.line_stride_in_bytes >= 0,
            d.yres >= 0,
            d.data_len() == self.spec_data().len(),
    {
        proof {
            use_type_invariant(self);
        }
        self.instance
    }

    /// Returns the pixel data: as many bytes as the descriptor says, stride
    /// times height.
    pub fn data(&self) -> (d: &Vec<u8>)
        ensures
            d@ == self.spec_data(),
            d@.len() == self.spec_descriptor().data_len(),
    {
        proof {
            use_type_invariant(self);
        }
        &self.data
    }

    /// Returns the metadata as the runtime reads it: text that ends in a zero
    /// byte.
    pub fn metadata(&self) -> (m: Option<&Vec<u8>>)
        ensures
            match m {
                Some(buffer) => self.spec_metadata() == Some(buffer@) && buffer@.len() > 0
                    && buffer@.last() == 0u8,
                None => self.spec_metadata() is None,
            },
    {
        proof {
            use_type_invariant(self);
        }
        match &self.metadata {
            Some(buffer) => Some(buffer),
            None => None,
        }
    }
}

/// An audio frame in the making. `S` is the type of one sample; nothing here
/// looks into a sample.
pub struct NDISendAudioFrameBuilder<S> {
    instance: AudioDescriptor,
    data: Vec<S>,
}

impl<S> NDISendAudioFrameBuilder<S> {
    /// The descriptor as it stands.
    pub closed spec fn descriptor(&self) -> AudioDescriptor {
        self.instance
    }

    /// The sample data as it stands.
    pub closed spec fn data(&self) -> Seq<S> {
        self.data@
    }

    /// Sets the timecode.
    pub fn with_timecode(self, timecode: i64) -> (b: Self)
        ensures
            b.descriptor() == (AudioDescriptor { timecode, ..self.descriptor() }),
            b.data() == self.data(),
    {
        let mut b = self;
        b.instance.timecode = timecode;
        b
    }

    /// Sets the sample data and the number of samples in each channel. The
    /// distance from one channel to the next becomes that number of samples,
    /// in bytes.
    pub fn with_data(self, data: Vec<S>, sample_count: i32) -> (b: Self)
        requires
            i32::MIN <= sample_count * BYTES_PER_SAMPLE <= i32::MAX,
        ensures
            b.descriptor() == (AudioDescriptor {
                no_samples: sample_count,
                channel_stride_in_bytes: (sample_count * BYTES_PER_SAMPLE) as i32,
                ..self.descriptor()
            }),
            b.data() == data@,
    {
        let mut b = self;
        b.data = data;
        b.instance.no_samples = sample_count;
        b.instance.channel_stride_in_bytes = sample_count * BYTES_PER_SAMPLE;
        b
    }

    /// Sets the timestamp.
    pub fn with_timestamp(self, timestamp: i64) -> (b: Self)
        ensures
            b.descriptor() == (AudioDescriptor { timestamp, ..self.descriptor() }),
            b.data() == self.data(),
    {
        let mut b = self;
        b.instance.timestamp = timestamp;
        b
    }

    /// Finishes the frame, with the descriptor and the samples as they stand.
    /// This never fails.
    pub fn build(self) -> (r: Result<NDISendAudioFrame<S>, SendCreateError>)
        ensures
            r matches Ok(frame) && frame.spec_descriptor() == self.descriptor()
                && frame.spec_data() == self.data(),
    {
        Ok(NDISendAudioFrame { instance: self.instance, data: self.data })
    }
}

/// Starts an audio frame with `channel_count` channels at `sample_rate`
/// samples per second. Until it is told otherwise the frame has no samples and
/// leaves its timecode to the runtime.
pub fn create_ndi_send_audio_frame<S>(channel_count: i32, sample_rate: i32) -> (b:
    NDISendAudioFrameBuilder<S>)
    ensures
        b.descriptor() == (AudioDescriptor {
            sample_rate,
            no_channels: channel_count,
            timecode: SEND_TIMECODE_SYNTHESIZE,
            ..AudioDescriptor::spec_zeroed()
        }),
        b.data() == Seq::<S>::empty(),
{
    NDISendAudioFrameBuilder {
        instance: AudioDescriptor {
            sample_rate,
            no_channels: channel_count,
            no_samples: 0,
            timecode: SEND_TIMECODE_SYNTHESIZE,
            data: 0,
            channel_stride_in_bytes: 0,
            metadata: 0,
            timestamp: 0,
        },
        data: Vec::new(),
    }
}

/// An audio frame that is ready to be sent. It owns its samples; the runtime
/// reads them where they lie.
pub struct NDISendAudioFrame<S> {
    instance: AudioDescriptor,
    data: Vec<S>,
}

impl<S> NDISendAudioFrame<S> {
    /// The descriptor of the frame. Its two addresses are 0: they are known
    /// only when the frame is handed over.
    pub closed spec fn spec_descriptor(&self) -> AudioDescriptor {
        self.instance
    }

    /// The sample data.
    pub closed spec fn spec_data(&self) -> Seq<S> {
        self.data@
    }

    /// Returns the descriptor of the frame.
    #[verifier::when_used_as_spec(spec_descriptor)]
    pub fn descriptor(&self) -> (d: AudioDescriptor)
        ensures
            d == self.spec_descriptor(),
    {
        self.instance
    }

    /// Returns the sample data.
    pub fn data(&self) -> (d: &Vec<S>)
        ensures
            d@ == self.spec_data(),
    {
        &self.data
    }
}

/// What the runtime has to be asked to do when a sender goes away.
#[derive(Clone, Copy, Debug, PartialEq, Eq, Structural)]
pub enum SendCommand {
    /// Submit no frame, so that the runtime lets go of the one it may still be
    /// reading.
    Flush,
    /// Destroy the output.
    Destroy { connection: usize },
}

/// A sender: one output of the runtime, and the video frame that the runtime
/// may still be reading.
///
/// There is at most one such frame. It is kept here until the next video
/// frame is submitted or the output is flushed, and is given back to the
/// caller only then.
pub struct SendInstance {
    instance: usize,
    in_flight_video: Option<NDISendVideoFrame>,
}

impl SendInstance {
    /// The address of the output in the runtime.
    pub closed spec fn spec_connection(&self) -> usize {
        self.instance
    }

    /// The frame that the runtime may still be reading.
    pub closed spec fn in_flight(&self) -> Option<NDISendVideoFrame> {
        self.in_flight_video
    }

    /// Returns the address of the output in the runtime.
    #[verifier::when_used_as_spec(spec_connection)]
    pub fn connection(&self) -> (connection: usize)
        ensures
            connection == self.spec_connection(),
    {
        self.instance
    }

    /// Returns the frame that the runtime may still be reading.
    pub fn in_flight_video(&self) -> (frame: Option<&NDISendVideoFrame>)
        ensures
            match frame {
                Some(f) => self.in_flight() == Some(*f),
                None => self.in_flight() is None,
            },
    {
        match &self.in_flight_video {
            Some(frame) => Some(frame),
            None => None,
        }
    }

    /// Records that `frame` was submitted. Every submission is taken as one
    /// that the runtime may go on reading, so the frame is kept as the one in
    /// flight. What comes back is the frame that was in flight before: the
    /// runtime has let go of it and the caller may drop it.
    pub fn send_video(&mut self, frame: NDISendVideoFrame) -> (retired: Option<NDISendVideoFrame>)
        ensures
            final(self).in_flight() == Some(frame),
            retired == old(self).in_flight(),
            final(self).spec_connection() == old(self).spec_connection(),
    {
        let mut slot = Some(frame);
        std::mem::swap(&mut slot, &mut self.in_flight_video);
        slot
    }

    /// Records that `frame` was submitted without waiting for the runtime to
    /// be done with it. The frame is kept as the one in flight. What comes
    /// back is the frame that was in flight before: by taking the new one the
    /// runtime has let go of it, and the caller may drop it.
    pub fn send_video_async(&mut self, frame: NDISendVideoFrame) -> (retired: Option<
        NDISendVideoFrame,
    >)
        ensures
            final(self).in_flight() == Some(frame),
            retired == old(self).in_flight(),
            final(self).spec_connection() == old(self).spec_connection(),
    {
        let mut slot = Some(frame);
        std::mem::swap(&mut slot, &mut self.in_flight_video);
        slot
    }

    /// Records that the output was flushed: no frame is in flight any more.
    /// What comes back is the frame that was, for the caller to drop. With no
    /// frame in flight this changes nothing and gives nothing back.
    pub fn send_video_flush(&mut self) -> (retired: Option<NDISendVideoFrame>)
        ensures
            final(self).in_flight() is None,
            retired == old(self).in_flight(),
            final(self).spec_connection() == old(self).spec_connection(),
            old(self).in_flight() is None ==> *final(self) == *old(self) && retired is None,
    {
        let mut slot = None;
        std::mem::swap(&mut slot, &mut self.in_flight_video);
        slot
    }

    /// Records that `frame` was submitted. The runtime is done with an audio
    /// frame when the submission returns, so nothing is kept: the sender stays
    /// as it was, and the frame ends here.
    pub fn send_audio<S>(&mut self, frame: NDISendAudioFrame<S>)
        ensures
            *final(self) == *old(self),
    {
    }

    /// Ends the sender. What comes back is what the runtime has to be asked,
    /// in this order: to flush, if a frame is in flight, and then to destroy
    /// the output; and with it the frame that was in flight, which the caller
    /// may drop once the flush is done.
    pub fn teardown(self) -> (r: (Vec<SendCommand>, Option<NDISendVideoFrame>))
        ensures
            r.1 == self.in_flight(),
            r.0@ == if self.in_flight() is Some {
                seq![SendCommand::Flush, SendCommand::Destroy { connection: self.spec_connection() }]
            } else {
                seq![SendCommand::Destroy { connection: self.spec_connection() }]
            },
    {
        let mut sender = self;
        let connection: usize = sender.instance;
        let mut commands: Vec<SendCommand> = Vec::new();
        let retired = if sender.in_flight_video.is_some() {
            commands.push(SendCommand::Flush);
            sender.send_video_flush()
        } else {
            None
        };
        commands.push(SendCommand::Destroy { connection });
        assert(commands@ =~= if self.in_flight() is Some {
            seq![SendCommand::Flush, SendCommand::Destroy { connection: self.spec_connection() }]
        } else {
            seq![SendCommand::Destroy { connection: self.spec_connection() }]
        });
        (commands, retired)
    }
}

/// What the runtime is asked for when a sender is created.
#[derive(Debug, PartialEq, Eq)]
pub struct SendCreateProps {
    /// The name under which the output is announced, ending in a zero byte.
    pub name: Vec<u8>,
    /// Whether submitting video is paced to the frame rate.
    pub clock_video: bool,
    /// Whether submitting audio is paced to the sample rate.
    pub clock_audio: bool,
}

impl SendCreateProps {
    /// The settings of a sender that is announced as `name`, in no group.
    /// Fails with `InvalidName` exactly when `name` holds a zero byte.
    pub fn new(name: &str, clock_video: bool, clock_audio: bool) -> (r: Result<
        Self,
        SendCreateError,
    >)
        ensures
            match r {
                Ok(props) => {
                    &&& is_c_string_of(props.name@, name@)
                    &&& props.clock_video == clock_video
                    &&& props.clock_audio == clock_audio
                },
                Err(e) => has_nul(encode_utf8(name@)) && e == SendCreateError::InvalidName,
            },
    {
        match to_c_string(name) {
            Ok(name) => Ok(SendCreateProps { name, clock_video, clock_audio }),
            Err(_) => Err(SendCreateError::InvalidName),
        }
    }
}

/// Makes the sender for an output that the runtime was asked to create.
/// `connection` is the address that the runtime answered with, 0 when it
/// created nothing; there is a sender, with no frame in flight, exactly when
/// it is not 0.
pub fn create_send_instance(connection: usize) -> (r: Result<SendInstance, SendCreateError>)
    ensures
        match r {
            Ok(sender) => {
                &&& connection != 0
                &&& sender.spec_connection() == connection
                &&& sender.in_flight() is None
            },
            Err(e) => connection == 0 && e == SendCreateError::Failed,
        },
{
    if connection == 0 {
        Err(SendCreateError::Failed)
    } else {
        Ok(SendInstance { instance: connection, in_flight_video: None })
    }
}

} // verus!
