use ndi_sdk::sdk::{AudioDescriptor, VideoDescriptor};
use ndi_sdk::send::{
    create_ndi_send_audio_frame, create_ndi_send_video_frame, create_send_instance,
    FrameFormatType, NDISendVideoFrame, SendColorFormat, SendCommand, SendCreateError,
    SendCreateProps, SendInstance,
};

const OUTPUT: usize = 0x5000;

fn sender() -> SendInstance {
    create_send_instance(OUTPUT).expect("an output was created")
}

fn frame(first_byte: u8) -> NDISendVideoFrame {
    create_ndi_send_video_frame(2, 2, FrameFormatType::Progressive)
        .with_data(vec![first_byte; 16], 8, SendColorFormat::Rgba)
        .build()
        .expect("the frame can be built")
}

#[test]
fn new_video_frame_has_the_defaults() {
    let frame = create_ndi_send_video_frame(1920, 1080, FrameFormatType::Interleaved)
        .build()
        .unwrap();
    assert_eq!(
        frame.descriptor(),
        VideoDescriptor {
            xres: 1920,
            yres: 1080,
            four_cc: u32::from_le_bytes(*b"BGRA"),
            frame_rate_n: 0,
            frame_rate_d: 0,
            picture_aspect_ratio: 0,
            frame_format_type: 0,
            timecode: i64::MAX,
            data: 0,
            line_stride_in_bytes: 0,
            metadata: 0,
            timestamp: 0,
        }
    );
    assert!(frame.data().is_empty());
    assert_eq!(frame.metadata(), None);
}

#[test]
fn video_builder_sets_each_field() {
    let frame = create_ndi_send_video_frame(4, 2, FrameFormatType::Field1)
        .with_framerate(60000, 1001)
        .with_aspect_ratio(1.5f32.to_bits())
        .with_timecode(-5)
        .with_data(vec![9; 32], 16, SendColorFormat::Uyvy)
        .with_metadata("<ndi/>".to_string())
        .with_timestamp(1234)
        .build()
        .unwrap();
    assert_eq!(
        frame.descriptor(),
        VideoDescriptor {
            xres: 4,
            yres: 2,
            four_cc: u32::from_le_bytes(*b"UYVY"),
            frame_rate_n: 60000,
            frame_rate_d: 1001,
            picture_aspect_ratio: 0x3fc0_0000,
            frame_format_type: 3,
            timecode: -5,
            data: 0,
            line_stride_in_bytes: 16,
            metadata: 0,
            timestamp: 1234,
        }
    );
    assert_eq!(frame.data(), &vec![9u8; 32]);
    assert_eq!(frame.metadata(), Some(&b"<ndi/>\0".to_vec()));
}

#[test]
fn later_builder_calls_win() {
    let frame = create_ndi_send_video_frame(4, 2, FrameFormatType::Progressive)
        .with_timecode(1)
        .with_timecode(2)
        .with_data(vec![1], 1, SendColorFormat::Bgra)
        .with_data(vec![2, 3], 1, SendColorFormat::Bgrx)
        .build()
        .unwrap();
    assert_eq!(frame.descriptor().timecode, 2);
    assert_eq!(frame.descriptor().four_cc, u32::from_le_bytes(*b"BGRX"));
    assert_eq!(frame.data(), &vec![2u8, 3]);
}

#[test]
fn build_fills_short_data_with_zero_bytes() {
    let frame = create_ndi_send_video_frame(2, 3, FrameFormatType::Progressive)
        .with_data(vec![7, 8], 4, SendColorFormat::Rgbx)
        .build()
        .unwrap();
    assert_eq!(frame.data(), &vec![7u8, 8, 0, 0, 0, 0, 0, 0, 0, 0, 0, 0]);
}

#[test]
fn build_cuts_long_data() {
    let frame = create_ndi_send_video_frame(2, 2, FrameFormatType::Progressive)
        .with_data(vec![1, 2, 3, 4, 5, 6], 2, SendColorFormat::Rgbx)
        .build()
        .unwrap();
    assert_eq!(frame.data(), &vec![1u8, 2, 3, 4]);
}

#[test]
fn build_refuses_metadata_with_a_zero_byte() {
    let result = create_ndi_send_video_frame(2, 2, FrameFormatType::Progressive)
        .with_metadata("a\0b".to_string())
        .build();
    assert!(matches!(result, Err(SendCreateError::InvalidName)));
    let result = create_ndi_send_video_frame(2, -2, FrameFormatType::Progressive)
        .with_metadata("a\0b".to_string())
        .build();
    assert!(matches!(result, Err(SendCreateError::InvalidName)));
}

#[test]
fn build_refuses_a_negative_size() {
    let result = create_ndi_send_video_frame(2, -2, FrameFormatType::Progressive)
        .with_data(vec![0; 4], 4, SendColorFormat::Rgba)
        .build();
    assert!(matches!(result, Err(SendCreateError::Failed)));
    let result = create_ndi_send_video_frame(2, 2, FrameFormatType::Progressive)
        .with_data(vec![0; 4], -4, SendColorFormat::Rgba)
        .build();
    assert!(matches!(result, Err(SendCreateError::Failed)));
    let result = create_ndi_send_video_frame(2, -2, FrameFormatType::Progressive)
        .with_data(vec![0; 4], -4, SendColorFormat::Rgba)
        .build();
    assert!(matches!(result, Err(SendCreateError::Failed)));
}

#[test]
fn new_audio_frame_has_the_defaults() {
    let frame = create_ndi_send_audio_frame::<f32>(2, 48000).build().unwrap();
    assert_eq!(
        frame.descriptor(),
        AudioDescriptor {
            sample_rate: 48000,
            no_channels: 2,
            no_samples: 0,
            timecode: i64::MAX,
            data: 0,
            channel_stride_in_bytes: 0,
            metadata: 0,
            timestamp: 0,
        }
    );
    assert!(frame.data().is_empty());
}

#[test]
fn audio_builder_sets_each_field() {
    let samples = vec![0.5f32, -0.5, 0.25, -0.25];
    let frame = create_ndi_send_audio_frame(2, 44100)
        .with_timecode(10)
        .with_data(samples.clone(), 2)
        .with_timestamp(20)
        .build()
        .unwrap();
    assert_eq!(
        frame.descriptor(),
        AudioDescriptor {
            sample_rate: 44100,
            no_channels: 2,
            no_samples: 2,
            timecode: 10,
            data: 0,
            channel_stride_in_bytes: 8,
            metadata: 0,
            timestamp: 20,
        }
    );
    assert_eq!(frame.data(), &samples);
}

#[test]
fn audio_stride_is_four_bytes_a_sample() {
    let frame = create_ndi_send_audio_frame::<f32>(1, 48000)
        .with_data(Vec::new(), 536_870_911)
        .build()
        .unwrap();
    assert_eq!(frame.descriptor().channel_stride_in_bytes, 2_147_483_644);
    let frame = create_ndi_send_audio_frame::<f32>(1, 48000)
        .with_data(Vec::new(), -536_870_912)
        .build()
        .unwrap();
    assert_eq!(frame.descriptor().channel_stride_in_bytes, i32::MIN);
}

#[test]
fn sender_is_created_only_on_an_output() {
    assert!(matches!(create_send_instance(0), Err(SendCreateError::Failed)));
    let sender = create_send_instance(OUTPUT).unwrap();
    assert_eq!(sender.connection(), OUTPUT);
    assert!(sender.in_flight_video().is_none());
}

#[test]
fn send_create_props_marshal_the_name() {
    let props = SendCreateProps::new("My PNG", true, false).unwrap();
    assert_eq!(
        props,
        SendCreateProps { name: b"My PNG\0".to_vec(), clock_video: true, clock_audio: false }
    );
    assert_eq!(SendCreateProps::new("My\0PNG", false, false), Err(SendCreateError::InvalidName));
}

#[test]
fn flush_with_nothing_in_flight_is_a_no_op() {
    let mut sender = sender();
    assert!(sender.send_video_flush().is_none());
    assert!(sender.in_flight_video().is_none());
    assert_eq!(sender.connection(), OUTPUT);
    assert!(sender.send_video_flush().is_none());
}

#[test]
fn submitted_frame_stays_in_flight() {
    let mut sender = sender();
    assert!(sender.send_video_async(frame(1)).is_none());
    assert_eq!(sender.in_flight_video().unwrap().data()[0], 1);
    let mut sender = self::sender();
    assert!(sender.send_video(frame(2)).is_none());
    assert_eq!(sender.in_flight_video().unwrap().data()[0], 2);
}

#[test]
fn next_submission_retires_the_frame_in_flight() {
    let mut sender = sender();
    assert!(sender.send_video_async(frame(1)).is_none());
    let retired = sender.send_video_async(frame(2)).expect("the first frame is retired");
    assert_eq!(retired.data()[0], 1);
    let retired = sender.send_video(frame(3)).expect("the second frame is retired");
    assert_eq!(retired.data()[0], 2);
    assert_eq!(sender.in_flight_video().unwrap().data()[0], 3);
}

#[test]
fn flush_retires_the_frame_in_flight() {
    let mut sender = sender();
    sender.send_video_async(frame(4));
    let retired = sender.send_video_flush().expect("the frame is retired");
    assert_eq!(retired.data()[0], 4);
    assert!(sender.in_flight_video().is_none());
    assert!(sender.send_video_flush().is_none());
}

#[test]
fn audio_submission_leaves_the_frame_in_flight_alone() {
    let mut sender = sender();
    sender.send_video_async(frame(5));
    let sound = create_ndi_send_audio_frame(2, 48000)
        .with_data(vec![0.0f32; 8], 4)
        .build()
        .unwrap();
    sender.send_audio(sound);
    assert_eq!(sender.in_flight_video().unwrap().data()[0], 5);
    assert_eq!(sender.connection(), OUTPUT);
}

#[test]
fn teardown_flushes_before_it_destroys() {
    let mut sender = sender();
    sender.send_video_async(frame(6));
    let (commands, retired) = sender.teardown();
    assert_eq!(commands, vec![SendCommand::Flush, SendCommand::Destroy { connection: OUTPUT }]);
    assert_eq!(retired.unwrap().data()[0], 6);
}

#[test]
fn teardown_with_nothing_in_flight_only_destroys() {
    let (commands, retired) = sender().teardown();
    assert_eq!(commands, vec![SendCommand::Destroy { connection: OUTPUT }]);
    assert!(retired.is_none());
    let mut sender = self::sender();
    sender.send_video(frame(7));
    sender.send_video_flush();
    let (commands, retired) = sender.teardown();
    assert_eq!(commands, vec![SendCommand::Destroy { connection: OUTPUT }]);
    assert!(retired.is_none());
}
