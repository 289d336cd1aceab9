use ndi_sdk::receive::{
    FourCCType, FrameFormatType, ReceiveBandwidth, ReceiveCaptureError, ReceiveCaptureResultType,
    ReceiveColorFormat,
};
use ndi_sdk::sdk;
use ndi_sdk::send::{FrameFormatType as SendFrameFormatType, SendColorFormat};

fn four_cc(text: &[u8; 4]) -> u32 {
    u32::from_le_bytes(*text)
}

#[test]
fn four_cc_codes_spell_their_names() {
    assert_eq!(sdk::FOURCC_UYVY, four_cc(b"UYVY"));
    assert_eq!(sdk::FOURCC_UYVA, four_cc(b"UYVA"));
    assert_eq!(sdk::FOURCC_YV12, four_cc(b"YV12"));
    assert_eq!(sdk::FOURCC_I420, four_cc(b"I420"));
    assert_eq!(sdk::FOURCC_NV12, four_cc(b"NV12"));
    assert_eq!(sdk::FOURCC_BGRA, four_cc(b"BGRA"));
    assert_eq!(sdk::FOURCC_BGRX, four_cc(b"BGRX"));
    assert_eq!(sdk::FOURCC_RGBA, four_cc(b"RGBA"));
    assert_eq!(sdk::FOURCC_RGBX, four_cc(b"RGBX"));
}

#[test]
fn four_cc_type_reads_every_known_code() {
    assert_eq!(FourCCType::try_from(four_cc(b"UYVY")), Ok(FourCCType::UYVY));
    assert_eq!(FourCCType::try_from(four_cc(b"UYVA")), Ok(FourCCType::UYVA));
    assert_eq!(FourCCType::try_from(four_cc(b"YV12")), Ok(FourCCType::YV12));
    assert_eq!(FourCCType::try_from(four_cc(b"I420")), Ok(FourCCType::I420));
    assert_eq!(FourCCType::try_from(four_cc(b"NV12")), Ok(FourCCType::NV12));
    assert_eq!(FourCCType::try_from(four_cc(b"BGRA")), Ok(FourCCType::BGRA));
    assert_eq!(FourCCType::try_from(four_cc(b"BGRX")), Ok(FourCCType::BGRX));
    assert_eq!(FourCCType::try_from(four_cc(b"RGBA")), Ok(FourCCType::RGBA));
    assert_eq!(FourCCType::try_from(four_cc(b"RGBX")), Ok(FourCCType::RGBX));
}

#[test]
fn four_cc_type_rejects_unknown_codes() {
    assert_eq!(FourCCType::try_from(0), Err(()));
    assert_eq!(FourCCType::try_from(four_cc(b"P216")), Err(()));
    assert_eq!(FourCCType::try_from(u32::MAX), Err(()));
}

#[test]
fn four_cc_type_code_round_trips() {
    let all = [
        FourCCType::UYVY,
        FourCCType::UYVA,
        FourCCType::YV12,
        FourCCType::I420,
        FourCCType::NV12,
        FourCCType::BGRA,
        FourCCType::BGRX,
        FourCCType::RGBA,
        FourCCType::RGBX,
    ];
    for format in all {
        assert_eq!(FourCCType::try_from(format.code()), Ok(format));
    }
}

#[test]
fn frame_format_type_reads_its_codes() {
    assert_eq!(FrameFormatType::try_from(0), Ok(FrameFormatType::Interlaced));
    assert_eq!(FrameFormatType::try_from(1), Ok(FrameFormatType::Progressive));
    assert_eq!(FrameFormatType::try_from(2), Ok(FrameFormatType::Field0));
    assert_eq!(FrameFormatType::try_from(3), Ok(FrameFormatType::Field1));
    assert_eq!(FrameFormatType::try_from(4), Err(()));
    assert_eq!(FrameFormatType::try_from(u32::MAX), Err(()));
}

#[test]
fn frame_format_type_code_round_trips() {
    let all = [
        FrameFormatType::Progressive,
        FrameFormatType::Interlaced,
        FrameFormatType::Field0,
        FrameFormatType::Field1,
    ];
    for format in all {
        assert_eq!(FrameFormatType::try_from(format.code()), Ok(format));
    }
}

#[test]
fn unreadable_code_becomes_invalid_capture() {
    assert_eq!(ReceiveCaptureError::from(()), ReceiveCaptureError::Invalid);
}

#[test]
fn frame_type_tags_are_classified() {
    assert_eq!(ReceiveCaptureResultType::classify(0), Ok(ReceiveCaptureResultType::Empty));
    assert_eq!(ReceiveCaptureResultType::classify(1), Ok(ReceiveCaptureResultType::Video));
    assert_eq!(ReceiveCaptureResultType::classify(2), Ok(ReceiveCaptureResultType::Audio));
    assert_eq!(ReceiveCaptureResultType::classify(3), Ok(ReceiveCaptureResultType::Metadata));
    assert_eq!(ReceiveCaptureResultType::classify(4), Ok(ReceiveCaptureResultType::Error));
    assert_eq!(ReceiveCaptureResultType::classify(100), Ok(ReceiveCaptureResultType::StatusChange));
}

#[test]
fn unknown_frame_type_tag_is_an_error() {
    assert_eq!(ReceiveCaptureResultType::classify(5), Err(ReceiveCaptureError::Invalid));
    assert_eq!(ReceiveCaptureResultType::classify(99), Err(ReceiveCaptureError::Invalid));
    assert_eq!(ReceiveCaptureResultType::classify(u32::MAX), Err(ReceiveCaptureError::Invalid));
}

#[test]
fn receive_bandwidth_codes() {
    assert_eq!(ReceiveBandwidth::MetadataOnly.code(), -10);
    assert_eq!(ReceiveBandwidth::AudioOnly.code(), 10);
    assert_eq!(ReceiveBandwidth::Lowest.code(), 0);
    assert_eq!(ReceiveBandwidth::Highest.code(), 100);
}

#[test]
fn receive_color_format_codes() {
    assert_eq!(ReceiveColorFormat::BgrxBgra.code(), 0);
    assert_eq!(ReceiveColorFormat::UyvyBgra.code(), 1);
    assert_eq!(ReceiveColorFormat::RgbxRgba.code(), 2);
    assert_eq!(ReceiveColorFormat::UyvyRgba.code(), 3);
    assert_eq!(ReceiveColorFormat::Fastest.code(), 100);
}

#[test]
fn send_frame_format_codes() {
    assert_eq!(SendFrameFormatType::Interleaved.code(), 0);
    assert_eq!(SendFrameFormatType::Progressive.code(), 1);
    assert_eq!(SendFrameFormatType::Field0.code(), 2);
    assert_eq!(SendFrameFormatType::Field1.code(), 3);
}

#[test]
fn send_color_format_codes() {
    assert_eq!(SendColorFormat::Uyvy.code(), four_cc(b"UYVY"));
    assert_eq!(SendColorFormat::Yv12.code(), four_cc(b"YV12"));
    assert_eq!(SendColorFormat::Nv12.code(), four_cc(b"NV12"));
    assert_eq!(SendColorFormat::I420.code(), four_cc(b"I420"));
    assert_eq!(SendColorFormat::Bgra.code(), four_cc(b"BGRA"));
    assert_eq!(SendColorFormat::Bgrx.code(), four_cc(b"BGRX"));
    assert_eq!(SendColorFormat::Rgba.code(), four_cc(b"RGBA"));
    assert_eq!(SendColorFormat::Rgbx.code(), four_cc(b"RGBX"));
    assert_eq!(SendColorFormat::Uyva.code(), four_cc(b"UYVA"));
}

#[test]
fn timecode_synthesize_is_the_largest_timecode() {
    assert_eq!(sdk::SEND_TIMECODE_SYNTHESIZE, i64::MAX);
}
