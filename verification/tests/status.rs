use jetson::encoder::JetsonEncoder;
use jetson::error::JetsonError;
use jetson::format::CodecFormat;
use jetson::frame::{EncodedVideoFrame, VideoFrame};
use jetson::status::EncoderStatus;

const ALL: [CodecFormat; 6] = [
    CodecFormat::VP8,
    CodecFormat::VP9,
    CodecFormat::AV1,
    CodecFormat::H264,
    CodecFormat::H265,
    CodecFormat::Unknown,
];

fn probed(h264: bool, h265: bool, av1: bool) -> EncoderStatus {
    let mut status = EncoderStatus::new();
    let mut run = JetsonEncoder::start_probe();
    for (format, works) in
        [(CodecFormat::H264, h264), (CodecFormat::H265, h265), (CodecFormat::AV1, av1)]
    {
        assert_eq!(run.next_format(), Some(format));
        run.record(works);
    }
    assert_eq!(run.next_format(), None);
    run.publish(&mut status);
    status
}

fn set(value: &str) -> Option<String> {
    Some(value.to_owned())
}

#[test]
fn nothing_is_available_before_the_probes() {
    let status = EncoderStatus::new();
    for format in ALL {
        assert!(!JetsonEncoder::available(&status, format, &None, &set("1")));
    }
}

#[test]
fn probes_decide_what_is_available() {
    let status = probed(true, false, true);
    assert!(JetsonEncoder::available(&status, CodecFormat::H264, &None, &None));
    assert!(!JetsonEncoder::available(&status, CodecFormat::H265, &None, &None));
    for format in [CodecFormat::VP8, CodecFormat::VP9, CodecFormat::Unknown] {
        assert!(!JetsonEncoder::available(&status, format, &None, &set("1")));
    }
}

#[test]
fn av1_has_to_be_asked_for() {
    let status = probed(false, false, true);
    assert!(JetsonEncoder::available(&status, CodecFormat::AV1, &None, &set("1")));
    for value in [None, set("0"), set(""), set("11"), set("true")] {
        assert!(!JetsonEncoder::available(&status, CodecFormat::AV1, &None, &value));
    }
    let status = probed(true, true, false);
    assert!(!JetsonEncoder::available(&status, CodecFormat::AV1, &None, &set("1")));
}

#[test]
fn environment_switches_the_encoder_off() {
    let status = probed(true, true, true);
    assert!(!JetsonEncoder::available(&status, CodecFormat::H264, &set("1"), &set("1")));
    for value in [None, set("0"), set("yes")] {
        assert!(JetsonEncoder::available(&status, CodecFormat::H264, &value, &None));
    }
}

#[test]
fn encoder_stays_switched_off() {
    let mut status = probed(true, true, true);
    JetsonEncoder::disable_all(&mut status);
    for format in ALL {
        assert!(!JetsonEncoder::available(&status, format, &None, &set("1")));
    }
    let mut run = JetsonEncoder::start_probe();
    for _ in 0..3 {
        run.record(true);
    }
    run.publish(&mut status);
    assert!(!JetsonEncoder::available(&status, CodecFormat::H264, &None, &None));
}

#[test]
fn encoder_can_switch_itself_off() {
    let mut status = probed(true, true, true);
    let config = JetsonEncoder::probe(CodecFormat::H264, true).unwrap();
    let enc = JetsonEncoder::create(config, 1).unwrap().finish(1, String::new()).unwrap();
    enc.disable(&mut status);
    assert!(!JetsonEncoder::available(&status, CodecFormat::H264, &None, &None));
}

#[test]
fn probe_needs_the_device() {
    assert!(JetsonEncoder::probe(CodecFormat::H264, false).is_none());
    let c = JetsonEncoder::probe(CodecFormat::H265, true).unwrap();
    assert_eq!(c.format, CodecFormat::H265);
    assert_eq!((c.width, c.height), (256, 256));
    assert_eq!(f32::from_bits(c.quality_bits), 1.0);
    assert_eq!(c.keyframe_interval, None);
}

#[test]
fn probe_works_if_the_frame_was_encoded() {
    let encoded = Some(Ok(VideoFrame::H264s(vec![EncodedVideoFrame::from_buffer(&[1], 1, 0)])));
    assert!(JetsonEncoder::probe_works(true, &encoded));
    assert!(!JetsonEncoder::probe_works(false, &encoded));
    assert!(!JetsonEncoder::probe_works(true, &Some(Err(JetsonError::NoValidFrame))));
    assert!(!JetsonEncoder::probe_works(true, &None));
    assert!(!JetsonEncoder::probe_works(false, &None));
}

#[test]
fn probe_frame_is_grey_and_full() {
    assert_eq!(JetsonEncoder::probe_frame(), vec![0x80u8; 256 * 256 * 4]);
}
