use jetson::encoder::{EncoderCfg, JetsonEncoder};
use jetson::encoder_model::{
    Action, Event, JetsonEncoderConfig, DEFAULT_GOP, FIRST_FRAME_TIMEOUT_MS, FRAME_TIMEOUT_MS,
};
use jetson::error::JetsonError;
use jetson::format::{CodecFormat, Pixfmt};
use jetson::frame::{EncodeInput, EncodedVideoFrame, VideoFrame};
use jetson::surface::{JetsonSurface, TEXTURE_TAG};

const W: usize = 4;
const H: usize = 2;
const PIXELS: usize = W * H * 4;

fn config(format: CodecFormat) -> JetsonEncoderConfig {
    JetsonEncoderConfig {
        format,
        width: W,
        height: H,
        quality_bits: 1.0f32.to_bits(),
        keyframe_interval: None,
    }
}

fn open(format: CodecFormat) -> JetsonEncoder {
    JetsonEncoder::create(config(format), 1000).unwrap().finish(1, String::new()).unwrap()
}

fn frame(handle: usize) -> JetsonSurface {
    JetsonSurface { handle, width: W, height: H, nv12: true }
}

/// A device that does what it is asked. It encodes each queued frame to one byte, the number of
/// the frame, and is done with a slot as soon as the picture has been taken.
#[derive(Default)]
struct Device {
    next_handle: usize,
    textures: Vec<JetsonSurface>,
    queued: Vec<(i32, usize, i64)>,
    finished: Vec<i32>,
    keep_slots: bool,
    pictures: u8,
    timeouts: Vec<i32>,
    converted: Vec<usize>,
    uploads: Vec<(usize, u32, u32, u32)>,
    all_queued: Vec<(i32, usize, i64)>,
}

impl Device {
    fn new() -> Device {
        Device { next_handle: 100, ..Default::default() }
    }

    fn answer(&mut self, action: &Action<VideoFrame>) -> Event {
        match action {
            Action::Alloc(_) => {
                self.next_handle += 1;
                Event::Alloc(self.next_handle)
            }
            Action::Reclaim { .. } => Event::Reclaim(self.finished.pop().unwrap_or(-1)),
            Action::Upload { dst, stride, width, height } => {
                self.uploads.push((*dst, *stride, *width, *height));
                Event::Upload(0)
            }
            Action::Convert(request) => {
                self.converted.push(request.dst);
                Event::Convert(0)
            }
            Action::Adopt { ptr } => {
                Event::Adopt(*self.textures.iter().find(|s| s.handle == *ptr).unwrap())
            }
            Action::Queue { index, surface, pts_us } => {
                assert!(self.queued.iter().all(|q| q.0 != *index || self.keep_slots));
                self.queued.push((*index, *surface, *pts_us));
                self.all_queued.push((*index, *surface, *pts_us));
                Event::Queue { status: 0, os_error: String::new() }
            }
            Action::Dequeue { timeout_ms } => {
                self.timeouts.push(*timeout_ms);
                let (index, _, pts_us) = self.queued.remove(0);
                if !self.keep_slots {
                    self.finished.push(index);
                }
                self.pictures += 1;
                Event::Dequeue {
                    index: 6,
                    data: vec![self.pictures],
                    key: (self.pictures == 1) as i32,
                    pts_us,
                    os_error: String::new(),
                }
            }
            Action::Release { index } => {
                assert_eq!(*index, 6);
                Event::Release
            }
            Action::Done(_) => unreachable!(),
        }
    }

    fn encode(
        &mut self,
        enc: &mut JetsonEncoder,
        input: EncodeInput,
        ms: i64,
    ) -> Result<VideoFrame, JetsonError> {
        assert!(enc.ready(input, ms));
        let mut action = enc.encode_to_message(input, ms);
        loop {
            if let Action::Done(result) = action {
                return result;
            }
            let event = self.answer(&action);
            assert!(enc.accepts(&event));
            action = enc.resume(event);
        }
    }

    fn encode_texture(
        &mut self,
        enc: &mut JetsonEncoder,
        surface: JetsonSurface,
        ms: i64,
    ) -> Result<VideoFrame, JetsonError> {
        self.textures.push(surface);
        self.encode(enc, EncodeInput::Texture(surface.texture()), ms)
    }
}

fn frames(v: VideoFrame) -> Vec<EncodedVideoFrame> {
    match v {
        VideoFrame::H264s(f) => f,
        VideoFrame::H265s(f) => f,
        VideoFrame::Av1s(f) => f,
    }
}

fn done(action: Action<VideoFrame>) -> Result<VideoFrame, JetsonError> {
    match action {
        Action::Done(r) => r,
        other => panic!("not done: {other:?}"),
    }
}

fn queue_ok() -> Event {
    Event::Queue { status: 0, os_error: String::new() }
}

fn picture(data: Vec<u8>) -> Event {
    Event::Dequeue { index: 0, data, key: 0, pts_us: 0, os_error: String::new() }
}

/// An encoder that has been given a texture and now asks for something else than `Adopt`.
fn adopted(enc: &mut JetsonEncoder, surface: JetsonSurface) -> Action<VideoFrame> {
    let action = enc.encode_to_message(EncodeInput::Texture(surface.texture()), 0);
    assert!(matches!(action, Action::Adopt { ptr } if ptr == surface.handle));
    enc.resume(Event::Adopt(surface))
}

#[test]
fn only_its_own_setup_makes_an_encoder() {
    let c = JetsonEncoder::new(EncoderCfg::JETSON(config(CodecFormat::H264)), false).unwrap();
    assert_eq!(c, config(CodecFormat::H264));
    assert!(matches!(
        JetsonEncoder::new(EncoderCfg::Other, true).unwrap_err(),
        JetsonError::TypeMismatch
    ));
}

#[test]
fn device_is_opened_with_the_setup() {
    let r = JetsonEncoder::create(config(CodecFormat::H265), 1234).unwrap();
    assert_eq!((r.codec, r.width, r.height), (1, W as u32, H as u32));
    assert_eq!(r.bits_per_second, 1_234_000);
    assert_eq!(r.gop, DEFAULT_GOP);
    assert_eq!(r.gop, 1 << 30);
    assert_eq!(r.slots, 4);
    let spaced = JetsonEncoderConfig { keyframe_interval: Some(240), ..config(CodecFormat::AV1) };
    let r = JetsonEncoder::create(spaced, 1).unwrap();
    assert_eq!((r.codec, r.gop), (2, 240));
    let huge = JetsonEncoderConfig {
        keyframe_interval: Some(0x7_0000_0009u64 as usize),
        ..config(CodecFormat::AV1)
    };
    assert_eq!(JetsonEncoder::create(huge, 1).unwrap().gop, 9);
}

#[test]
fn other_codecs_are_refused() {
    for format in [CodecFormat::VP8, CodecFormat::VP9, CodecFormat::Unknown] {
        let e = JetsonEncoder::create(config(format), u32::MAX).unwrap_err();
        assert!(matches!(e, JetsonError::UnsupportedFormat { format: f } if f == format));
    }
}

#[test]
fn device_that_does_not_open_gives_its_reason() {
    let r = JetsonEncoder::create(config(CodecFormat::H264), 1000).unwrap();
    let e = r.finish(0, "S_FMT: Invalid argument".to_owned()).err().unwrap();
    assert_eq!(e.message(), "jetson: open H264 encoder: S_FMT: Invalid argument");
}

#[test]
fn first_call_queues_its_frame_twice() {
    let mut enc = open(CodecFormat::H264);
    let mut dev = Device::new();
    let v = dev.encode_texture(&mut enc, frame(1), 20).unwrap();
    assert_eq!(dev.all_queued, vec![(0, 1, 20_000), (1, 1, 20_000)]);
    assert_eq!(dev.timeouts, vec![FIRST_FRAME_TIMEOUT_MS]);
    assert_eq!(FIRST_FRAME_TIMEOUT_MS, 2000);
    let f = frames(v);
    assert_eq!(f.len(), 1);
    assert_eq!(&f[0].data[..], &[1u8][..]);
    assert!(f[0].key);
    assert_eq!(f[0].pts, 20);
    assert_eq!(dev.queued.len(), 1);
}

#[test]
fn later_calls_return_the_frame_before() {
    let mut enc = open(CodecFormat::H264);
    let mut dev = Device::new();
    for n in 0..20usize {
        let v = dev.encode_texture(&mut enc, frame(n + 1), 40 * n as i64).unwrap();
        let f = frames(v);
        assert_eq!(f.len(), 1);
        assert_eq!(f[0].pts, if n == 0 { 0 } else { 40 * (n as i64 - 1) });
        assert_eq!(f[0].key, n == 0);
        assert_eq!(dev.queued.len(), 1);
    }
    assert_eq!(dev.all_queued.len(), 21);
    assert_eq!(dev.timeouts[1..], [FRAME_TIMEOUT_MS; 19]);
    assert_eq!(FRAME_TIMEOUT_MS, 500);
}

#[test]
fn frames_come_under_their_codec() {
    for (format, want) in [(CodecFormat::H264, 0), (CodecFormat::H265, 1), (CodecFormat::AV1, 2)] {
        let mut enc = open(format);
        let v = Device::new().encode_texture(&mut enc, frame(1), 0).unwrap();
        let got = match v {
            VideoFrame::H264s(_) => 0,
            VideoFrame::H265s(_) => 1,
            VideoFrame::Av1s(_) => 2,
        };
        assert_eq!(got, want);
    }
}

#[test]
fn time_before_zero_counts_as_zero() {
    let mut enc = open(CodecFormat::H264);
    let mut dev = Device::new();
    dev.encode_texture(&mut enc, frame(1), -5).unwrap();
    assert_eq!(dev.all_queued[0].2, 0);
}

#[test]
fn calls_that_would_overflow_are_not_ready() {
    let enc = open(CodecFormat::H264);
    let texture = EncodeInput::Texture((1, TEXTURE_TAG));
    assert!(enc.ready(texture, i64::MAX / 1000));
    assert!(!enc.ready(texture, i64::MAX / 1000 + 1));
    assert!(enc.ready(texture, i64::MIN));
    let huge = JetsonEncoderConfig {
        width: usize::MAX / 4,
        height: 2,
        ..config(CodecFormat::H264)
    };
    let enc = JetsonEncoder::create(huge, 1).unwrap().finish(1, String::new()).unwrap();
    assert!(enc.ready(texture, 0));
    assert!(!enc.ready(EncodeInput::YUV(&[]), 0));
}

#[test]
fn empty_and_negative_pictures() {
    let mut enc = open(CodecFormat::H264);
    adopted(&mut enc, frame(1));
    enc.resume(queue_ok());
    enc.resume(queue_ok());
    // An empty picture is given back and not returned.
    assert!(matches!(enc.resume(picture(vec![])), Action::Release { index: 0 }));
    enc.resume(Event::Release);
    let e = done(enc.resume(Event::Reclaim(-1))).unwrap_err();
    assert!(matches!(e, JetsonError::NoValidFrame));
    // The next call is still the first, on top of the frame in flight.
    adopted(&mut enc, frame(1));
    enc.resume(queue_ok());
    assert!(matches!(enc.resume(queue_ok()), Action::Dequeue { timeout_ms: 2000 }));
    let bits = Event::Dequeue {
        index: 3,
        data: vec![9, 8],
        key: -1,
        pts_us: -1999,
        os_error: String::new(),
    };
    enc.resume(bits);
    assert!(matches!(enc.resume(Event::Release), Action::Dequeue { .. }));
    enc.resume(picture(vec![7]));
    enc.resume(Event::Release);
    let f = frames(done(enc.resume(Event::Reclaim(4))).unwrap());
    assert_eq!(f.len(), 2);
    assert_eq!(&f[0].data[..], &[9u8, 8][..]);
    assert!(f[0].key);
    assert_eq!(f[0].pts, -1);
    assert!(!f[1].key);
    assert_eq!(&f[1].data[..], &[7u8][..]);
}

#[test]
fn missing_picture_does_not_make_the_count_drift() {
    let mut enc = open(CodecFormat::H264);
    let mut dev = Device::new();
    dev.encode_texture(&mut enc, frame(1), 0).unwrap();
    adopted(&mut enc, frame(2));
    enc.resume(queue_ok());
    let timeout = Event::Dequeue {
        index: -1,
        data: vec![],
        key: 0,
        pts_us: 0,
        os_error: "timed out".to_owned(),
    };
    assert!(matches!(enc.resume(timeout), Action::Reclaim { timeout_ms: 0 }));
    let e = done(enc.resume(Event::Reclaim(-1))).unwrap_err();
    assert!(matches!(e, JetsonError::NoValidFrame));
    // One picture per call, as before.
    adopted(&mut enc, frame(3));
    enc.resume(queue_ok());
    enc.resume(picture(vec![1]));
    assert!(matches!(enc.resume(Event::Release), Action::Reclaim { timeout_ms: 0 }));
    assert_eq!(frames(done(enc.resume(Event::Reclaim(-1))).unwrap()).len(), 1);
}

#[test]
fn failed_dequeue_ends_the_call() {
    let mut enc = open(CodecFormat::H264);
    adopted(&mut enc, frame(1));
    enc.resume(queue_ok());
    enc.resume(queue_ok());
    let broken = Event::Dequeue {
        index: -2,
        data: vec![1],
        key: 0,
        pts_us: 0,
        os_error: "EPIPE".to_owned(),
    };
    let e = done(enc.resume(broken)).unwrap_err();
    assert_eq!(e.message(), "jetson: DQBUF capture failed: EPIPE");
}

#[test]
fn failed_queue_ends_the_call_and_leaves_the_slot() {
    let mut enc = open(CodecFormat::H264);
    let action = adopted(&mut enc, frame(1));
    assert!(matches!(action, Action::Queue { index: 0, .. }));
    let e = done(enc.resume(Event::Queue { status: -1, os_error: "EIO".to_owned() })).unwrap_err();
    assert_eq!(e.message(), "jetson: QBUF failed: EIO");
    // The frame is remembered for repeats, and slot 0 is still the first free one.
    assert!(enc.holds(1));
    let action = enc.encode_to_message(EncodeInput::Texture((0, 0)), 0);
    assert!(matches!(action, Action::Queue { index: 0, surface: 1, .. }));
}

#[test]
fn null_texture_repeats_the_last_frame() {
    let mut enc = open(CodecFormat::H264);
    let mut dev = Device::new();
    let repeat = EncodeInput::Texture((0, 12345));
    let e = dev.encode(&mut enc, repeat, 0).unwrap_err();
    assert!(matches!(e, JetsonError::NoFrameToRepeat));
    dev.encode_texture(&mut enc, frame(7), 10).unwrap();
    let f = frames(dev.encode(&mut enc, repeat, 50).unwrap());
    assert_eq!(f.len(), 1);
    assert_eq!(f[0].pts, 10);
    let last = *dev.all_queued.last().unwrap();
    assert_eq!((last.1, last.2), (7, 50_000));
}

#[test]
fn foreign_textures_are_refused() {
    let mut enc = open(CodecFormat::H264);
    let e = done(enc.encode_to_message(EncodeInput::Texture((7, TEXTURE_TAG + 1)), 0)).unwrap_err();
    assert!(matches!(e, JetsonError::NotJetsonTexture));
}

#[test]
fn textures_of_another_kind_or_size_are_refused() {
    for bad in [
        JetsonSurface { nv12: false, ..frame(7) },
        JetsonSurface { width: W + 1, ..frame(7) },
        JetsonSurface { height: H + 1, ..frame(7) },
    ] {
        let mut enc = open(CodecFormat::H264);
        let e = done(adopted(&mut enc, bad)).unwrap_err();
        assert!(matches!(
            e,
            JetsonError::TextureMismatch { width, height, want_width: W, want_height: H }
                if width == bad.width && height == bad.height
        ));
        // The encoder is as it was: nothing is held, nothing can be repeated.
        assert!(!enc.holds(7));
        let e = done(enc.encode_to_message(EncodeInput::Texture((0, 0)), 0)).unwrap_err();
        assert!(matches!(e, JetsonError::NoFrameToRepeat));
    }
}

#[test]
fn small_cpu_frames_are_refused() {
    let mut enc = open(CodecFormat::H264);
    let e = done(enc.encode_to_message(EncodeInput::YUV(&[0; PIXELS - 1]), 0)).unwrap_err();
    assert!(matches!(e, JetsonError::FrameTooSmall { len: 31, need: 32 }));
}

#[test]
fn cpu_frames_are_uploaded_and_converted() {
    let mut enc = open(CodecFormat::H264);
    let mut dev = Device::new();
    let pixels = [0x80u8; PIXELS + 1];
    dev.encode(&mut enc, EncodeInput::YUV(&pixels), 0).unwrap();
    // The upload surface came first, then the frame.
    assert_eq!(dev.uploads, vec![(101, 16, 4, 2)]);
    assert_eq!(dev.converted, vec![102]);
    assert_eq!(dev.all_queued, vec![(0, 102, 0), (1, 102, 0)]);
    assert!(enc.holds(101));
    assert!(enc.holds(102));
    assert!(!enc.holds(103));
}

#[test]
fn cpu_surfaces_are_asked_for_in_their_formats() {
    let mut enc = open(CodecFormat::H264);
    let pixels = [0u8; PIXELS];
    match enc.encode_to_message(EncodeInput::YUV(&pixels), 0) {
        Action::Alloc(r) => assert_eq!((r.width, r.height, r.format), (W, H, 1)),
        other => panic!("{other:?}"),
    }
    assert!(matches!(enc.resume(Event::Alloc(5)), Action::Reclaim { timeout_ms: 0 }));
    assert!(matches!(enc.resume(Event::Reclaim(-1)), Action::Upload { dst: 5, .. }));
    match enc.resume(Event::Upload(0)) {
        Action::Alloc(r) => assert_eq!((r.width, r.height, r.format), (W, H, 0)),
        other => panic!("{other:?}"),
    }
    assert!(matches!(enc.resume(Event::Alloc(6)), Action::Convert(r) if r.src == 5 && r.dst == 6));
    assert!(matches!(enc.resume(Event::Convert(0)), Action::Queue { surface: 6, .. }));
}

#[test]
fn upload_failures_end_the_call() {
    let pixels = [0u8; PIXELS];
    let start = || {
        let mut enc = open(CodecFormat::H264);
        enc.encode_to_message(EncodeInput::YUV(&pixels), 0);
        enc
    };
    let mut enc = start();
    let e = done(enc.resume(Event::Alloc(0))).unwrap_err();
    assert!(matches!(e, JetsonError::AllocFailed { width: W, height: H }));
    let mut enc = start();
    enc.resume(Event::Alloc(5));
    enc.resume(Event::Reclaim(-1));
    let e = done(enc.resume(Event::Upload(-1))).unwrap_err();
    assert!(matches!(e, JetsonError::UploadFailed));
    let mut enc = start();
    enc.resume(Event::Alloc(5));
    enc.resume(Event::Reclaim(-1));
    enc.resume(Event::Upload(0));
    let e = done(enc.resume(Event::Alloc(0))).unwrap_err();
    assert!(matches!(e, JetsonError::AllocFailed { .. }));
    // The upload surface is kept, and not asked for again.
    assert!(enc.holds(5));
    let action = enc.encode_to_message(EncodeInput::YUV(&pixels), 0);
    assert!(matches!(action, Action::Reclaim { timeout_ms: 0 }));
    enc.resume(Event::Reclaim(-1));
    enc.resume(Event::Upload(0));
    enc.resume(Event::Alloc(6));
    let e = done(enc.resume(Event::Convert(1))).unwrap_err();
    assert!(matches!(e, JetsonError::TransformFailed));
    // So is the surface that was allocated for the frame; it is not the last frame.
    assert!(enc.holds(6));
    let e = done(enc.encode_to_message(EncodeInput::Texture((0, 0)), 0)).unwrap_err();
    assert!(matches!(e, JetsonError::NoFrameToRepeat));
}

#[test]
fn cpu_frames_never_overwrite_frames_in_use() {
    let mut enc = open(CodecFormat::H264);
    let mut dev = Device::new();
    let pixels = [0x80u8; PIXELS];
    for _ in 0..50 {
        let in_flight: Vec<usize> = dev.queued.iter().map(|q| q.1).collect();
        dev.encode(&mut enc, EncodeInput::YUV(&pixels), 0).unwrap();
        assert!(!in_flight.contains(dev.converted.last().unwrap()));
    }
    // A few surfaces are enough, and they are used over and over.
    assert!(dev.next_handle - 101 <= 6);
    let distinct: std::collections::HashSet<usize> = dev.converted.iter().copied().collect();
    assert!(distinct.len() >= 2);
    assert!(distinct.len() <= 6);
}

#[test]
fn slow_device_makes_the_pool_grow_no_further_than_the_slots() {
    let mut enc = open(CodecFormat::H264);
    let mut dev = Device { keep_slots: true, ..Device::new() };
    let pixels = [0x80u8; PIXELS];
    // Slots 0 and 1 go to the first frame, 2 and 3 to the next two; none comes back.
    for _ in 0..3 {
        dev.encode(&mut enc, EncodeInput::YUV(&pixels), 0).unwrap();
    }
    let e = dev.encode(&mut enc, EncodeInput::YUV(&pixels), 0).unwrap_err();
    assert!(matches!(e, JetsonError::NoFreeSlot));
    for _ in 0..10 {
        dev.encode(&mut enc, EncodeInput::YUV(&pixels), 0).unwrap_err();
    }
    assert!(dev.next_handle - 101 <= 6);
}

#[test]
fn finished_slots_are_used_again() {
    let mut enc = open(CodecFormat::H264);
    let mut dev = Device { keep_slots: true, ..Device::new() };
    for n in 1..4 {
        dev.encode_texture(&mut enc, frame(n), 0).unwrap();
    }
    // All four slots are taken. A free one is looked for twice, with a wait the second time.
    assert!(matches!(adopted(&mut enc, frame(4)), Action::Reclaim { timeout_ms: 0 }));
    assert!(matches!(enc.resume(Event::Reclaim(2)), Action::Reclaim { timeout_ms: 0 }));
    assert!(!enc.holds(2));
    let action = enc.resume(Event::Reclaim(-1));
    assert!(matches!(action, Action::Queue { index: 2, surface: 4, .. }));
}

#[test]
fn slot_search_gives_up_after_the_wait() {
    let mut enc = open(CodecFormat::H264);
    let mut dev = Device { keep_slots: true, ..Device::new() };
    for n in 1..4 {
        dev.encode_texture(&mut enc, frame(n), 0).unwrap();
    }
    assert!(matches!(adopted(&mut enc, frame(4)), Action::Reclaim { timeout_ms: 0 }));
    assert!(matches!(enc.resume(Event::Reclaim(-1)), Action::Reclaim { timeout_ms: 500 }));
    let e = done(enc.resume(Event::Reclaim(-1))).unwrap_err();
    assert!(matches!(e, JetsonError::NoFreeSlot));
    assert!(enc.holds(4));
}

#[test]
fn reclaim_ignores_numbers_that_are_no_slot() {
    let mut enc = open(CodecFormat::H264);
    let mut dev = Device { keep_slots: true, ..Device::new() };
    for n in 1..4 {
        dev.encode_texture(&mut enc, frame(n), 0).unwrap();
    }
    adopted(&mut enc, frame(4));
    assert!(matches!(enc.resume(Event::Reclaim(4)), Action::Reclaim { timeout_ms: 500 }));
    // A slot that is reported while waiting is emptied, and more are asked for at once.
    assert!(matches!(enc.resume(Event::Reclaim(1)), Action::Reclaim { timeout_ms: 0 }));
    // The search finds it.
    let action = enc.resume(Event::Reclaim(-1));
    assert!(matches!(action, Action::Queue { index: 1, surface: 4, .. }));
}

#[test]
fn slot_released_during_the_wait_is_used() {
    let mut enc = open(CodecFormat::H264);
    let mut dev = Device { keep_slots: true, ..Device::new() };
    for n in 1..4 {
        dev.encode_texture(&mut enc, frame(n), 0).unwrap();
    }
    assert!(matches!(adopted(&mut enc, frame(4)), Action::Reclaim { timeout_ms: 0 }));
    assert!(matches!(enc.resume(Event::Reclaim(-1)), Action::Reclaim { timeout_ms: 500 }));
    assert!(matches!(enc.resume(Event::Reclaim(2)), Action::Reclaim { timeout_ms: 0 }));
    let action = enc.resume(Event::Reclaim(-1));
    assert!(matches!(action, Action::Queue { index: 2, surface: 4, .. }));
    enc.resume(queue_ok());
    enc.resume(picture(vec![5]));
    enc.resume(Event::Release);
    assert_eq!(frames(done(enc.resume(Event::Reclaim(-1))).unwrap()).len(), 1);
}

#[test]
fn calls_succeed_again_after_failures() {
    let mut enc = open(CodecFormat::H264);
    let mut dev = Device::new();
    let pixels = [0x80u8; PIXELS];
    for n in 0..10 {
        // A refused input, and a frame that cannot be queued.
        let e = done(enc.encode_to_message(EncodeInput::YUV(&[]), 0)).unwrap_err();
        assert!(matches!(e, JetsonError::FrameTooSmall { .. }));
        let action = adopted(&mut enc, frame(900 + n));
        assert!(matches!(action, Action::Queue { .. }));
        done(enc.resume(Event::Queue { status: -1, os_error: String::new() })).unwrap_err();
        assert!(!frames(dev.encode(&mut enc, EncodeInput::YUV(&pixels), 0).unwrap()).is_empty());
        assert_eq!(dev.queued.len(), 1);
    }
}

#[test]
fn surfaces_are_held_while_they_are_needed() {
    let mut enc = open(CodecFormat::H264);
    let mut dev = Device::new();
    dev.encode_texture(&mut enc, frame(1), 0).unwrap();
    assert!(enc.holds(1));
    dev.encode_texture(&mut enc, frame(2), 0).unwrap();
    assert!(enc.holds(2));
    dev.encode_texture(&mut enc, frame(3), 0).unwrap();
    assert!(!enc.holds(1));
    assert!(enc.holds(3));
}

#[test]
fn answers_to_something_else_are_not_accepted() {
    let mut enc = open(CodecFormat::H264);
    assert!(!enc.accepts(&Event::Release));
    enc.encode_to_message(EncodeInput::Texture(frame(1).texture()), 0);
    assert!(!enc.accepts(&queue_ok()));
    assert!(enc.accepts(&Event::Adopt(frame(1))));
    assert!(!enc.ready(EncodeInput::Texture(frame(1).texture()), 0));
}

#[test]
fn cpu_layout_is_bgra() {
    let f = open(CodecFormat::H264).yuvfmt();
    assert_eq!(f.pixfmt, Pixfmt::BGRA);
    assert_eq!((f.w, f.h, f.u, f.v), (W, H, 0, 0));
    assert_eq!(f.stride, vec![W * 4]);
}

#[test]
fn encoder_describes_itself() {
    let enc = open(CodecFormat::H264);
    assert!(!enc.input_texture());
    assert!(enc.support_changing_quality());
    assert!(!enc.latency_free());
    assert!(enc.is_hardware());
    assert_eq!(enc.bitrate(), 1000);
}

#[test]
fn quality_sets_the_bitrate() {
    let mut enc = open(CodecFormat::H264);
    assert_eq!(JetsonEncoder::bitrate_request(2500), Some(2_500_000));
    let half = 0.5f32.to_bits();
    assert!(enc.set_quality(half, 2500, 0, String::new()).is_ok());
    assert_eq!(enc.bitrate(), 2500);
    assert_eq!(enc.config().quality_bits, half);
    assert_eq!(enc.config().format, CodecFormat::H264);
    // A refusal changes nothing.
    let e = enc.set_quality(1, 3000, -1, "EBUSY".to_owned()).unwrap_err();
    assert_eq!(e.message(), "jetson: set bitrate: EBUSY");
    assert_eq!(enc.bitrate(), 2500);
    assert_eq!(enc.config().quality_bits, half);
    // A bitrate of zero is not asked for; the quality is taken over.
    assert_eq!(JetsonEncoder::bitrate_request(0), None);
    assert!(enc.set_quality(0, 0, -1, String::new()).is_ok());
    assert_eq!(enc.bitrate(), 2500);
    assert_eq!(enc.config().quality_bits, 0);
}
