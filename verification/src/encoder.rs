//! The hardware encoder.
//!
//! A picture is encoded in a dialogue: `encode_to_message` begins it, the caller performs
//! each action it is given and hands the answer to `resume`, until the action is `Done`.
//!
//! Conversion and encoding each take long enough that waiting for every frame's own
//! bitstream would halve the frame rate. One frame therefore stays in flight, and each call
//! returns an earlier frame.

use crate::encoder_laws::{begin_keeps_wf, next_keeps_wf};
use crate::encoder_model::{
    frame_bytes, Action, EncoderState, Event, JetsonEncoderConfig, Phase, ReclaimFor, DEFAULT_GOP,
    FIRST_FRAME_TIMEOUT_MS, FRAME_TIMEOUT_MS, MAX_IN_FLIGHT, SLOTS,
};
use crate::error::JetsonError;
use crate::format::{
    codec_id, codec_number, low32, truncate32, CodecFormat, Pixfmt, JZ_FMT_BGRA,
};
use crate::frame::{
    frames_view, EncodeInput, EncodeYuvFormat, EncodedVideoFrame, VideoFrame,
};
use crate::search::{first_is_first_where, is_first, none_is_first_where};
use crate::surface::{ConvertRequest, JetsonSurface, TEXTURE_TAG};
use vstd::prelude::*;

verus! {

/// The set-up of an encoder of some kind.
#[derive(Clone, Copy, Debug)]
pub enum EncoderCfg {
    JETSON(JetsonEncoderConfig),
    Other,
}

/// What the device is opened with.
#[derive(Clone, Copy, Debug, PartialEq, Eq, Structural)]
pub struct OpenRequest {
    pub config: JetsonEncoderConfig,
    /// The bitrate in kbit/s.
    pub bitrate: u32,
    /// The device's number of the codec.
    pub codec: i32,
    pub width: u32,
    pub height: u32,
    /// The bitrate in bit/s.
    pub bits_per_second: u32,
    /// The distance of key frames.
    pub gop: u32,
    /// The number of input slots.
    pub slots: i32,
}

/// An open encoder.
pub struct JetsonEncoder {
    config: JetsonEncoderConfig,
    bitrate: u32,
    slots: [Option<JetsonSurface>; SLOTS],
    upload: Option<JetsonSurface>,
    cpu_pool: Vec<JetsonSurface>,
    last: Option<JetsonSurface>,
    in_flight: usize,
    first: bool,
    phase: Phase,
    pts_us: i64,
    copies: usize,
    frames: Vec<EncodedVideoFrame>,
}

impl View for JetsonEncoder {
    type V = EncoderState;

    closed spec fn view(&self) -> EncoderState {
        EncoderState {
            config: self.config,
            bitrate: self.bitrate,
            slots: self.slots@,
            upload: self.upload,
            cpu_pool: self.cpu_pool@,
            last: self.last,
            in_flight: self.in_flight as int,
            first: self.first,
            phase: self.phase,
            pts_us: self.pts_us as int,
            copies: self.copies as int,
            frames: frames_view(self.frames@),
        }
    }
}

/// What the device is opened with for `config` at a bitrate.
pub open spec fn open_plan(config: JetsonEncoderConfig, bitrate: u32) -> Result<
    OpenRequest,
    JetsonError,
> {
    match codec_number(config.format) {
        None => Err(JetsonError::UnsupportedFormat { format: config.format }),
        Some(codec) => Ok(
            OpenRequest {
                config,
                bitrate,
                codec,
                width: low32(config.width as int) as u32,
                height: low32(config.height as int) as u32,
                bits_per_second: (bitrate * 1000) as u32,
                gop: match config.keyframe_interval {
                    Some(v) => low32(v as int) as u32,
                    None => DEFAULT_GOP,
                },
                slots: SLOTS as i32,
            },
        ),
    }
}

impl OpenRequest {
    /// Turns the device's answer, its address or null with a reason, into an encoder.
    pub fn finish(self, device: usize, reason: String) -> (r: Result<JetsonEncoder, JetsonError>)
        ensures
            device == 0 ==> r == Err::<JetsonEncoder, _>(
                JetsonError::OpenFailed { format: self.config.format, reason },
            ),
            device != 0 ==> r is Ok && r->Ok_0@ == EncoderState::fresh(self.config, self.bitrate),
            device != 0 && open_plan(self.config, self.bitrate) == Ok::<_, JetsonError>(self)
                && self.bitrate * 1000 <= u32::MAX ==> r is Ok && r->Ok_0@.wf(),
    {
        if device == 0 {
            return Err(JetsonError::OpenFailed { format: self.config.format, reason });
        }
        let r = JetsonEncoder {
            config: self.config,
            bitrate: self.bitrate,
            slots: [None, None, None, None],
            upload: None,
            cpu_pool: Vec::new(),
            last: None,
            in_flight: 0,
            first: true,
            phase: Phase::Idle,
            pts_us: 0,
            copies: 0,
            frames: Vec::new(),
        };
        assert(r@ =~= EncoderState::fresh(self.config, self.bitrate));
        Ok(r)
    }
}

impl JetsonEncoder {
    /// Takes the set-up out of `cfg`, which must be that of this encoder.
    pub fn new(cfg: EncoderCfg, _i444: bool) -> (r: Result<JetsonEncoderConfig, JetsonError>)
        ensures
            r == (match cfg {
                EncoderCfg::JETSON(config) => Ok(config),
                EncoderCfg::Other => Err(JetsonError::TypeMismatch),
            }),
    {
        match cfg {
            EncoderCfg::JETSON(config) => Ok(config),
            EncoderCfg::Other => Err(JetsonError::TypeMismatch),
        }
    }

    /// Asks for the device. `bitrate` is in kbit/s.
    pub fn create(config: JetsonEncoderConfig, bitrate: u32) -> (r: Result<
        OpenRequest,
        JetsonError,
    >)
        requires
            codec_number(config.format) is Some ==> bitrate * 1000 <= u32::MAX,
        ensures
            r == open_plan(config, bitrate),
    {
        match codec_id(config.format) {
            None => Err(JetsonError::UnsupportedFormat { format: config.format }),
            Some(codec) => {
                let gop: u32 = match config.keyframe_interval {
                    Some(v) => truncate32(v),
                    None => DEFAULT_GOP,
                };
                Ok(
                    OpenRequest {
                        config,
                        bitrate,
                        codec,
                        width: truncate32(config.width),
                        height: truncate32(config.height),
                        bits_per_second: bitrate * 1000,
                        gop,
                        slots: 4,
                    },
                )
            },
        }
    }

    /// Whether a call can be served, see `EncoderState::ready`.
    pub fn ready(&self, input: EncodeInput, ms: i64) -> (r: bool)
        requires
            self@.wf(),
        ensures
            r == self@.ready(input, ms),
    {
        let idle: bool = match self.phase {
            Phase::Idle => true,
            _ => false,
        };
        if !idle || self.in_flight > usize::MAX - 2 || ms > i64::MAX / 1000 {
            return false;
        }
        match input {
            EncodeInput::Texture(_) => true,
            EncodeInput::YUV(_) => {
                match self.config.width.checked_mul(4) {
                    None => {
                        return false;
                    },
                    Some(_) => {},
                }
                let r: bool = match self.config.width.checked_mul(self.config.height) {
                    None => false,
                    Some(area) => match area.checked_mul(4) {
                        None => false,
                        Some(_) => true,
                    },
                };
                proof {
                    let area = self.config.width * self.config.height;
                    assert(area >= 0) by (nonlinear_arith)
                        requires
                            area == self.config.width * self.config.height,
                    ;
                }
                r
            },
        }
    }

    /// Whether `event` is the answer that the encoder waits for.
    pub fn accepts(&self, event: &Event) -> (r: bool)
        ensures
            r == self@.accepts(*event),
    {
        match (self.phase, event) {
            (Phase::AllocUpload, Event::Alloc(_)) => true,
            (Phase::AllocNv12, Event::Alloc(_)) => true,
            (Phase::Reclaim(_), Event::Reclaim(_)) => true,
            (Phase::Upload, Event::Upload(_)) => true,
            (Phase::Convert(_), Event::Convert(_)) => true,
            (Phase::Adopt, Event::Adopt(_)) => true,
            (Phase::Queue(_), Event::Queue { .. }) => true,
            (Phase::Dequeue, Event::Dequeue { .. }) => true,
            (Phase::Release, Event::Release) => true,
            _ => false,
        }
    }

    /// Whether the device may still read the surface at `handle`, or it is the last frame.
    fn busy(&self, handle: usize) -> (r: bool)
        ensures
            r == self@.busy(handle),
    {
        let mut i: usize = 0;
        while i < SLOTS
            invariant
                0 <= i <= SLOTS,
                forall|j: int| 0 <= j < i ==> !self@.slot_holds(j, handle),
            decreases SLOTS - i,
        {
            match self.slots[i] {
                Some(s) => {
                    if s.handle == handle {
                        assert(self@.slot_holds(i as int, handle));
                        return true;
                    }
                },
                None => {},
            }
            i = i + 1;
        }
        match self.last {
            Some(s) => s.handle == handle,
            None => false,
        }
    }

    /// Whether the surface at `handle` is referred to by the encoder and must not go away.
    pub fn holds(&self, handle: usize) -> (r: bool)
        ensures
            r == self@.holds(handle),
    {
        if self.busy(handle) {
            return true;
        }
        match self.upload {
            Some(s) => {
                if s.handle == handle {
                    return true;
                }
            },
            None => {},
        }
        let mut i: usize = 0;
        while i < self.cpu_pool.len()
            invariant
                0 <= i <= self.cpu_pool.len(),
                forall|j: int| 0 <= j < i ==> (#[trigger] self@.cpu_pool[j]).handle != handle,
            decreases self.cpu_pool.len() - i,
        {
            if self.cpu_pool[i].handle == handle {
                assert(self@.cpu_pool[i as int].handle == handle);
                return true;
            }
            i = i + 1;
        }
        false
    }

    /// Ends the call with a failure.
    fn fail(&mut self, error: JetsonError) -> (r: Action<VideoFrame>)
        ensures
            (final(self)@, r@) == old(self)@.fail(error),
    {
        self.phase = Phase::Idle;
        self.pts_us = 0;
        self.copies = 0;
        self.frames = Vec::new();
        assert(self@ =~= old(self)@.fail(error).0);
        Action::Done(Err(error))
    }

    /// Asks for finished slots.
    fn reclaim(&mut self, why: ReclaimFor, timeout_ms: i32) -> (r: Action<VideoFrame>)
        ensures
            (final(self)@, r@) == old(self)@.reclaim(why, timeout_ms),
    {
        self.phase = Phase::Reclaim(why);
        Action::Reclaim { timeout_ms }
    }

    /// The first free slot.
    fn free_slot(&self) -> (r: Option<usize>)
        ensures
            match r {
                Some(i) => self@.free_slot() == Some(i as int) && i < SLOTS,
                None => self@.free_slot() is None,
            },
    {
        let ghost p = |s: Option<JetsonSurface>| s is None;
        let mut i: usize = 0;
        while i < SLOTS
            invariant
                0 <= i <= SLOTS,
                self@.slots.len() == SLOTS,
                p == (|s: Option<JetsonSurface>| s is None),
                forall|j: int| 0 <= j < i ==> !p(#[trigger] self@.slots[j]),
            decreases SLOTS - i,
        {
            if self.slots[i].is_none() {
                proof {
                    assert(is_first(self@.slots, p, i as int));
                    first_is_first_where(self@.slots, p, i as int);
                }
                return Some(i);
            }
            i = i + 1;
        }
        proof {
            none_is_first_where(self@.slots, p);
        }
        None
    }

    /// The first surface of the pool that nothing needs any more.
    fn free_surface(&self) -> (r: Option<JetsonSurface>)
        ensures
            match r {
                Some(s) => self@.free_surface() is Some && self@.cpu_pool[self@.free_surface()->0]
                    == s && 0 <= self@.free_surface()->0 < self@.cpu_pool.len(),
                None => self@.free_surface() is None,
            },
    {
        let ghost p = |s: JetsonSurface| !self@.busy(s.handle);
        let mut i: usize = 0;
        while i < self.cpu_pool.len()
            invariant
                0 <= i <= self.cpu_pool.len(),
                self@.cpu_pool == self.cpu_pool@,
                p == (|s: JetsonSurface| !self@.busy(s.handle)),
                forall|j: int| 0 <= j < i ==> !p(#[trigger] self@.cpu_pool[j]),
            decreases self.cpu_pool.len() - i,
        {
            let s: JetsonSurface = self.cpu_pool[i];
            if !self.busy(s.handle) {
                proof {
                    assert(is_first(self@.cpu_pool, p, i as int));
                    first_is_first_where(self@.cpu_pool, p, i as int);
                }
                return Some(s);
            }
            i = i + 1;
        }
        proof {
            none_is_first_where(self@.cpu_pool, p);
        }
        None
    }

    /// The frame goes to the first free slot; where none is free, slots are reclaimed.
    fn seek_slot(&mut self, retry: bool) -> (r: Action<VideoFrame>)
        requires
            old(self)@.last is Some,
        ensures
            (final(self)@, r@) == old(self)@.seek_slot(retry),
    {
        match self.free_slot() {
            Some(i) => {
                self.phase = Phase::Queue(i);
                let surface: JetsonSurface = self.last.unwrap();
                Action::Queue { index: i as i32, surface: surface.handle, pts_us: self.pts_us }
            },
            None => {
                let timeout_ms: i32 = if retry {
                    FRAME_TIMEOUT_MS
                } else {
                    0
                };
                self.reclaim(ReclaimFor::Slot { retry }, timeout_ms)
            },
        }
    }

    /// Makes `surface` the frame of this call.
    fn take_frame(&mut self, surface: JetsonSurface) -> (r: Action<VideoFrame>)
        ensures
            (final(self)@, r@) == old(self)@.take_frame(surface),
    {
        self.last = Some(surface);
        self.copies = if self.first {
            2
        } else {
            1
        };
        self.seek_slot(false)
    }

    /// Takes the next encoded frame, unless only the last one is left in flight.
    fn drain(&mut self) -> (r: Action<VideoFrame>)
        ensures
            (final(self)@, r@) == old(self)@.drain(),
    {
        if self.in_flight > MAX_IN_FLIGHT {
            self.phase = Phase::Dequeue;
            let timeout_ms: i32 = if self.first {
                FIRST_FRAME_TIMEOUT_MS
            } else {
                FRAME_TIMEOUT_MS
            };
            Action::Dequeue { timeout_ms }
        } else {
            self.reclaim(ReclaimFor::Finish, 0)
        }
    }

    /// Asks for the pixels to be copied to the upload surface.
    fn copy_pixels(&mut self) -> (r: Action<VideoFrame>)
        requires
            old(self)@.upload is Some,
            old(self)@.config.width * 4 <= usize::MAX,
        ensures
            (final(self)@, r@) == old(self)@.copy_pixels(),
    {
        self.phase = Phase::Upload;
        let upload: JetsonSurface = self.upload.unwrap();
        Action::Upload {
            dst: upload.handle,
            stride: truncate32(self.config.width * 4),
            width: truncate32(self.config.width),
            height: truncate32(self.config.height),
        }
    }

    /// Asks for the uploaded frame to be converted into `dst`.
    fn convert_to(&mut self, dst: JetsonSurface) -> (r: Action<VideoFrame>)
        requires
            old(self)@.well_kept(),
            old(self)@.upload is Some,
            old(self)@.fits(dst),
        ensures
            (final(self)@, r@) == old(self)@.convert_to(dst),
    {
        let upload: JetsonSurface = self.upload.unwrap();
        match upload.convert_into(&dst) {
            Ok(request) => {
                self.phase = Phase::Convert(dst);
                Action::Convert(request)
            },
            Err(e) => self.fail(e),
        }
    }

    /// Picks the surface that the uploaded frame is converted to.
    fn pick_surface(&mut self) -> (r: Action<VideoFrame>)
        requires
            old(self)@.well_kept(),
            old(self)@.upload is Some,
        ensures
            (final(self)@, r@) == old(self)@.pick_surface(),
    {
        match self.free_surface() {
            Some(s) => self.convert_to(s),
            None => {
                self.phase = Phase::AllocNv12;
                Action::Alloc(JetsonSurface::alloc_nv12(self.config.width, self.config.height))
            },
        }
    }

    /// Returns what the call has gathered.
    fn finish(&mut self) -> (r: Action<VideoFrame>)
        ensures
            (final(self)@, r@) == old(self)@.finish(),
    {
        if self.frames.len() == 0 {
            return self.fail(JetsonError::NoValidFrame);
        }
        self.first = false;
        let mut frames: Vec<EncodedVideoFrame> = Vec::new();
        std::mem::swap(&mut frames, &mut self.frames);
        let video: VideoFrame = match self.config.format {
            CodecFormat::H264 => VideoFrame::H264s(frames),
            CodecFormat::H265 => VideoFrame::H265s(frames),
            CodecFormat::AV1 => VideoFrame::Av1s(frames),
            format => {
                return self.fail(JetsonError::UnsupportedFormat { format });
            },
        };
        self.phase = Phase::Idle;
        self.pts_us = 0;
        self.copies = 0;
        assert(self@ =~= old(self)@.finish().0);
        Action::Done(Ok(video))
    }

    /// Begins to encode a picture taken at `ms`.
    pub fn encode_to_message(&mut self, input: EncodeInput, ms: i64) -> (r: Action<VideoFrame>)
        requires
            old(self)@.wf(),
            old(self)@.ready(input, ms),
        ensures
            (final(self)@, r@) == old(self)@.begin(input, ms),
            final(self)@.wf(),
    {
        proof {
            begin_keeps_wf(self@, input, ms);
        }
        let start: i64 = if ms < 0 {
            0
        } else {
            ms
        };
        self.pts_us = start * 1000;
        match input {
            EncodeInput::YUV(data) => self.upload_cpu_frame(data),
            EncodeInput::Texture((ptr, tag)) => {
                if ptr == 0 {
                    match self.last {
                        None => self.fail(JetsonError::NoFrameToRepeat),
                        Some(s) => self.take_frame(s),
                    }
                } else if tag != TEXTURE_TAG {
                    self.fail(JetsonError::NotJetsonTexture)
                } else {
                    self.phase = Phase::Adopt;
                    Action::Adopt { ptr }
                }
            },
        }
    }

    /// Begins to upload a CPU frame.
    fn upload_cpu_frame(&mut self, data: &[u8]) -> (r: Action<VideoFrame>)
        requires
            frame_bytes(old(self)@.config) <= usize::MAX,
        ensures
            (final(self)@, r@) == (if data@.len() < frame_bytes(old(self)@.config) {
                old(self)@.fail(
                    JetsonError::FrameTooSmall {
                        len: data@.len() as usize,
                        need: frame_bytes(old(self)@.config) as usize,
                    },
                )
            } else if old(self)@.upload is None {
                old(self)@.wait(Phase::AllocUpload, Action::Alloc(old(self)@.upload_request()))
            } else {
                old(self)@.reclaim(ReclaimFor::Upload, 0)
            }),
    {
        let w: usize = self.config.width;
        let h: usize = self.config.height;
        assert(0 <= w * h <= w * h * 4) by (nonlinear_arith);
        let need: usize = w * h * 4;
        if data.len() < need {
            return self.fail(JetsonError::FrameTooSmall { len: data.len(), need });
        }
        if self.upload.is_none() {
            self.phase = Phase::AllocUpload;
            return Action::Alloc(JetsonSurface::alloc_format(w, h, JZ_FMT_BGRA));
        }
        self.reclaim(ReclaimFor::Upload, 0)
    }

    /// Takes the device's answer to the last action and says what to do next.
    pub fn resume(&mut self, event: Event) -> (r: Action<VideoFrame>)
        requires
            old(self)@.wf(),
            old(self)@.accepts(event),
        ensures
            (final(self)@, r@) == old(self)@.next(event),
            final(self)@.wf(),
    {
        proof {
            next_keeps_wf(self@, event);
        }
        match self.phase {
            Phase::AllocUpload => {
                if let Event::Alloc(handle) = event {
                    return self.upload_allocated(handle);
                }
            },
            Phase::Reclaim(why) => {
                if let Event::Reclaim(index) = event {
                    return self.reclaim_slots(why, index);
                }
            },
            Phase::Upload => {
                if let Event::Upload(status) = event {
                    if status != 0 {
                        return self.fail(JetsonError::UploadFailed);
                    }
                    return self.pick_surface();
                }
            },
            Phase::AllocNv12 => {
                if let Event::Alloc(handle) = event {
                    return self.nv12_allocated(handle);
                }
            },
            Phase::Convert(dst) => {
                if let Event::Convert(status) = event {
                    return match ConvertRequest::finish(status) {
                        Err(e) => self.fail(e),
                        Ok(_) => self.take_frame(dst),
                    };
                }
            },
            Phase::Adopt => {
                if let Event::Adopt(surface) = event {
                    return self.adopt(surface);
                }
            },
            Phase::Queue(slot) => {
                if let Event::Queue { status, os_error } = event {
                    return self.queued(slot, status, os_error);
                }
            },
            Phase::Dequeue => {
                if let Event::Dequeue { index, data, key, pts_us, os_error } = event {
                    return self.dequeued(index, data, key, pts_us, os_error);
                }
            },
            Phase::Release => {
                return self.drain();
            },
            Phase::Idle => {},
        }
        self.fail(JetsonError::NoValidFrame)
    }

    /// The upload surface is allocated.
    fn upload_allocated(&mut self, handle: usize) -> (r: Action<VideoFrame>)
        requires
            old(self)@.phase is AllocUpload,
        ensures
            (final(self)@, r@) == old(self)@.next(Event::Alloc(handle)),
    {
        let request = JetsonSurface::alloc_format(
            self.config.width,
            self.config.height,
            JZ_FMT_BGRA,
        );
        match request.finish(handle) {
            Err(e) => self.fail(e),
            Ok(s) => {
                self.upload = Some(s);
                self.reclaim(ReclaimFor::Upload, 0)
            },
        }
    }

    /// A slot is finished, or none is any more.
    fn reclaim_slots(&mut self, why: ReclaimFor, index: i32) -> (r: Action<VideoFrame>)
        requires
            old(self)@.wf(),
            old(self)@.phase == Phase::Reclaim(why),
        ensures
            (final(self)@, r@) == old(self)@.next(Event::Reclaim(index)),
    {
        if index < 0 || index as usize >= SLOTS {
            return match why {
                ReclaimFor::Upload => self.copy_pixels(),
                ReclaimFor::Slot { retry } => if retry && self.free_slot().is_none() {
                    self.fail(JetsonError::NoFreeSlot)
                } else {
                    self.seek_slot(true)
                },
                ReclaimFor::Finish => self.finish(),
            };
        }
        self.slots[index as usize] = None;
        self.reclaim(why, 0)
    }

    /// A new surface for uploaded frames is allocated.
    fn nv12_allocated(&mut self, handle: usize) -> (r: Action<VideoFrame>)
        requires
            old(self)@.wf(),
            old(self)@.phase is AllocNv12,
        ensures
            (final(self)@, r@) == old(self)@.next(Event::Alloc(handle)),
    {
        proof {
            next_keeps_wf(self@, Event::Alloc(handle));
        }
        match JetsonSurface::alloc_nv12(self.config.width, self.config.height).finish(handle) {
            Err(e) => self.fail(e),
            Ok(s) => {
                self.cpu_pool.push(s);
                self.convert_to(s)
            },
        }
    }

    /// The surface behind the texture is known.
    fn adopt(&mut self, surface: JetsonSurface) -> (r: Action<VideoFrame>)
        requires
            old(self)@.phase is Adopt,
        ensures
            (final(self)@, r@) == old(self)@.next(Event::Adopt(surface)),
    {
        if !surface.nv12 || surface.width != self.config.width || surface.height
            != self.config.height {
            return self.fail(
                JetsonError::TextureMismatch {
                    width: surface.width,
                    height: surface.height,
                    want_width: self.config.width,
                    want_height: self.config.height,
                },
            );
        }
        self.take_frame(surface)
    }

    /// The frame is queued in `slot`, or could not be.
    fn queued(&mut self, slot: usize, status: i32, os_error: String) -> (r: Action<VideoFrame>)
        requires
            old(self)@.wf(),
            old(self)@.phase == Phase::Queue(slot),
        ensures
            (final(self)@, r@) == old(self)@.next(Event::Queue { status, os_error }),
    {
        if status != 0 {
            return self.fail(JetsonError::QueueFailed { os_error });
        }
        self.slots[slot] = self.last;
        self.in_flight = self.in_flight + 1;
        self.copies = self.copies - 1;
        if self.copies > 0 {
            self.seek_slot(false)
        } else {
            self.drain()
        }
    }

    /// An encoded frame came, none came in time, or taking one failed.
    fn dequeued(
        &mut self,
        index: i32,
        data: Vec<u8>,
        key: i32,
        pts_us: i64,
        os_error: String,
    ) -> (r: Action<VideoFrame>)
        requires
            old(self)@.wf(),
            old(self)@.phase is Dequeue,
        ensures
            (final(self)@, r@) == old(self)@.next(
                Event::Dequeue { index, data, key, pts_us, os_error },
            ),
    {
        if index == -1 {
            self.in_flight = MAX_IN_FLIGHT;
            return self.drain();
        }
        if index < 0 {
            return self.fail(JetsonError::DequeueFailed { os_error });
        }
        self.in_flight = self.in_flight - 1;
        if data.len() > 0 {
            self.frames.push(EncodedVideoFrame::from_buffer(data.as_slice(), key, pts_us));
        }
        self.phase = Phase::Release;
        assert(self@.frames =~= old(self)@.next(
            Event::Dequeue { index, data, key, pts_us, os_error },
        ).0.frames);
        Action::Release { index }
    }

    /// The layout of the CPU frames that the encoder takes.
    pub fn yuvfmt(&self) -> (r: EncodeYuvFormat)
        requires
            self@.config.width * 4 <= usize::MAX,
        ensures
            r.pixfmt == Pixfmt::BGRA,
            r.w == self@.config.width,
            r.h == self@.config.height,
            r.stride@ == seq![(self@.config.width * 4) as usize],
            r.u == 0,
            r.v == 0,
    {
        let mut stride: Vec<usize> = Vec::new();
        stride.push(self.config.width * 4);
        EncodeYuvFormat {
            pixfmt: Pixfmt::BGRA,
            w: self.config.width,
            h: self.config.height,
            stride,
            u: 0,
            v: 0,
        }
    }

    /// Whether the encoder takes GPU textures of the desktop kind: it does not.
    pub fn input_texture(&self) -> (r: bool)
        ensures
            !r,
    {
        false
    }

    /// What to set the device's bitrate to, in bit/s, for a bitrate in kbit/s. Zero leaves the
    /// device alone.
    pub fn bitrate_request(bitrate: u32) -> (r: Option<u32>)
        requires
            bitrate * 1000 <= u32::MAX,
        ensures
            r == (if bitrate > 0 {
                Some((bitrate * 1000) as u32)
            } else {
                None
            }),
    {
        if bitrate > 0 {
            Some(bitrate * 1000)
        } else {
            None
        }
    }

    /// Takes over a quality ratio and the bitrate in kbit/s that it comes to. `status` is the
    /// device's answer to `bitrate_request`, which is not looked at where nothing was asked.
    pub fn set_quality(
        &mut self,
        quality_bits: u32,
        bitrate: u32,
        status: i32,
        os_error: String,
    ) -> (r: Result<(), JetsonError>)
        requires
            old(self)@.wf(),
            bitrate * 1000 <= u32::MAX,
        ensures
            final(self)@.wf(),
            bitrate > 0 && status != 0 ==> r == Err::<(), _>(
                JetsonError::SetBitrateFailed { os_error },
            ) && final(self)@ == old(self)@,
            !(bitrate > 0 && status != 0) ==> r is Ok && final(self)@ == (EncoderState {
                bitrate: if bitrate > 0 {
                    bitrate
                } else {
                    old(self)@.bitrate
                },
                config: JetsonEncoderConfig { quality_bits, ..old(self)@.config },
                ..old(self)@
            }),
    {
        if bitrate > 0 {
            if status != 0 {
                return Err(JetsonError::SetBitrateFailed { os_error });
            }
            self.bitrate = bitrate;
        }
        self.config = JetsonEncoderConfig { quality_bits, ..self.config };
        Ok(())
    }

    /// The bitrate in kbit/s.
    pub fn bitrate(&self) -> (r: u32)
        ensures
            r == self@.bitrate,
    {
        self.bitrate
    }

    /// The set-up, with the quality last set.
    pub fn config(&self) -> (r: JetsonEncoderConfig)
        ensures
            r == self@.config,
    {
        self.config
    }

    /// The quality can be changed while the encoder runs.
    pub fn support_changing_quality(&self) -> (r: bool)
        ensures
            r,
    {
        true
    }

    /// A call does not return its own frame.
    pub fn latency_free(&self) -> (r: bool)
        ensures
            !r,
    {
        false
    }

    /// The encoder is a piece of hardware.
    pub fn is_hardware(&self) -> (r: bool)
        ensures
            r,
    {
        true
    }
}

/// The device is opened as configured: with its own number of the codec, the size, a thousand bit/s
/// for each kbit/s, the key frame distance asked for or one that is never reached, and four slots.
/// Sizes and distances that fit in 32 bits are handed on as they are. Only a codec that the device
/// does not have is refused.
pub proof fn device_is_opened_as_configured(config: JetsonEncoderConfig, bitrate: u32)
    requires
        bitrate * 1000 <= u32::MAX,
    ensures
        ({
            let plan = open_plan(config, bitrate);
            let known = config.format == CodecFormat::H264 || config.format == CodecFormat::H265
                || config.format == CodecFormat::AV1;
            &&& known <==> plan is Ok
            &&& !known ==> plan == Err::<OpenRequest, _>(
                JetsonError::UnsupportedFormat { format: config.format },
            )
            &&& known ==> {
                let r = plan->Ok_0;
                &&& r.config == config
                &&& r.bitrate == bitrate
                &&& r.codec == 0 <==> config.format == CodecFormat::H264
                &&& r.codec == 1 <==> config.format == CodecFormat::H265
                &&& r.codec == 2 <==> config.format == CodecFormat::AV1
                &&& r.width == config.width as int % 0x1_0000_0000
                &&& r.height == config.height as int % 0x1_0000_0000
                &&& r.bits_per_second == bitrate * 1000
                &&& config.keyframe_interval is None ==> r.gop == 0x4000_0000
                &&& config.keyframe_interval is Some ==> r.gop == config.keyframe_interval->0 as int
                    % 0x1_0000_0000
                &&& r.slots == 4
            }
        }),
{
}

} // verus!
