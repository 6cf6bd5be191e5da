//! The encoder as a state machine: what it remembers, what it asks of the device, and
//! how each answer moves it.

use crate::error::JetsonError;
use crate::format::{codec_number, low32, CodecFormat, JZ_FMT_BGRA, JZ_FMT_NV12};
use crate::frame::{encoded_frame, EncodeInput, FrameView, VideoFrame, VideoView};
use crate::search::first_where;
use crate::surface::{AllocRequest, ConvertRequest, JetsonSurface, TEXTURE_TAG};
use vstd::prelude::*;

verus! {

/// How long the first frame may take: it allocates the device's memory pools.
pub const FIRST_FRAME_TIMEOUT_MS: i32 = 2000;

/// How long a later frame may take.
pub const FRAME_TIMEOUT_MS: i32 = 500;

/// How many frames a call leaves with the device.
pub const MAX_IN_FLIGHT: usize = 1;

/// The input slots of the device: those in flight, the one being queued and the duplicate
/// of the first frame.
pub const SLOTS: usize = 4;

/// The distance of key frames where none is asked for. It is never reached: a key frame
/// comes with a new encoder.
pub const DEFAULT_GOP: u32 = 0x4000_0000;

/// How an encoder is set up.
#[derive(Clone, Copy, Debug, PartialEq, Eq, Structural)]
pub struct JetsonEncoderConfig {
    pub format: CodecFormat,
    pub width: usize,
    pub height: usize,
    /// The quality ratio, as the bits of a single-precision number.
    pub quality_bits: u32,
    pub keyframe_interval: Option<usize>,
}

/// Why slots are being reclaimed.
#[derive(Clone, Copy, Debug, PartialEq, Eq, Structural)]
pub enum ReclaimFor {
    /// To free surfaces before a CPU frame is uploaded.
    Upload,
    /// To find a free slot: at once, or on the retry after waiting.
    Slot { retry: bool },
    /// To end the call.
    Finish,
}

/// The answer that the encoder waits for.
#[derive(Clone, Copy, Debug, PartialEq, Eq, Structural)]
pub enum Phase {
    /// None: no call is being served.
    Idle,
    AllocUpload,
    Reclaim(ReclaimFor),
    Upload,
    AllocNv12,
    Convert(JetsonSurface),
    Adopt,
    Queue(usize),
    Dequeue,
    Release,
}

/// What the caller has to do next. All but the last ask for a call of the device, whose
/// answer is handed back as the `Event` of the same name.
#[derive(Debug)]
pub enum Action<V> {
    /// Allocate a surface.
    Alloc(AllocRequest),
    /// Ask which input slot the device has finished with.
    Reclaim { timeout_ms: i32 },
    /// Copy the pixels of the CPU frame to the surface at `dst`.
    Upload { dst: usize, stride: u32, width: u32, height: u32 },
    /// Convert one surface into another.
    Convert(ConvertRequest),
    /// Look up the surface behind a texture.
    Adopt { ptr: usize },
    /// Queue the surface in an input slot.
    Queue { index: i32, surface: usize, pts_us: i64 },
    /// Take an encoded frame.
    Dequeue { timeout_ms: i32 },
    /// Give the bitstream buffer back.
    Release { index: i32 },
    /// Nothing: the call is over.
    Done(Result<V, JetsonError>),
}

/// An answer of the device.
#[derive(Debug)]
pub enum Event {
    /// The handle of the new surface, or null.
    Alloc(usize),
    /// The number of a finished slot; anything else means that there is none.
    Reclaim(i32),
    /// Zero, or a failure.
    Upload(i32),
    /// Zero, or a failure.
    Convert(i32),
    /// The surface behind the texture.
    Adopt(JetsonSurface),
    /// Zero, or a failure with the system's words for it.
    Queue { status: i32, os_error: String },
    /// The bitstream buffer with its contents; -1 when none came in time, any other negative
    /// number for a failure with the system's words for it.
    Dequeue { index: i32, data: Vec<u8>, key: i32, pts_us: i64, os_error: String },
    /// The bitstream buffer is given back.
    Release,
}

/// What an encoder remembers.
#[verifier::ext_equal]
pub struct EncoderState {
    pub config: JetsonEncoderConfig,
    /// The bitrate in kbit/s.
    pub bitrate: u32,
    /// The surface that each input slot holds until the device has read it.
    pub slots: Seq<Option<JetsonSurface>>,
    /// The surface that CPU frames are uploaded to.
    pub upload: Option<JetsonSurface>,
    /// The NV12 surfaces that uploaded frames are converted to.
    pub cpu_pool: Seq<JetsonSurface>,
    /// The last frame.
    pub last: Option<JetsonSurface>,
    /// The frames queued that have not come back encoded.
    pub in_flight: int,
    /// No frame has been returned yet.
    pub first: bool,
    pub phase: Phase,
    /// Of the call being served: the presentation time in microseconds,
    pub pts_us: int,
    /// how many times the frame is still to be queued,
    pub copies: int,
    /// and the encoded frames so far.
    pub frames: Seq<FrameView>,
}

impl View for Action<VideoFrame> {
    type V = Action<VideoView>;

    open spec fn view(&self) -> Action<VideoView> {
        match *self {
            Action::Alloc(request) => Action::Alloc(request),
            Action::Reclaim { timeout_ms } => Action::Reclaim { timeout_ms },
            Action::Upload { dst, stride, width, height } => Action::Upload {
                dst,
                stride,
                width,
                height,
            },
            Action::Convert(request) => Action::Convert(request),
            Action::Adopt { ptr } => Action::Adopt { ptr },
            Action::Queue { index, surface, pts_us } => Action::Queue { index, surface, pts_us },
            Action::Dequeue { timeout_ms } => Action::Dequeue { timeout_ms },
            Action::Release { index } => Action::Release { index },
            Action::Done(Ok(v)) => Action::Done(Ok(v@)),
            Action::Done(Err(e)) => Action::Done(Err(e)),
        }
    }
}

/// What a step leads to: the new state and what the caller does next.
pub type Next = (EncoderState, Action<VideoView>);

/// The presentation time that the device is given for a time in milliseconds.
pub open spec fn presentation_us(ms: i64) -> int {
    if ms < 0 {
        0
    } else {
        ms * 1000
    }
}

/// The number of bytes of a CPU frame.
pub open spec fn frame_bytes(config: JetsonEncoderConfig) -> int {
    config.width * config.height * 4
}

/// The encoded frames under their codec; there is nothing of the sort for a codec that the
/// device does not encode.
pub open spec fn message(format: CodecFormat, frames: Seq<FrameView>) -> Option<VideoView> {
    match format {
        CodecFormat::H264 => Some(VideoView::H264s(frames)),
        CodecFormat::H265 => Some(VideoView::H265s(frames)),
        CodecFormat::AV1 => Some(VideoView::Av1s(frames)),
        CodecFormat::VP8 | CodecFormat::VP9 | CodecFormat::Unknown => None,
    }
}

impl EncoderState {
    /// An encoder that has just been opened.
    pub open spec fn fresh(config: JetsonEncoderConfig, bitrate: u32) -> EncoderState {
        EncoderState {
            config,
            bitrate,
            slots: Seq::new(SLOTS as nat, |i: int| None),
            upload: None,
            cpu_pool: Seq::empty(),
            last: None,
            in_flight: 0,
            first: true,
            phase: Phase::Idle,
            pts_us: 0,
            copies: 0,
            frames: Seq::empty(),
        }
    }

    /// `s` is a frame that this encoder can read.
    pub open spec fn fits(self, s: JetsonSurface) -> bool {
        s.is_frame(self.config.width, self.config.height)
    }

    /// Slot `i` holds the surface at `handle`.
    pub open spec fn slot_holds(self, i: int, handle: usize) -> bool {
        0 <= i < self.slots.len() && self.slots[i] is Some && self.slots[i]->0.handle == handle
    }

    /// The surface at `handle` is in a slot, where the device may still read it, or is the
    /// last frame, which may have to be repeated.
    pub open spec fn busy(self, handle: usize) -> bool {
        ||| exists|i: int| #[trigger] self.slot_holds(i, handle)
        ||| self.last is Some && self.last->0.handle == handle
    }

    /// The surface at `handle` is referred to by the encoder and must not go away.
    pub open spec fn holds(self, handle: usize) -> bool {
        ||| self.busy(handle)
        ||| self.upload is Some && self.upload->0.handle == handle
        ||| exists|i: int|
            0 <= i < self.cpu_pool.len() && (#[trigger] self.cpu_pool[i]).handle == handle
    }

    /// What every frame and every slot must be, in any phase.
    pub open spec fn well_kept(self) -> bool {
        &&& self.slots.len() == SLOTS
        &&& codec_number(self.config.format) is Some
        &&& self.bitrate * 1000 <= u32::MAX
        &&& self.in_flight >= 0
        &&& !self.first ==> self.in_flight >= MAX_IN_FLIGHT
        &&& self.upload is Some ==> {
            &&& self.upload->0.width == self.config.width
            &&& self.upload->0.height == self.config.height
            &&& !self.upload->0.nv12
        }
        &&& self.last is Some ==> self.fits(self.last->0)
        &&& forall|i: int|
            0 <= i < self.slots.len() && (#[trigger] self.slots[i]) is Some ==> self.fits(
                self.slots[i]->0,
            )
        &&& forall|i: int| 0 <= i < self.cpu_pool.len() ==> self.fits(#[trigger] self.cpu_pool[i])
        &&& forall|i: int| 0 <= i < self.frames.len() ==> (#[trigger] self.frames[i]).data.len() > 0
    }

    /// No frame has been queued yet in this call.
    pub open spec fn acquiring(self) -> bool {
        &&& self.copies == 0
        &&& self.frames.len() == 0
        &&& self.in_flight + 2 <= usize::MAX
        &&& 0 <= self.pts_us <= i64::MAX
    }

    /// A frame is being uploaded.
    pub open spec fn uploading(self) -> bool {
        &&& self.acquiring()
        &&& self.upload is Some
        &&& self.config.width * 4 <= usize::MAX
    }

    /// The frame is being queued.
    pub open spec fn queueing(self) -> bool {
        &&& self.last is Some
        &&& 1 <= self.copies <= (if self.first { 2int } else { 1 })
        &&& self.frames.len() == 0
        &&& self.in_flight + self.copies <= usize::MAX
        &&& 0 <= self.pts_us <= i64::MAX
    }

    /// Encoded frames are being taken.
    pub open spec fn draining(self) -> bool {
        &&& self.last is Some
        &&& self.copies == 0
        &&& MAX_IN_FLIGHT <= self.in_flight <= usize::MAX
    }

    /// What holds of an encoder between any two steps.
    pub open spec fn wf(self) -> bool {
        &&& self.well_kept()
        &&& match self.phase {
            Phase::Idle => {
                &&& self.copies == 0
                &&& self.pts_us == 0
                &&& self.frames.len() == 0
                &&& self.in_flight <= usize::MAX
            },
            Phase::AllocUpload => {
                &&& self.acquiring()
                &&& self.upload is None
                &&& self.config.width * 4 <= usize::MAX
            },
            Phase::Reclaim(ReclaimFor::Upload) => self.uploading(),
            Phase::Upload => self.uploading(),
            Phase::AllocNv12 => self.uploading(),
            Phase::Convert(dst) => self.uploading() && self.cpu_pool.contains(dst),
            Phase::Adopt => self.acquiring(),
            Phase::Reclaim(ReclaimFor::Slot { retry }) => self.queueing(),
            Phase::Queue(slot) => {
                &&& self.queueing()
                &&& slot < SLOTS
                &&& self.slots[slot as int] is None
            },
            Phase::Dequeue => self.draining() && self.in_flight > MAX_IN_FLIGHT,
            Phase::Release => self.draining(),
            Phase::Reclaim(ReclaimFor::Finish) => {
                &&& self.draining()
                &&& self.in_flight == MAX_IN_FLIGHT
            },
        }
    }

    /// `event` is the answer that the encoder waits for.
    pub open spec fn accepts(self, event: Event) -> bool {
        match self.phase {
            Phase::Idle => false,
            Phase::AllocUpload | Phase::AllocNv12 => event is Alloc,
            Phase::Reclaim(_) => event is Reclaim,
            Phase::Upload => event is Upload,
            Phase::Convert(_) => event is Convert,
            Phase::Adopt => event is Adopt,
            Phase::Queue(_) => event is Queue,
            Phase::Dequeue => event is Dequeue,
            Phase::Release => event is Release,
        }
    }

    /// A call can be served: none is being served, and no number runs over.
    pub open spec fn ready(self, input: EncodeInput, ms: i64) -> bool {
        &&& self.phase is Idle
        &&& self.in_flight + 2 <= usize::MAX
        &&& presentation_us(ms) <= i64::MAX
        &&& input is YUV ==> frame_bytes(self.config) <= usize::MAX && self.config.width * 4
            <= usize::MAX
    }

    /// Ends the call. What was gathered for it is forgotten.
    pub open spec fn done(self, result: Result<VideoView, JetsonError>) -> Next {
        (
            EncoderState {
                phase: Phase::Idle,
                pts_us: 0,
                copies: 0,
                frames: Seq::empty(),
                ..self
            },
            Action::Done(result),
        )
    }

    pub open spec fn fail(self, error: JetsonError) -> Next {
        self.done(Err(error))
    }

    pub open spec fn wait(self, phase: Phase, action: Action<VideoView>) -> Next {
        (EncoderState { phase, ..self }, action)
    }

    /// Asks for finished slots, waiting for the first of them at most `timeout_ms`.
    pub open spec fn reclaim(self, why: ReclaimFor, timeout_ms: i32) -> Next {
        self.wait(Phase::Reclaim(why), Action::Reclaim { timeout_ms })
    }

    /// The request for the surface that CPU frames are uploaded to.
    pub open spec fn upload_request(self) -> AllocRequest {
        AllocRequest { width: self.config.width, height: self.config.height, format: JZ_FMT_BGRA }
    }

    /// The request for a surface that an uploaded frame is converted to.
    pub open spec fn nv12_request(self) -> AllocRequest {
        AllocRequest { width: self.config.width, height: self.config.height, format: JZ_FMT_NV12 }
    }

    /// The first surface of the pool that nothing needs any more.
    pub open spec fn free_surface(self) -> Option<int> {
        first_where(self.cpu_pool, |s: JetsonSurface| !self.busy(s.handle))
    }

    /// The first free slot.
    pub open spec fn free_slot(self) -> Option<int> {
        first_where(self.slots, |s: Option<JetsonSurface>| s is None)
    }

    /// A call begins.
    pub open spec fn begin(self, input: EncodeInput, ms: i64) -> Next {
        let s = EncoderState { pts_us: presentation_us(ms), ..self };
        match input {
            EncodeInput::YUV(data) => if data@.len() < frame_bytes(self.config) {
                s.fail(
                    JetsonError::FrameTooSmall {
                        len: data@.len() as usize,
                        need: frame_bytes(self.config) as usize,
                    },
                )
            } else if self.upload is None {
                s.wait(Phase::AllocUpload, Action::Alloc(self.upload_request()))
            } else {
                s.reclaim(ReclaimFor::Upload, 0)
            },
            EncodeInput::Texture((ptr, tag)) => if ptr == 0 {
                if self.last is None {
                    s.fail(JetsonError::NoFrameToRepeat)
                } else {
                    s.take_frame(self.last->0)
                }
            } else if tag != TEXTURE_TAG {
                s.fail(JetsonError::NotJetsonTexture)
            } else {
                s.wait(Phase::Adopt, Action::Adopt { ptr })
            },
        }
    }

    /// The pixels can be copied to the upload surface.
    pub open spec fn copy_pixels(self) -> Next {
        self.wait(
            Phase::Upload,
            Action::Upload {
                dst: self.upload->0.handle,
                stride: low32(self.config.width * 4) as u32,
                width: low32(self.config.width as int) as u32,
                height: low32(self.config.height as int) as u32,
            },
        )
    }

    /// The uploaded frame is to be converted into `dst`.
    pub open spec fn convert_to(self, dst: JetsonSurface) -> Next {
        self.wait(
            Phase::Convert(dst),
            Action::Convert(ConvertRequest { src: self.upload->0.handle, dst: dst.handle }),
        )
    }

    /// The pixels are on the upload surface: a surface of the pool takes the frame, a new one
    /// where all are needed.
    pub open spec fn pick_surface(self) -> Next {
        match self.free_surface() {
            Some(i) => self.convert_to(self.cpu_pool[i]),
            None => self.wait(Phase::AllocNv12, Action::Alloc(self.nv12_request())),
        }
    }

    /// `surface` is the frame of this call. The first frame is queued twice, so that one frame
    /// is in flight from the start and every call has a finished one to return.
    pub open spec fn take_frame(self, surface: JetsonSurface) -> Next {
        EncoderState {
            last: Some(surface),
            copies: if self.first {
                2
            } else {
                1
            },
            ..self
        }.seek_slot(false)
    }

    /// The frame goes to the first free slot. Where none is free, slots are reclaimed.
    pub open spec fn seek_slot(self, retry: bool) -> Next {
        match self.free_slot() {
            Some(i) => self.wait(
                Phase::Queue(i as usize),
                Action::Queue {
                    index: i as i32,
                    surface: self.last->0.handle,
                    pts_us: self.pts_us as i64,
                },
            ),
            None => self.reclaim(
                ReclaimFor::Slot { retry },
                if retry {
                    FRAME_TIMEOUT_MS
                } else {
                    0
                },
            ),
        }
    }

    /// How long to wait for an encoded frame.
    pub open spec fn dequeue_timeout(self) -> i32 {
        if self.first {
            FIRST_FRAME_TIMEOUT_MS
        } else {
            FRAME_TIMEOUT_MS
        }
    }

    /// Encoded frames are taken until one is left in flight. Taking that one too would leave
    /// the next call with nothing finished to return.
    pub open spec fn drain(self) -> Next {
        if self.in_flight > MAX_IN_FLIGHT {
            self.wait(Phase::Dequeue, Action::Dequeue { timeout_ms: self.dequeue_timeout() })
        } else {
            self.reclaim(ReclaimFor::Finish, 0)
        }
    }

    /// The call returns what it has gathered.
    pub open spec fn finish(self) -> Next {
        if self.frames.len() == 0 {
            self.fail(JetsonError::NoValidFrame)
        } else {
            let s = EncoderState { first: false, ..self };
            match message(self.config.format, self.frames) {
                Some(m) => s.done(Ok(m)),
                None => s.fail(JetsonError::UnsupportedFormat { format: self.config.format }),
            }
        }
    }

    /// There is no finished slot any more.
    pub open spec fn reclaimed(self, why: ReclaimFor) -> Next {
        match why {
            ReclaimFor::Upload => self.copy_pixels(),
            ReclaimFor::Slot { retry: false } => self.seek_slot(true),
            ReclaimFor::Slot { retry: true } => if self.free_slot() is Some {
                self.seek_slot(true)
            } else {
                self.fail(JetsonError::NoFreeSlot)
            },
            ReclaimFor::Finish => self.finish(),
        }
    }

    /// An answer of the device moves the call on.
    pub open spec fn next(self, event: Event) -> Next {
        match (self.phase, event) {
            (Phase::AllocUpload, Event::Alloc(handle)) => match self.upload_request().outcome(
                handle,
            ) {
                Err(e) => self.fail(e),
                Ok(s) => EncoderState { upload: Some(s), ..self }.reclaim(ReclaimFor::Upload, 0),
            },
            (Phase::Reclaim(why), Event::Reclaim(index)) => if 0 <= index < SLOTS {
                EncoderState { slots: self.slots.update(index as int, None), ..self }.reclaim(
                    why,
                    0,
                )
            } else {
                self.reclaimed(why)
            },
            (Phase::Upload, Event::Upload(status)) => if status != 0 {
                self.fail(JetsonError::UploadFailed)
            } else {
                self.pick_surface()
            },
            (Phase::AllocNv12, Event::Alloc(handle)) => match self.nv12_request().outcome(handle) {
                Err(e) => self.fail(e),
                Ok(s) => EncoderState { cpu_pool: self.cpu_pool.push(s), ..self }.convert_to(s),
            },
            (Phase::Convert(dst), Event::Convert(status)) => match ConvertRequest::outcome(status) {
                Err(e) => self.fail(e),
                Ok(_) => self.take_frame(dst),
            },
            (Phase::Adopt, Event::Adopt(surface)) => if self.fits(surface) {
                self.take_frame(surface)
            } else {
                self.fail(
                    JetsonError::TextureMismatch {
                        width: surface.width,
                        height: surface.height,
                        want_width: self.config.width,
                        want_height: self.config.height,
                    },
                )
            },
            (Phase::Queue(slot), Event::Queue { status, os_error }) => if status != 0 {
                self.fail(JetsonError::QueueFailed { os_error })
            } else {
                let s = EncoderState {
                    slots: self.slots.update(slot as int, self.last),
                    in_flight: self.in_flight + 1,
                    copies: self.copies - 1,
                    ..self
                };
                if s.copies > 0 {
                    s.seek_slot(false)
                } else {
                    s.drain()
                }
            },
            (Phase::Dequeue, Event::Dequeue { index, data, key, pts_us, os_error }) => if index
                == -1 {
                // An input produced no output; the count must not drift.
                EncoderState { in_flight: MAX_IN_FLIGHT as int, ..self }.drain()
            } else if index < 0 {
                self.fail(JetsonError::DequeueFailed { os_error })
            } else {
                EncoderState {
                    in_flight: self.in_flight - 1,
                    frames: if data@.len() == 0 {
                        self.frames
                    } else {
                        self.frames.push(encoded_frame(data@, key, pts_us))
                    },
                    ..self
                }.wait(Phase::Release, Action::Release { index })
            },
            (Phase::Release, Event::Release) => self.drain(),
            // Not an answer to what was asked.
            _ => self.fail(JetsonError::NoValidFrame),
        }
    }
}

} // verus!
