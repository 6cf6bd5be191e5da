//! Frames: what goes into the encoder and what comes out of it.

use crate::format::{CodecFormat, Pixfmt};
use bytes::Bytes;
use vstd::prelude::*;

verus! {

/// `bytes::Bytes`, a shared immutable buffer. Its fields stay hidden.
#[verifier::external_type_specification]
#[verifier::external_body]
pub struct ExBytes(bytes::Bytes);

/// The bytes that a buffer holds.
pub uninterp spec fn bytes_content(b: bytes::Bytes) -> Seq<u8>;

/// `bytes::Bytes::copy_from_slice` makes a buffer that holds a copy of the slice, in its
/// order and at its length.
pub assume_specification[ bytes::Bytes::copy_from_slice ](data: &[u8]) -> (r: bytes::Bytes)
    ensures
        bytes_content(r) == data@,
;

/// A picture to encode.
#[derive(Clone, Copy, Debug)]
pub enum EncodeInput<'a> {
    /// The pixels of a CPU frame.
    YUV(&'a [u8]),
    /// A GPU frame: an address and a tag, see `JetsonSurface::texture`. A null address asks
    /// for the last frame once more.
    Texture((usize, usize)),
}

/// The CPU frame that an encoder takes.
#[derive(Debug)]
pub struct EncodeYuvFormat {
    pub pixfmt: Pixfmt,
    pub w: usize,
    pub h: usize,
    pub stride: Vec<usize>,
    pub u: usize,
    pub v: usize,
}

/// One encoded picture.
#[derive(Debug)]
pub struct EncodedVideoFrame {
    pub data: Bytes,
    /// Whether it can be decoded on its own.
    pub key: bool,
    /// Its presentation time in milliseconds.
    pub pts: i64,
}

/// The encoded pictures that one call returns, under their codec.
#[derive(Debug)]
pub enum VideoFrame {
    H264s(Vec<EncodedVideoFrame>),
    H265s(Vec<EncodedVideoFrame>),
    Av1s(Vec<EncodedVideoFrame>),
}

/// What an encoded picture is.
#[verifier::ext_equal]
pub struct FrameView {
    pub data: Seq<u8>,
    pub key: bool,
    pub pts: int,
}

/// What a call returns.
#[verifier::ext_equal]
pub enum VideoView {
    H264s(Seq<FrameView>),
    H265s(Seq<FrameView>),
    Av1s(Seq<FrameView>),
}

impl View for EncodedVideoFrame {
    type V = FrameView;

    open spec fn view(&self) -> FrameView {
        FrameView { data: bytes_content(self.data), key: self.key, pts: self.pts as int }
    }
}

/// What a list of encoded pictures is.
pub open spec fn frames_view(frames: Seq<EncodedVideoFrame>) -> Seq<FrameView> {
    frames.map_values(|f: EncodedVideoFrame| f@)
}

impl View for VideoFrame {
    type V = VideoView;

    open spec fn view(&self) -> VideoView {
        match *self {
            VideoFrame::H264s(v) => VideoView::H264s(frames_view(v@)),
            VideoFrame::H265s(v) => VideoView::H265s(frames_view(v@)),
            VideoFrame::Av1s(v) => VideoView::Av1s(frames_view(v@)),
        }
    }
}

impl VideoView {
    /// The encoded pictures, whatever the codec.
    pub open spec fn frames(self) -> Seq<FrameView> {
        match self {
            VideoView::H264s(v) => v,
            VideoView::H265s(v) => v,
            VideoView::Av1s(v) => v,
        }
    }

    /// The codec.
    pub open spec fn codec(self) -> CodecFormat {
        match self {
            VideoView::H264s(_) => CodecFormat::H264,
            VideoView::H265s(_) => CodecFormat::H265,
            VideoView::Av1s(_) => CodecFormat::AV1,
        }
    }
}

/// `a / b` rounded towards zero, for a positive `b`.
pub open spec fn quotient(a: int, b: int) -> int {
    if a < 0 {
        -((-a) / b)
    } else {
        a / b
    }
}

/// The picture that a bitstream buffer of the device holds.
pub open spec fn encoded_frame(data: Seq<u8>, key: i32, pts_us: i64) -> FrameView {
    FrameView { data, key: key != 0, pts: quotient(pts_us as int, 1000) }
}

impl EncodedVideoFrame {
    /// Copies a picture out of a bitstream buffer: any `key` but zero marks a key frame, and
    /// microseconds become milliseconds.
    pub fn from_buffer(data: &[u8], key: i32, pts_us: i64) -> (r: EncodedVideoFrame)
        ensures
            r@ == encoded_frame(data@, key, pts_us),
            bytes_content(r.data) == data@,
            r.key == (key != 0),
            pts_us >= 0 ==> 0 <= 1000 * r.pts <= pts_us < 1000 * r.pts + 1000,
            pts_us <= 0 ==> 1000 * r.pts - 1000 < pts_us <= 1000 * r.pts <= 0,
    {
        let pts: i64 = pts_us / 1000;
        EncodedVideoFrame { data: Bytes::copy_from_slice(data), key: key != 0, pts }
    }
}

/// A picture holds every byte of its buffer and no other, at any length; it is a key frame unless
/// the flag is zero; and its time is that of the buffer in whole milliseconds, without the rest.
pub proof fn picture_is_what_the_buffer_held(data: Seq<u8>, key: i32, pts_us: i64)
    ensures
        encoded_frame(data, key, pts_us).data == data,
        encoded_frame(data, key, pts_us).key <==> key != 0,
        ({
            let ms = encoded_frame(data, key, pts_us).pts;
            &&& pts_us >= 0 ==> 0 <= 1000 * ms <= pts_us < 1000 * ms + 1000
            &&& pts_us <= 0 ==> 1000 * ms - 1000 < pts_us <= 1000 * ms <= 0
        }),
{
}

/// Different buffers make different pictures.
pub proof fn no_two_buffers_make_one_picture(a: Seq<u8>, b: Seq<u8>, key: i32, pts_us: i64)
    requires
        encoded_frame(a, key, pts_us) == encoded_frame(b, key, pts_us),
    ensures
        a == b,
{
}

/// What a message shows is what it holds: its codec, and each of its pictures with all its bytes,
/// its flag and its time.
pub proof fn message_shows_its_pictures(video: VideoFrame)
    ensures
        video is H264s <==> video@ is H264s,
        video is H265s <==> video@ is H265s,
        video is Av1s <==> video@ is Av1s,
        ({
            let held: Seq<EncodedVideoFrame> = match video {
                VideoFrame::H264s(v) => v@,
                VideoFrame::H265s(v) => v@,
                VideoFrame::Av1s(v) => v@,
            };
            let shown: Seq<FrameView> = match video@ {
                VideoView::H264s(v) => v,
                VideoView::H265s(v) => v,
                VideoView::Av1s(v) => v,
            };
            &&& shown.len() == held.len()
            &&& shown == video@.frames()
            &&& forall|i: int|
                0 <= i < held.len() ==> {
                    &&& (#[trigger] shown[i]).data == bytes_content(held[i].data)
                    &&& shown[i].key == held[i].key
                    &&& shown[i].pts == held[i].pts
                }
        }),
{
}

} // verus!
