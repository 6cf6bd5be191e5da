//! Codecs, pixel formats and the numbers by which the device knows them.

use vstd::prelude::*;

verus! {

/// `NvBufSurface` colour formats, as the device driver numbers them.
pub const JZ_FMT_NV12: i32 = 0;

pub const JZ_FMT_BGRA: i32 = 1;

pub const JZ_FMT_BGRX: i32 = 2;

pub const JZ_FMT_RGBA: i32 = 3;

pub const JZ_FMT_RGBX: i32 = 4;

/// A video codec.
#[derive(Clone, Copy, Debug, PartialEq, Eq, Structural)]
pub enum CodecFormat {
    VP8,
    VP9,
    AV1,
    H264,
    H265,
    Unknown,
}

/// The name of a codec.
pub open spec fn codec_name(format: CodecFormat) -> Seq<char> {
    match format {
        CodecFormat::VP8 => "VP8"@,
        CodecFormat::VP9 => "VP9"@,
        CodecFormat::AV1 => "AV1"@,
        CodecFormat::H264 => "H264"@,
        CodecFormat::H265 => "H265"@,
        CodecFormat::Unknown => "Unknown"@,
    }
}

impl CodecFormat {
    /// The name of the codec.
    pub fn name(&self) -> (r: &'static str)
        ensures
            r@ == codec_name(*self),
            self is VP8 ==> r@ == "VP8"@,
            self is VP9 ==> r@ == "VP9"@,
            self is AV1 ==> r@ == "AV1"@,
            self is H264 ==> r@ == "H264"@,
            self is H265 ==> r@ == "H265"@,
            self is Unknown ==> r@ == "Unknown"@,
    {
        match self {
            CodecFormat::VP8 => "VP8",
            CodecFormat::VP9 => "VP9",
            CodecFormat::AV1 => "AV1",
            CodecFormat::H264 => "H264",
            CodecFormat::H265 => "H265",
            CodecFormat::Unknown => "Unknown",
        }
    }
}

/// The layout of the pixels of a CPU frame.
#[derive(Clone, Copy, Debug, PartialEq, Eq, Structural)]
pub enum Pixfmt {
    BGRA,
    RGBA,
    RGB565LE,
    I420,
    NV12,
    I444,
}

/// The number of `format` in the device's numbering of the codecs it has, if it has it.
pub open spec fn codec_number(format: CodecFormat) -> Option<i32> {
    match format {
        CodecFormat::H264 => Some(0i32),
        CodecFormat::H265 => Some(1i32),
        CodecFormat::AV1 => Some(2i32),
        CodecFormat::VP8 | CodecFormat::VP9 | CodecFormat::Unknown => None,
    }
}

/// The device's number of a codec; `None` for a codec the device does not encode.
pub fn codec_id(format: CodecFormat) -> (id: Option<i32>)
    ensures
        id == codec_number(format),
{
    match format {
        CodecFormat::H264 => Some(0i32),
        CodecFormat::H265 => Some(1i32),
        CodecFormat::AV1 => Some(2i32),
        _ => None,
    }
}

/// The low 32 bits of `v`, which is how sizes are handed to the device.
pub open spec fn low32(v: int) -> int {
    v % 0x1_0000_0000
}

pub(crate) fn truncate32(v: usize) -> (r: u32)
    ensures
        r == low32(v as int),
{
    let wide: u64 = v as u64;
    assert(wide as u32 == wide % 0x1_0000_0000) by (bit_vector);
    #[verifier::truncate] (wide as u32)
}

/// A size that fits in 32 bits is handed on as it is, and what lies above does not matter.
pub proof fn low_bits_are_kept(v: int)
    ensures
        0 <= low32(v) < 0x1_0000_0000,
        0 <= v < 0x1_0000_0000 ==> low32(v) == v,
        low32(v + 0x1_0000_0000) == low32(v),
{
}

/// The device has three codecs, each under its own number.
pub proof fn codecs_have_their_numbers(format: CodecFormat)
    ensures
        codec_number(format) == Some(0i32) <==> format == CodecFormat::H264,
        codec_number(format) == Some(1i32) <==> format == CodecFormat::H265,
        codec_number(format) == Some(2i32) <==> format == CodecFormat::AV1,
        codec_number(format) is Some ==> 0 <= codec_number(format)->0 <= 2,
{
}

/// No two codecs have the same name.
pub proof fn codec_names_differ(a: CodecFormat, b: CodecFormat)
    requires
        codec_name(a) == codec_name(b),
    ensures
        a == b,
{
    reveal_strlit("VP8");
    reveal_strlit("VP9");
    reveal_strlit("AV1");
    reveal_strlit("H264");
    reveal_strlit("H265");
    reveal_strlit("Unknown");
    let (x, y) = (codec_name(a), codec_name(b));
    assert(x.len() == y.len() && x[0] == y[0] && x[1] == y[1] && x[2] == y[2] && x[3] == y[3]);
}

} // verus!
