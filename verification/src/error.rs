//! What can go wrong.

use crate::format::{codec_name, CodecFormat};
use crate::text::{append_decimal, append_hexadecimal, decimal, hexadecimal};
use vstd::prelude::*;

verus! {

/// A failure of the encoder or of the zero-copy capture.
#[derive(Debug)]
pub enum JetsonError {
    /// The device could not allocate a surface.
    AllocFailed { width: usize, height: usize },
    /// The scanout has a pixel format that cannot be imported.
    UnsupportedScanoutFormat { drm_format: u32 },
    /// The scanout is compressed, which the video image compositor cannot read.
    CompressedModifier { modifier: u64 },
    /// The scanout has a memory layout that cannot be imported.
    UnsupportedModifier { modifier: u64 },
    /// The device refused the dma-buf.
    ImportFailed { width: usize, height: usize, modifier: u64 },
    /// The file descriptor of the scanout could not be duplicated.
    DupFailed { os_error: String },
    /// Source and destination of a conversion differ in size.
    SizeMismatch,
    /// The conversion failed.
    TransformFailed,
    /// The configuration is that of another encoder.
    TypeMismatch,
    /// The device does not encode this codec.
    UnsupportedFormat { format: CodecFormat },
    /// The device could not be opened.
    OpenFailed { format: CodecFormat, reason: String },
    /// There is no earlier frame to repeat.
    NoFrameToRepeat,
    /// The texture is not one of this crate's surfaces.
    NotJetsonTexture,
    /// The texture is not an NV12 surface of the encoder's size.
    TextureMismatch { width: usize, height: usize, want_width: usize, want_height: usize },
    /// The CPU frame holds fewer bytes than the encoder's size needs.
    FrameTooSmall { len: usize, need: usize },
    /// The pixels could not be copied to the upload surface.
    UploadFailed,
    /// Every input slot stayed occupied.
    NoFreeSlot,
    /// An input frame could not be queued.
    QueueFailed { os_error: String },
    /// No encoded frame could be taken.
    DequeueFailed { os_error: String },
    /// The call produced no encoded data.
    NoValidFrame,
    /// The bitrate could not be changed.
    SetBitrateFailed { os_error: String },
}

impl JetsonError {
    /// The failure in words.
    pub open spec fn text(self) -> Seq<char> {
        match self {
            JetsonError::AllocFailed { width, height } => {
                "jetson: NvBufSurfaceCreate "@ + decimal(width as nat) + "x"@
                    + decimal(height as nat) + " failed"@
            },
            JetsonError::UnsupportedScanoutFormat { drm_format } => {
                "jetson: unsupported scanout format "@ + hexadecimal(drm_format as nat)
            },
            JetsonError::CompressedModifier { modifier } => {
                "jetson: compressed scanout modifier "@ + hexadecimal(modifier as nat)
            },
            JetsonError::UnsupportedModifier { modifier } => {
                "jetson: unsupported scanout modifier "@ + hexadecimal(modifier as nat)
            },
            JetsonError::ImportFailed { width, height, modifier } => {
                "jetson: NvBufSurfaceImport failed ("@ + decimal(width as nat) + "x"@
                    + decimal(height as nat) + ", modifier "@ + hexadecimal(modifier as nat) + ")"@
            },
            JetsonError::DupFailed { os_error } => os_error@,
            JetsonError::SizeMismatch => "jetson: VIC size mismatch"@,
            JetsonError::TransformFailed => "jetson: NvBufSurfTransform failed"@,
            JetsonError::TypeMismatch => "encoder type mismatch"@,
            JetsonError::UnsupportedFormat { format } => {
                "jetson: unsupported format "@ + codec_name(format)
            },
            JetsonError::OpenFailed { format, reason } => {
                "jetson: open "@ + codec_name(format) + " encoder: "@ + reason@
            },
            JetsonError::NoFrameToRepeat => "jetson: no frame to repeat"@,
            JetsonError::NotJetsonTexture => "jetson: not a jetson texture"@,
            JetsonError::TextureMismatch { width, height, want_width, want_height } => {
                "jetson: texture "@ + decimal(width as nat) + "x"@ + decimal(height as nat)
                    + " does not match the encoder's "@ + decimal(want_width as nat) + "x"@
                    + decimal(want_height as nat)
            },
            JetsonError::FrameTooSmall { len, need } => {
                "frame too small: "@ + decimal(len as nat) + " < "@ + decimal(need as nat)
            },
            JetsonError::UploadFailed => "jetson: upload failed"@,
            JetsonError::NoFreeSlot => "jetson: encoder did not release an input frame"@,
            JetsonError::QueueFailed { os_error } => "jetson: QBUF failed: "@ + os_error@,
            JetsonError::DequeueFailed { os_error } => {
                "jetson: DQBUF capture failed: "@ + os_error@
            },
            JetsonError::NoValidFrame => "no valid frame"@,
            JetsonError::SetBitrateFailed { os_error } => "jetson: set bitrate: "@ + os_error@,
        }
    }

    /// The failure in words.
    pub fn message(&self) -> (r: String)
        ensures
            r@ == self.text(),
    {
        let mut s: String = String::new();
        match self {
            JetsonError::AllocFailed { width, height } => {
                s.append("jetson: NvBufSurfaceCreate ");
                append_decimal(&mut s, *width);
                s.append("x");
                append_decimal(&mut s, *height);
                s.append(" failed");
            },
            JetsonError::UnsupportedScanoutFormat { drm_format } => {
                s.append("jetson: unsupported scanout format ");
                append_hexadecimal(&mut s, *drm_format as u64);
            },
            JetsonError::CompressedModifier { modifier } => {
                s.append("jetson: compressed scanout modifier ");
                append_hexadecimal(&mut s, *modifier);
            },
            JetsonError::UnsupportedModifier { modifier } => {
                s.append("jetson: unsupported scanout modifier ");
                append_hexadecimal(&mut s, *modifier);
            },
            JetsonError::ImportFailed { width, height, modifier } => {
                s.append("jetson: NvBufSurfaceImport failed (");
                append_decimal(&mut s, *width);
                s.append("x");
                append_decimal(&mut s, *height);
                s.append(", modifier ");
                append_hexadecimal(&mut s, *modifier);
                s.append(")");
            },
            JetsonError::DupFailed { os_error } => {
                s.append(os_error.as_str());
            },
            JetsonError::SizeMismatch => {
                s.append("jetson: VIC size mismatch");
            },
            JetsonError::TransformFailed => {
                s.append("jetson: NvBufSurfTransform failed");
            },
            JetsonError::TypeMismatch => {
                s.append("encoder type mismatch");
            },
            JetsonError::UnsupportedFormat { format } => {
                s.append("jetson: unsupported format ");
                s.append(format.name());
            },
            JetsonError::OpenFailed { format, reason } => {
                s.append("jetson: open ");
                s.append(format.name());
                s.append(" encoder: ");
                s.append(reason.as_str());
            },
            JetsonError::NoFrameToRepeat => {
                s.append("jetson: no frame to repeat");
            },
            JetsonError::NotJetsonTexture => {
                s.append("jetson: not a jetson texture");
            },
            JetsonError::TextureMismatch { width, height, want_width, want_height } => {
                s.append("jetson: texture ");
                append_decimal(&mut s, *width);
                s.append("x");
                append_decimal(&mut s, *height);
                s.append(" does not match the encoder's ");
                append_decimal(&mut s, *want_width);
                s.append("x");
                append_decimal(&mut s, *want_height);
            },
            JetsonError::FrameTooSmall { len, need } => {
                s.append("frame too small: ");
                append_decimal(&mut s, *len);
                s.append(" < ");
                append_decimal(&mut s, *need);
            },
            JetsonError::UploadFailed => {
                s.append("jetson: upload failed");
            },
            JetsonError::NoFreeSlot => {
                s.append("jetson: encoder did not release an input frame");
            },
            JetsonError::QueueFailed { os_error } => {
                s.append("jetson: QBUF failed: ");
                s.append(os_error.as_str());
            },
            JetsonError::DequeueFailed { os_error } => {
                s.append("jetson: DQBUF capture failed: ");
                s.append(os_error.as_str());
            },
            JetsonError::NoValidFrame => {
                s.append("no valid frame");
            },
            JetsonError::SetBitrateFailed { os_error } => {
                s.append("jetson: set bitrate: ");
                s.append(os_error.as_str());
            },
        }
        assert(s@ =~= self.text());
        s
    }
}

/// A failure of the system or of the device is told by a fixed text and then its own words, all of
/// them. One about a codec names it.
pub proof fn words_of_the_system_are_told_in_full(words: String, format: CodecFormat)
    ensures
        (JetsonError::DupFailed { os_error: words }).text() == words@,
        (JetsonError::QueueFailed { os_error: words }).text() == "jetson: QBUF failed: "@ + words@,
        (JetsonError::DequeueFailed { os_error: words }).text() == "jetson: DQBUF capture failed: "@
            + words@,
        (JetsonError::SetBitrateFailed { os_error: words }).text() == "jetson: set bitrate: "@
            + words@,
        (JetsonError::OpenFailed { format, reason: words }).text() == "jetson: open "@
            + codec_name(format) + " encoder: "@ + words@,
        (JetsonError::UnsupportedFormat { format }).text() == "jetson: unsupported format "@
            + codec_name(format),
{
}

/// A failure about sizes or layouts names them in its text, each in its place.
pub proof fn sizes_and_layouts_are_named(
    width: usize,
    height: usize,
    want_width: usize,
    want_height: usize,
    drm_format: u32,
    modifier: u64,
)
    ensures
        (JetsonError::AllocFailed { width, height }).text() == "jetson: NvBufSurfaceCreate "@
            + decimal(width as nat) + "x"@ + decimal(height as nat) + " failed"@,
        (JetsonError::ImportFailed { width, height, modifier }).text()
            == "jetson: NvBufSurfaceImport failed ("@ + decimal(width as nat) + "x"@ + decimal(
            height as nat,
        ) + ", modifier "@ + hexadecimal(modifier as nat) + ")"@,
        (JetsonError::TextureMismatch { width, height, want_width, want_height }).text()
            == "jetson: texture "@ + decimal(width as nat) + "x"@ + decimal(height as nat)
            + " does not match the encoder's "@ + decimal(want_width as nat) + "x"@ + decimal(
            want_height as nat,
        ),
        (JetsonError::FrameTooSmall { len: width, need: want_width }).text()
            == "frame too small: "@ + decimal(width as nat) + " < "@ + decimal(want_width as nat),
        (JetsonError::UnsupportedScanoutFormat { drm_format }).text()
            == "jetson: unsupported scanout format "@ + hexadecimal(drm_format as nat),
        (JetsonError::CompressedModifier { modifier }).text()
            == "jetson: compressed scanout modifier "@ + hexadecimal(modifier as nat),
        (JetsonError::UnsupportedModifier { modifier }).text()
            == "jetson: unsupported scanout modifier "@ + hexadecimal(modifier as nat),
{
}

} // verus!
