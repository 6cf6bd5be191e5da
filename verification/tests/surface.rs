use jetson::error::JetsonError;
use jetson::format::{
    codec_id, CodecFormat, JZ_FMT_BGRA, JZ_FMT_BGRX, JZ_FMT_NV12, JZ_FMT_RGBA, JZ_FMT_RGBX,
};
use jetson::surface::{ConvertRequest, ImportRequest, JetsonSurface, TEXTURE_TAG};

fn fourcc(code: &[u8; 4]) -> u32 {
    u32::from_le_bytes(*code)
}

fn import(code: &[u8; 4], modifier: u64) -> Result<ImportRequest, JetsonError> {
    JetsonSurface::import(1920, 1080, fourcc(code), modifier, 7680, 64)
}

const BLOCK_LINEAR: u64 = 0x0300_0000_0000_0010;

#[test]
fn width_and_height_are_those_asked_for() {
    let s = JetsonSurface::alloc_nv12(640, 480).finish(7).unwrap();
    assert_eq!(s.width(), 640);
    assert_eq!(s.height(), 480);
    assert_eq!(s.handle, 7);
    assert!(s.nv12);
}

#[test]
fn only_the_nv12_format_makes_a_frame() {
    assert_eq!(JetsonSurface::alloc_nv12(4, 4).format, JZ_FMT_NV12);
    let s = JetsonSurface::alloc_format(4, 4, JZ_FMT_BGRA).finish(7).unwrap();
    assert!(!s.nv12);
}

#[test]
fn null_allocation_is_a_failure() {
    let e = JetsonSurface::alloc_nv12(640, 480).finish(0).unwrap_err();
    assert_eq!(e.message(), "jetson: NvBufSurfaceCreate 640x480 failed");
}

#[test]
fn device_gets_the_low_bits_of_a_size() {
    let wide = 0x1_0000_0005u64 as usize;
    assert_eq!(JetsonSurface::alloc_nv12(wide, 480).device_size(), (5, 480));
    let r = JetsonSurface::import(wide, 480, fourcc(b"AR24"), 0, 0, 0).unwrap();
    assert_eq!(r.device_size(), (5, 480));
}

#[test]
fn rgb_scanouts_are_imported() {
    for (code, format) in [
        (b"AR24", JZ_FMT_BGRA),
        (b"XR24", JZ_FMT_BGRX),
        (b"AB24", JZ_FMT_RGBA),
        (b"XB24", JZ_FMT_RGBX),
    ] {
        let r = import(code, 0).unwrap();
        assert_eq!(r.format, format);
        assert_eq!((r.width, r.height, r.pitch, r.offset), (1920, 1080, 7680, 64));
        assert_eq!(r.block_height_log2, -1);
    }
}

#[test]
fn other_scanout_formats_are_refused() {
    let e = import(b"NV12", 0).unwrap_err();
    assert!(matches!(
        e,
        JetsonError::UnsupportedScanoutFormat { drm_format } if drm_format == fourcc(b"NV12")
    ));
    assert_eq!(e.message(), "jetson: unsupported scanout format 0x3231564e");
}

#[test]
fn block_height_is_read_off_the_modifier() {
    for log2 in 0..16u64 {
        let r = import(b"XR24", BLOCK_LINEAR | log2).unwrap();
        assert_eq!(r.block_height_log2, log2 as i32);
    }
    // Bits that say nothing about compression are let through.
    let r = import(b"XR24", BLOCK_LINEAR | (0xfe << 12) | (1 << 22) | (1 << 26) | 4).unwrap();
    assert_eq!(r.block_height_log2, 4);
}

#[test]
fn compressed_scanouts_are_refused() {
    for bit in 23..26 {
        let modifier = BLOCK_LINEAR | 4 | (1 << bit);
        let e = import(b"XR24", modifier).unwrap_err();
        assert!(matches!(e, JetsonError::CompressedModifier { modifier: m } if m == modifier));
    }
    let e = import(b"XR24", BLOCK_LINEAR | 0x80_0004).unwrap_err();
    assert_eq!(e.message(), "jetson: compressed scanout modifier 0x300000000800014");
}

#[test]
fn other_layouts_are_refused() {
    // Another vendor, and NVIDIA without the block-linear bit.
    for modifier in [0x0100_0000_0000_0010u64, 0x0300_0000_0000_0004, 0xf] {
        let e = import(b"XR24", modifier).unwrap_err();
        assert!(matches!(e, JetsonError::UnsupportedModifier { modifier: m } if m == modifier));
    }
    assert_eq!(
        import(b"XR24", 0xf).unwrap_err().message(),
        "jetson: unsupported scanout modifier 0xf"
    );
}

#[test]
fn format_is_looked_at_before_the_layout() {
    assert!(matches!(
        import(b"NV12", 0xf).unwrap_err(),
        JetsonError::UnsupportedScanoutFormat { .. }
    ));
}

#[test]
fn imported_surface_is_no_frame() {
    let r = import(b"XR24", BLOCK_LINEAR | 4).unwrap();
    let s = r.finish(9).unwrap();
    assert_eq!((s.handle, s.width, s.height, s.nv12), (9, 1920, 1080, false));
    assert_eq!(
        r.finish(0).unwrap_err().message(),
        "jetson: NvBufSurfaceImport failed (1920x1080, modifier 0x300000000000014)"
    );
}

#[test]
fn conversion_needs_equal_sizes() {
    let a = JetsonSurface { handle: 1, width: 8, height: 6, nv12: false };
    let b = JetsonSurface { handle: 2, width: 8, height: 6, nv12: true };
    assert_eq!(a.convert_into(&b).unwrap(), ConvertRequest { src: 1, dst: 2 });
    for other in [
        JetsonSurface { width: 9, ..b },
        JetsonSurface { height: 7, ..b },
        JetsonSurface { width: 6, height: 8, ..b },
    ] {
        let e = a.convert_into(&other).unwrap_err();
        assert_eq!(e.message(), "jetson: VIC size mismatch");
    }
}

#[test]
fn conversion_status_is_zero_or_a_failure() {
    assert!(ConvertRequest::finish(0).is_ok());
    for status in [-1, 1] {
        let e = ConvertRequest::finish(status).unwrap_err();
        assert_eq!(e.message(), "jetson: NvBufSurfTransform failed");
    }
}

#[test]
fn texture_is_the_address_and_the_tag() {
    let s = JetsonSurface { handle: 77, width: 8, height: 6, nv12: true };
    assert_eq!(s.texture(), (77, TEXTURE_TAG));
    assert_eq!(TEXTURE_TAG, 0x6a65_7473);
}

#[test]
fn codecs_of_the_device_are_numbered() {
    assert_eq!(codec_id(CodecFormat::H264), Some(0));
    assert_eq!(codec_id(CodecFormat::H265), Some(1));
    assert_eq!(codec_id(CodecFormat::AV1), Some(2));
    assert_eq!(codec_id(CodecFormat::VP8), None);
    assert_eq!(codec_id(CodecFormat::VP9), None);
    assert_eq!(codec_id(CodecFormat::Unknown), None);
}

#[test]
fn failures_are_put_in_words() {
    let w = |s: &str| s.to_owned();
    for (e, text) in [
        (JetsonError::DupFailed { os_error: w("Too many open files") }, "Too many open files"),
        (JetsonError::TypeMismatch, "encoder type mismatch"),
        (
            JetsonError::UnsupportedFormat { format: CodecFormat::VP9 },
            "jetson: unsupported format VP9",
        ),
        (
            JetsonError::OpenFailed { format: CodecFormat::H265, reason: w("no device") },
            "jetson: open H265 encoder: no device",
        ),
        (JetsonError::NoFrameToRepeat, "jetson: no frame to repeat"),
        (JetsonError::NotJetsonTexture, "jetson: not a jetson texture"),
        (
            JetsonError::TextureMismatch {
                width: 0,
                height: 10,
                want_width: 3840,
                want_height: usize::MAX,
            },
            "jetson: texture 0x10 does not match the encoder's 3840x18446744073709551615",
        ),
        (JetsonError::FrameTooSmall { len: 9, need: 12 }, "frame too small: 9 < 12"),
        (JetsonError::UploadFailed, "jetson: upload failed"),
        (JetsonError::NoFreeSlot, "jetson: encoder did not release an input frame"),
        (JetsonError::QueueFailed { os_error: w("EIO") }, "jetson: QBUF failed: EIO"),
        (
            JetsonError::DequeueFailed { os_error: w("EPIPE") },
            "jetson: DQBUF capture failed: EPIPE",
        ),
        (JetsonError::NoValidFrame, "no valid frame"),
        (JetsonError::SetBitrateFailed { os_error: w("EBUSY") }, "jetson: set bitrate: EBUSY"),
    ] {
        assert_eq!(e.message(), text);
    }
}
