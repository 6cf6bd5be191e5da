//! GPU surfaces: allocation, import of a scanout, conversion.

use crate::error::JetsonError;
use crate::format::{
    low32, truncate32, JZ_FMT_BGRA, JZ_FMT_BGRX, JZ_FMT_NV12, JZ_FMT_RGBA, JZ_FMT_RGBX,
};
use vstd::prelude::*;

verus! {

/// Tags a texture handle as a surface of this crate.
pub const TEXTURE_TAG: usize = 0x6a65_7473;

/// An `NvBufSurface`, known by its handle: allocated by the encoder or the capture,
/// or imported from a dma-buf.
#[derive(Clone, Copy, Debug, PartialEq, Eq, Structural)]
pub struct JetsonSurface {
    /// The address by which the caller knows the surface. It is not null, and no two live
    /// surfaces share one.
    pub handle: usize,
    pub width: usize,
    pub height: usize,
    pub nv12: bool,
}

/// A surface that the device is to allocate.
#[derive(Clone, Copy, Debug, PartialEq, Eq, Structural)]
pub struct AllocRequest {
    pub width: usize,
    pub height: usize,
    pub format: i32,
}

/// A dma-buf that the device is to import, in its own terms.
#[derive(Clone, Copy, Debug, PartialEq, Eq, Structural)]
pub struct ImportRequest {
    pub width: usize,
    pub height: usize,
    pub modifier: u64,
    /// The colour format, in the device's numbering.
    pub format: i32,
    pub pitch: u32,
    pub offset: u32,
    /// The logarithm of the height of a block, or -1 for a linear layout.
    pub block_height_log2: i32,
}

/// A conversion between two surfaces that the device is to run.
#[derive(Clone, Copy, Debug, PartialEq, Eq, Structural)]
pub struct ConvertRequest {
    pub src: usize,
    pub dst: usize,
}

/// The DRM code made of four characters, the first in the lowest byte.
pub open spec fn fourcc(a: char, b: char, c: char, d: char) -> int {
    a as int + 0x100 * (b as int) + 0x1_0000 * (c as int) + 0x100_0000 * (d as int)
}

/// The device's colour format of a 32-bit RGB scanout, if it is one that can be imported.
pub open spec fn scanout_format(drm_format: u32) -> Option<i32> {
    if drm_format == fourcc('A', 'R', '2', '4') {
        Some(JZ_FMT_BGRA)
    } else if drm_format == fourcc('X', 'R', '2', '4') {
        Some(JZ_FMT_BGRX)
    } else if drm_format == fourcc('A', 'B', '2', '4') {
        Some(JZ_FMT_RGBA)
    } else if drm_format == fourcc('X', 'B', '2', '4') {
        Some(JZ_FMT_RGBX)
    } else {
        None
    }
}

/// The vendor of a DRM format modifier: its highest byte.
pub open spec fn modifier_vendor(modifier: u64) -> int {
    modifier as int / 0x100_0000_0000_0000
}

/// Whether the modifier, read as one of NVIDIA's, names a block-linear layout: bit 4.
pub open spec fn modifier_block_linear(modifier: u64) -> bool {
    (modifier as int / 0x10) % 2 == 1
}

/// The compression kind of an NVIDIA block-linear layout: bits 23 to 25.
pub open spec fn modifier_compression(modifier: u64) -> int {
    (modifier as int / 0x80_0000) % 8
}

/// The logarithm of the block height of an NVIDIA block-linear layout: the low four bits.
pub open spec fn modifier_block_height(modifier: u64) -> int {
    modifier as int % 0x10
}

/// What the memory layout of a scanout comes to: the block height for the device
/// (-1 for linear), or why the scanout cannot be read.
pub open spec fn scanout_layout(modifier: u64) -> Result<int, JetsonError> {
    if modifier == 0 {
        Ok(-1)
    } else if modifier_vendor(modifier) == 3 && modifier_block_linear(modifier) {
        if modifier_compression(modifier) != 0 {
            Err(JetsonError::CompressedModifier { modifier })
        } else {
            Ok(modifier_block_height(modifier))
        }
    } else {
        Err(JetsonError::UnsupportedModifier { modifier })
    }
}

/// What the import of a scanout asks of the device, or why it is refused. The pixel
/// format is looked at before the layout.
pub open spec fn import_plan(
    width: usize,
    height: usize,
    drm_format: u32,
    modifier: u64,
    pitch: u32,
    offset: u32,
) -> Result<ImportRequest, JetsonError> {
    match scanout_format(drm_format) {
        None => Err(JetsonError::UnsupportedScanoutFormat { drm_format }),
        Some(format) => match scanout_layout(modifier) {
            Err(e) => Err(e),
            Ok(log2) => Ok(
                ImportRequest {
                    width,
                    height,
                    modifier,
                    format,
                    pitch,
                    offset,
                    block_height_log2: log2 as i32,
                },
            ),
        },
    }
}

impl JetsonSurface {
    /// The surface is an NV12 surface of this size: one that an encoder of this size reads.
    pub open spec fn is_frame(self, width: usize, height: usize) -> bool {
        self.nv12 && self.width == width && self.height == height
    }

    /// Asks for an NV12 surface.
    pub fn alloc_nv12(width: usize, height: usize) -> (r: AllocRequest)
        ensures
            r == (AllocRequest { width, height, format: JZ_FMT_NV12 }),
    {
        Self::alloc_format(width, height, JZ_FMT_NV12)
    }

    /// Asks for a surface of the given colour format.
    pub fn alloc_format(width: usize, height: usize, format: i32) -> (r: AllocRequest)
        ensures
            r == (AllocRequest { width, height, format }),
    {
        AllocRequest { width, height, format }
    }

    /// Asks for the import of a single-plane 32-bit RGB dma-buf (a KMS scanout). Linear and
    /// NVIDIA block-linear layouts can be imported.
    pub fn import(
        width: usize,
        height: usize,
        drm_format: u32,
        modifier: u64,
        pitch: u32,
        offset: u32,
    ) -> (r: Result<ImportRequest, JetsonError>)
        ensures
            r == import_plan(width, height, drm_format, modifier, pitch, offset),
            r is Ok ==> {
                &&& r->Ok_0.width == width
                &&& r->Ok_0.height == height
                &&& r->Ok_0.modifier == modifier
                &&& r->Ok_0.pitch == pitch
                &&& r->Ok_0.offset == offset
            },
    {
        let format: i32 = if drm_format == 0x3432_5241 {
            JZ_FMT_BGRA
        } else if drm_format == 0x3432_5258 {
            JZ_FMT_BGRX
        } else if drm_format == 0x3432_4241 {
            JZ_FMT_RGBA
        } else if drm_format == 0x3432_4258 {
            JZ_FMT_RGBX
        } else {
            return Err(JetsonError::UnsupportedScanoutFormat { drm_format });
        };
        proof {
            assert(modifier >> 56 == modifier / 0x100_0000_0000_0000) by (bit_vector);
            assert((modifier & 0x10 != 0) == ((modifier / 0x10) % 2 == 1)) by (bit_vector);
            assert((modifier >> 23) & 0x7 == (modifier / 0x80_0000) % 8) by (bit_vector);
            assert(modifier & 0xf == modifier % 0x10) by (bit_vector);
        }
        let block_height_log2: i32 = if modifier == 0 {
            -1i32
        } else if modifier >> 56 == 3 && modifier & 0x10 != 0 {
            if (modifier >> 23) & 0x7 != 0 {
                return Err(JetsonError::CompressedModifier { modifier });
            }
            (modifier & 0xf) as i32
        } else {
            return Err(JetsonError::UnsupportedModifier { modifier });
        };
        Ok(ImportRequest { width, height, modifier, format, pitch, offset, block_height_log2 })
    }

    /// The width in pixels.
    pub fn width(&self) -> (r: usize)
        ensures
            r == self.width,
    {
        self.width
    }

    /// The height in pixels.
    pub fn height(&self) -> (r: usize)
        ensures
            r == self.height,
    {
        self.height
    }

    /// Asks for a conversion (or copy) into `dst`. Both surfaces must have the same size.
    pub fn convert_into(&self, dst: &JetsonSurface) -> (r: Result<ConvertRequest, JetsonError>)
        ensures
            r == (if self.width == dst.width && self.height == dst.height {
                Ok(ConvertRequest { src: self.handle, dst: dst.handle })
            } else {
                Err(JetsonError::SizeMismatch)
            }),
    {
        if self.width != dst.width || self.height != dst.height {
            return Err(JetsonError::SizeMismatch);
        }
        Ok(ConvertRequest { src: self.handle, dst: dst.handle })
    }

    /// The texture by which an encoder takes this surface: its handle and the tag.
    pub fn texture(&self) -> (r: (usize, usize))
        ensures
            r == (self.handle, TEXTURE_TAG),
    {
        (self.handle, TEXTURE_TAG)
    }
}

impl AllocRequest {
    /// The surface that an allocation gives, which the caller knows by `handle`; a null `handle`
    /// is a refusal.
    pub open spec fn outcome(self, handle: usize) -> Result<JetsonSurface, JetsonError> {
        if handle == 0 {
            Err(JetsonError::AllocFailed { width: self.width, height: self.height })
        } else {
            Ok(
                JetsonSurface {
                    handle,
                    width: self.width,
                    height: self.height,
                    nv12: self.format == JZ_FMT_NV12,
                },
            )
        }
    }

    /// The width and height that the device is asked for: 32 bits of each.
    pub fn device_size(&self) -> (r: (u32, u32))
        ensures
            r.0 == low32(self.width as int),
            r.1 == low32(self.height as int),
    {
        (truncate32(self.width), truncate32(self.height))
    }

    /// Turns the answer, the handle of the surface or null where there is none, into a surface.
    pub fn finish(self, handle: usize) -> (r: Result<JetsonSurface, JetsonError>)
        ensures
            r == self.outcome(handle),
    {
        if handle == 0 {
            return Err(JetsonError::AllocFailed { width: self.width, height: self.height });
        }
        Ok(
            JetsonSurface {
                handle,
                width: self.width,
                height: self.height,
                nv12: self.format == JZ_FMT_NV12,
            },
        )
    }
}

impl ImportRequest {
    /// The surface that an import gives, which the caller knows by `handle`; a null `handle` is
    /// a refusal.
    pub open spec fn outcome(self, handle: usize) -> Result<JetsonSurface, JetsonError> {
        if handle == 0 {
            Err(
                JetsonError::ImportFailed {
                    width: self.width,
                    height: self.height,
                    modifier: self.modifier,
                },
            )
        } else {
            Ok(JetsonSurface { handle, width: self.width, height: self.height, nv12: false })
        }
    }

    /// The width and height that the device is asked for: 32 bits of each.
    pub fn device_size(&self) -> (r: (u32, u32))
        ensures
            r.0 == low32(self.width as int),
            r.1 == low32(self.height as int),
    {
        (truncate32(self.width), truncate32(self.height))
    }

    /// Turns the answer, the handle of the surface or null where there is none, into a surface.
    pub fn finish(self, handle: usize) -> (r: Result<JetsonSurface, JetsonError>)
        ensures
            r == self.outcome(handle),
    {
        if handle == 0 {
            return Err(
                JetsonError::ImportFailed {
                    width: self.width,
                    height: self.height,
                    modifier: self.modifier,
                },
            );
        }
        Ok(JetsonSurface { handle, width: self.width, height: self.height, nv12: false })
    }
}

impl ConvertRequest {
    /// What a conversion that ended with `status` comes to.
    pub open spec fn outcome(status: i32) -> Result<(), JetsonError> {
        if status != 0 {
            Err(JetsonError::TransformFailed)
        } else {
            Ok(())
        }
    }

    /// Turns the device's answer into a result: anything but zero is a failure.
    pub fn finish(status: i32) -> (r: Result<(), JetsonError>)
        ensures
            r == Self::outcome(status),
    {
        if status != 0 {
            return Err(JetsonError::TransformFailed);
        }
        Ok(())
    }
}

/// The colour format of an accepted import is that of the four-character code, whatever the
/// layout: "AR24" is BGRA, "XR24" is BGRX, "AB24" is RGBA and "XB24" is RGBX, and there is no
/// fifth. Size, layout, pitch and offset are those given.
pub proof fn imported_colours_are_those_of_the_code(
    width: usize,
    height: usize,
    drm_format: u32,
    modifier: u64,
    pitch: u32,
    offset: u32,
    request: ImportRequest,
)
    requires
        import_plan(width, height, drm_format, modifier, pitch, offset) == Ok::<_, JetsonError>(
            request,
        ),
    ensures
        request.format == 1 <==> drm_format == 0x3432_5241,
        request.format == 2 <==> drm_format == 0x3432_5258,
        request.format == 3 <==> drm_format == 0x3432_4241,
        request.format == 4 <==> drm_format == 0x3432_4258,
        1 <= request.format <= 4,
        request.width == width,
        request.height == height,
        request.modifier == modifier,
        request.pitch == pitch,
        request.offset == offset,
{
}

/// The bits of a modifier that decide over the import: the vendor, the bit that names a
/// block-linear layout, the three of the compression and the four of the block height.
proof fn modifier_bits(modifier: u64)
    ensures
        modifier_vendor(modifier) == modifier >> 56,
        modifier_block_linear(modifier) == (modifier & 0x10 != 0),
        modifier_compression(modifier) != 0 <==> modifier & 0x380_0000 != 0,
        modifier_block_height(modifier) == modifier & 0xf,
{
    assert(modifier >> 56 == modifier / 0x100_0000_0000_0000) by (bit_vector);
    assert((modifier & 0x10 != 0) == ((modifier / 0x10) % 2 == 1)) by (bit_vector);
    assert((modifier & 0x380_0000 != 0) == ((modifier / 0x80_0000) % 8 != 0)) by (bit_vector);
    assert(modifier & 0xf == modifier % 0x10) by (bit_vector);
}

/// Which scanouts are imported, whatever their size: those of the four codes that are linear, or
/// NVIDIA's block-linear and not compressed. A linear one has the block height -1, any other the
/// low four bits of its modifier. An unknown code is refused before the layout is looked at.
pub proof fn readable_scanouts_are_imported(
    width: usize,
    height: usize,
    drm_format: u32,
    modifier: u64,
    pitch: u32,
    offset: u32,
)
    ensures
        ({
            let plan = import_plan(width, height, drm_format, modifier, pitch, offset);
            let known = drm_format == 0x3432_5241 || drm_format == 0x3432_5258 || drm_format
                == 0x3432_4241 || drm_format == 0x3432_4258;
            let blocks = modifier >> 56 == 3 && modifier & 0x10 != 0;
            let compressed = modifier & 0x380_0000 != 0;
            &&& !known <==> plan == Err::<ImportRequest, _>(
                JetsonError::UnsupportedScanoutFormat { drm_format },
            )
            &&& known && modifier == 0 ==> plan is Ok && plan->Ok_0.block_height_log2 == -1
            &&& known && blocks && !compressed ==> plan is Ok && plan->Ok_0.block_height_log2
                == modifier & 0xf
            &&& known && blocks && compressed ==> plan == Err::<ImportRequest, _>(
                JetsonError::CompressedModifier { modifier },
            )
            &&& known && modifier != 0 && !blocks ==> plan == Err::<ImportRequest, _>(
                JetsonError::UnsupportedModifier { modifier },
            )
        }),
{
    modifier_bits(modifier);
    assert(modifier == 0 ==> modifier & 0x10 == 0) by (bit_vector);
    assert(0 <= modifier & 0xf < 16) by (bit_vector);
}

/// Code and layout do not mix: where one scanout is imported and so is another, a scanout with the
/// code of the first and the layout of the second is imported too, with the colours of the first
/// and the block height of the second.
pub proof fn code_and_layout_do_not_mix(
    width: usize,
    height: usize,
    pitch: u32,
    offset: u32,
    codes: (u32, u32),
    modifiers: (u64, u64),
)
    requires
        import_plan(width, height, codes.0, modifiers.0, pitch, offset) is Ok,
        import_plan(width, height, codes.1, modifiers.1, pitch, offset) is Ok,
    ensures
        ({
            let one = import_plan(width, height, codes.0, modifiers.0, pitch, offset)->Ok_0;
            let two = import_plan(width, height, codes.1, modifiers.1, pitch, offset)->Ok_0;
            let mixed = import_plan(width, height, codes.0, modifiers.1, pitch, offset);
            &&& mixed is Ok
            &&& mixed->Ok_0.format == one.format
            &&& mixed->Ok_0.block_height_log2 == two.block_height_log2
        }),
{
}

/// An allocation gives a surface exactly if the handle is not null: of the size asked for, known
/// by that handle, and an NV12 surface if and only if the device's first format was asked for.
pub proof fn allocated_surface_is_the_one_asked_for(request: AllocRequest, handle: usize)
    ensures
        handle == 0 ==> request.outcome(handle) == Err::<JetsonSurface, _>(
            JetsonError::AllocFailed { width: request.width, height: request.height },
        ),
        handle != 0 ==> request.outcome(handle) is Ok && ({
            let s = request.outcome(handle)->Ok_0;
            &&& s.handle == handle
            &&& s.width == request.width
            &&& s.height == request.height
            &&& s.nv12 <==> request.format == 0
        }),
{
}

/// An import gives a surface exactly if the handle is not null: of the size asked for, known by
/// that handle, and never an NV12 surface.
pub proof fn imported_surface_is_the_one_asked_for(request: ImportRequest, handle: usize)
    ensures
        handle == 0 ==> request.outcome(handle) == Err::<JetsonSurface, _>(
            JetsonError::ImportFailed {
                width: request.width,
                height: request.height,
                modifier: request.modifier,
            },
        ),
        handle != 0 ==> request.outcome(handle) is Ok && ({
            let s = request.outcome(handle)->Ok_0;
            &&& s.handle == handle
            &&& s.width == request.width
            &&& s.height == request.height
            &&& !s.nv12
        }),
{
}

/// A conversion succeeded exactly if its status is zero.
pub proof fn conversion_succeeds_with_status_zero(status: i32)
    ensures
        ConvertRequest::outcome(status) is Ok <==> status == 0,
        status != 0 ==> ConvertRequest::outcome(status) == Err::<(), _>(
            JetsonError::TransformFailed,
        ),
{
}

} // verus!
