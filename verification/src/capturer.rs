//! The stateful capture handle.
//!
//! A [`Capturer`] binds a destination buffer, the staging-texture
//! description it was built for, and the cursor-shape scratch buffer. The
//! surrounding session code acquires a frame, maps the staging texture and
//! hands the mapped bytes here; the capturer checks sizes and performs the
//! pitch-aware pixel copy into its buffer.

mod shared;
mod vec;

use crate::error::Error;
use crate::ext::OutDuplDescExt;
use crate::model::{OutDuplDesc, OutputDesc, TextureDesc};
use crate::pixel::{copy_pixels, frame_bytes};
use vstd::prelude::*;

pub use shared::shared_memory_name;
pub use vec::VecCapturer;

verus! {

/// Pixel format code for 32-bit BGRA (B8G8R8A8, unsigned normalized).
pub const FORMAT_B8G8R8A8_UNORM: u32 = 87;

/// Usage code for a staging texture: a resource that supports data
/// transfer from the GPU to the CPU.
pub const USAGE_STAGING: u32 = 3;

/// CPU-access flag granting read access to a mapped resource.
pub const CPU_ACCESS_READ: u32 = 0x20000;

/// Provides a buffer for the capturer to store the captured frame.
pub trait CapturerBuffer {
    /// The bytes the buffer currently holds.
    spec fn spec_bytes(&self) -> Seq<u8>;

    fn as_bytes(&self) -> (r: &[u8])
        ensures
            r@ == self.spec_bytes(),
    ;

    fn as_bytes_mut(&mut self) -> (r: &mut [u8])
        ensures
            r@ == old(self).spec_bytes(),
            final(r)@ == final(self).spec_bytes(),
    ;
}

/// The staging-texture description for a duplication mode: staging usage
/// with CPU read access, 32-bit BGRA, one mip level, one array slice, no
/// multisampling, and the mode's size with width and height swapped when
/// the panel is rotated 90 or 270 degrees (rotation codes 2 and 4),
/// because the compositor delivers frames in the physical panel
/// orientation.
pub open spec fn spec_readable_texture_desc(
    dupl_desc: OutDuplDesc,
    output_desc: OutputDesc,
) -> TextureDesc {
    let rotated = output_desc.rotation == 2 || output_desc.rotation == 4;
    TextureDesc {
        width: if rotated {
            dupl_desc.mode_height
        } else {
            dupl_desc.mode_width
        },
        height: if rotated {
            dupl_desc.mode_width
        } else {
            dupl_desc.mode_height
        },
        mip_levels: 1,
        array_size: 1,
        format: FORMAT_B8G8R8A8_UNORM,
        sample_count: 1,
        sample_quality: 0,
        usage: USAGE_STAGING,
        bind_flags: 0,
        cpu_access_flags: CPU_ACCESS_READ,
        misc_flags: 0,
    }
}

/// Compute the description of the CPU-readable staging texture that
/// frames of the given mode are copied through.
pub fn readable_texture_desc(dupl_desc: &OutDuplDesc, output_desc: &OutputDesc) -> (r: TextureDesc)
    ensures
        r == spec_readable_texture_desc(*dupl_desc, *output_desc),
{
    let rotated = output_desc.rotation == 2 || output_desc.rotation == 4;
    TextureDesc {
        width: if rotated {
            dupl_desc.mode_height
        } else {
            dupl_desc.mode_width
        },
        height: if rotated {
            dupl_desc.mode_width
        } else {
            dupl_desc.mode_height
        },
        mip_levels: 1,
        array_size: 1,
        format: FORMAT_B8G8R8A8_UNORM,
        sample_count: 1,
        sample_quality: 0,
        usage: USAGE_STAGING,
        bind_flags: 0,
        cpu_access_flags: CPU_ACCESS_READ,
        misc_flags: 0,
    }
}

/// This is stateful and holds a buffer of the last captured frame.
#[derive(Debug)]
pub struct Capturer<Buffer> {
    /// Scratch space for the cursor shape; grown on demand, never shrunk.
    pub pointer_shape_buffer: Vec<u8>,
    /// The buffer to store the captured frame.
    /// The data is stored in BGRA32 format.
    pub buffer: Buffer,
    /// Timeout in milliseconds for the next frame.
    /// By default it is 300ms.
    pub timeout_ms: u32,
    /// The staging-texture description this capturer was built for; the
    /// pixel copy reads its width and height.
    pub texture_desc: TextureDesc,
}

impl<Buffer> Capturer<Buffer> {
    /// Create a new capturer for the given duplication mode and output,
    /// with the provided buffer factory.
    ///
    /// The parameter of `buffer_factory` is the required size of the
    /// buffer, in bytes.
    pub fn new<F: FnOnce(usize) -> Result<Buffer, Error>>(
        dupl_desc: &OutDuplDesc,
        output_desc: &OutputDesc,
        buffer_factory: F,
    ) -> (r: Result<Self, Error>)
        requires
            dupl_desc.spec_buffer_size() <= usize::MAX,
            call_requires(buffer_factory, ((dupl_desc.spec_buffer_size() as usize),)),
        ensures
            match r {
                Ok(c) => {
                    &&& call_ensures(
                        buffer_factory,
                        ((dupl_desc.spec_buffer_size() as usize),),
                        Ok(c.buffer),
                    )
                    &&& c.texture_desc == spec_readable_texture_desc(
                        *dupl_desc,
                        *output_desc,
                    )
                    &&& c.pointer_shape_buffer@ == Seq::<u8>::empty()
                    &&& c.timeout_ms == 300
                },
                Err(e) => call_ensures(
                    buffer_factory,
                    ((dupl_desc.spec_buffer_size() as usize),),
                    Err(e),
                ),
            },
    {
        let size = dupl_desc.calc_buffer_size();
        let texture_desc = readable_texture_desc(dupl_desc, output_desc);
        let buffer = match buffer_factory(size) {
            Ok(b) => b,
            Err(e) => {
                return Err(e);
            },
        };
        Ok(
            Capturer {
                buffer,
                texture_desc,
                pointer_shape_buffer: Vec::new(),
                timeout_ms: 300,
            },
        )
    }

    /// Ensure [`Self::buffer`] is large enough to hold a frame of the
    /// current duplication mode.
    ///
    /// The mode is passed in rather than cached so that a resolution
    /// change after construction is caught.
    pub fn check_buffer(&self, dupl_desc: &OutDuplDesc) -> (r: Result<(), Error>)
        where Buffer: CapturerBuffer
        requires
            dupl_desc.spec_buffer_size() <= usize::MAX,
        ensures
            r is Ok <==> self.buffer.spec_bytes().len() >= dupl_desc.spec_buffer_size(),
            r matches Err(e) ==> e == Error::InvalidBufferLength,
    {
        if self.buffer.as_bytes().len() < dupl_desc.calc_buffer_size() {
            Err(Error::InvalidBufferLength)
        } else {
            Ok(())
        }
    }

    /// Copy one mapped frame into [`Self::buffer`], without checking that
    /// the buffer is large enough: that is this function's precondition,
    /// which [`Self::store_frame`] checks at run time instead.
    ///
    /// `pixels` is the mapped staging texture's region and `pitch` the
    /// byte distance between its row starts. The frame lands packed at the
    /// front of the buffer, `width * 4` bytes per row; bytes beyond it
    /// keep their values.
    pub fn store_frame_unchecked(&mut self, pixels: &[u8], pitch: usize)
        where Buffer: CapturerBuffer
        requires
            0 < old(self).texture_desc.width,
            4 * old(self).texture_desc.width <= pitch,
            pitch * old(self).texture_desc.height <= pixels@.len(),
            4 * old(self).texture_desc.width * old(self).texture_desc.height <= old(self).buffer.spec_bytes().len(),
        ensures
            final(self).texture_desc == old(self).texture_desc,
            final(self).pointer_shape_buffer == old(self).pointer_shape_buffer,
            final(self).timeout_ms == old(self).timeout_ms,
            final(self).buffer.spec_bytes().len() == old(self).buffer.spec_bytes().len(),
            final(self).buffer.spec_bytes().subrange(
                0,
                4 * old(self).texture_desc.width * old(self).texture_desc.height,
            ) == frame_bytes(
                pixels@,
                pitch as int,
                4 * old(self).texture_desc.width,
                old(self).texture_desc.height as int,
            ),
            forall|i: int|
                4 * old(self).texture_desc.width * old(self).texture_desc.height <= i
                    < old(self).buffer.spec_bytes().len() ==> final(self).buffer.spec_bytes()[i] == old(self).buffer.spec_bytes()[i],
    {
        let width = self.texture_desc.width;
        let height = self.texture_desc.height;
        let dest = self.buffer.as_bytes_mut();
        copy_pixels(pixels, pitch, width, height, dest);
    }

    /// Copy one mapped frame into [`Self::buffer`], first checking that
    /// the buffer is large enough for the frame; fails with
    /// [`Error::InvalidBufferLength`] exactly when it is not.
    pub fn store_frame(&mut self, pixels: &[u8], pitch: usize) -> (r: Result<(), Error>)
        where Buffer: CapturerBuffer
        requires
            0 < old(self).texture_desc.width,
            4 * old(self).texture_desc.width <= pitch,
            pitch * old(self).texture_desc.height <= pixels@.len(),
        ensures
            final(self).texture_desc == old(self).texture_desc,
            final(self).pointer_shape_buffer == old(self).pointer_shape_buffer,
            final(self).timeout_ms == old(self).timeout_ms,
            r is Ok <==> 4 * old(self).texture_desc.width * old(self).texture_desc.height <= old(self).buffer.spec_bytes().len(),
            r matches Err(e) ==> e == Error::InvalidBufferLength && final(self).buffer == old(self).buffer,
            r is Ok ==> {
                &&& final(self).buffer.spec_bytes().len() == old(self).buffer.spec_bytes().len()
                &&& final(self).buffer.spec_bytes().subrange(
                    0,
                    4 * old(self).texture_desc.width * old(self).texture_desc.height,
                ) == frame_bytes(
                    pixels@,
                    pitch as int,
                    4 * old(self).texture_desc.width,
                    old(self).texture_desc.height as int,
                )
                &&& forall|i: int|
                    4 * old(self).texture_desc.width * old(self).texture_desc.height <= i < old(self).buffer.spec_bytes().len() ==> final(self).buffer.spec_bytes()[i] == old(self).buffer.spec_bytes()[i]
            },
    {
        let width = self.texture_desc.width;
        let height = self.texture_desc.height;
        let pixels_len = pixels.len();
        let row_bytes: usize = (width as usize) * 4;
        proof {
            assert(pixels_len == pixels@.len());
            assert((row_bytes as int) * (height as int) <= pitch * height) by (nonlinear_arith)
                requires
                    row_bytes <= pitch,
                    height >= 0,
            ;
        }
        let needed: usize = row_bytes * (height as usize);
        if self.buffer.as_bytes().len() < needed {
            return Err(Error::InvalidBufferLength);
        }
        self.store_frame_unchecked(pixels, pitch);
        Ok(())
    }

    /// Grow [`Self::pointer_shape_buffer`] so that it holds at least
    /// `size` bytes. The scratch buffer never shrinks: a request smaller
    /// than its current length leaves it untouched, so across the life of
    /// a capturer it only grows, to fit the largest shape seen so far.
    pub fn prepare_pointer_shape_buffer(&mut self, size: u32)
        ensures
            final(self).texture_desc == old(self).texture_desc,
            final(self).buffer == old(self).buffer,
            final(self).timeout_ms == old(self).timeout_ms,
            final(self).pointer_shape_buffer@.len() >= old(self).pointer_shape_buffer@.len(),
            final(self).pointer_shape_buffer@.len() >= size,
            old(self).pointer_shape_buffer@.len() >= size ==> final(self).pointer_shape_buffer
                == old(self).pointer_shape_buffer,
            old(self).pointer_shape_buffer@.len() < size ==> {
                &&& final(self).pointer_shape_buffer@.len() == size
                &&& final(self).pointer_shape_buffer@.subrange(
                    0,
                    old(self).pointer_shape_buffer@.len() as int,
                ) == old(self).pointer_shape_buffer@
                &&& forall|i: int|
                    old(self).pointer_shape_buffer@.len() <= i < size ==> final(self).pointer_shape_buffer@[i] == 0u8
            },
    {
        let size = size as usize;
        if self.pointer_shape_buffer.len() < size {
            self.pointer_shape_buffer.resize(size, 0);
        }
    }
}

} // verus!
