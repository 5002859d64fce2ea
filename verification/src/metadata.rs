use vstd::prelude::*;
use crate::gs::VideoFormat;

verus! {

/// The protocol's code of the layout whose pixels lie in memory as blue,
/// green, red, alpha.
pub const SHM_ARGB8888: u32 = 0;

/// The protocol's code of the layout whose pixels lie in memory as blue,
/// green, red and an unused byte.
pub const SHM_XRGB8888: u32 = 1;

/// The protocol's code of the layout whose pixels lie in memory as red,
/// green, blue, alpha.
pub const SHM_ABGR8888: u32 = 0x3432_4241;

/// The number of bytes of one pixel in each layout that the host is given.
pub const BYTES_PER_PIXEL: u32 = 4;

/// Pixel layout of one frame as the compositor proposes it.
///
/// Two proposals describe the same buffer exactly when all four numbers agree;
/// that comparison decides whether a shared buffer can be used again.
#[derive(Clone, Copy, Debug, PartialEq, Eq, Structural)]
pub struct FrameMetadata {
    pub format: u32,
    pub width: u32,
    pub height: u32,
    pub stride: u32,
}

/// Whether the shared-memory interface of the display protocol has a pixel
/// format with this code.
pub uninterp spec fn is_shm_format(raw: u32) -> bool;

/// Trusted: calls `wayland_client::protocol::wl_shm::Format::from_raw`, which
/// looks the code up in the protocol's list of pixel formats, and reports
/// whether a format came back. The result depends on the code alone.
#[verifier::external_body]
pub(crate) fn shm_format_known(raw: u32) -> (known: bool)
    ensures
        known == is_shm_format(raw),
{
    wayland_client::protocol::wl_shm::Format::from_raw(raw).is_some()
}

impl FrameMetadata {
    /// Number of bytes that one frame of this layout occupies.
    pub open spec fn spec_size(self) -> nat {
        (self.height * self.stride) as nat
    }

    /// The protocol carries sizes and dimensions as signed 32-bit numbers; a
    /// layout can be bound to a buffer only if each of them fits.
    pub open spec fn spec_fits_pool(self) -> bool {
        &&& self.width <= i32::MAX
        &&& self.height <= i32::MAX
        &&& self.stride <= i32::MAX
        &&& self.spec_size() <= i32::MAX
    }

    /// The host's name for the way the pixel bytes lie in memory. Only the
    /// formats listed here are handed to the host, each under its own name;
    /// the bytes of any other format would not be what a name says.
    pub open spec fn spec_video_format(self) -> Option<VideoFormat> {
        if self.format == SHM_ARGB8888 {
            Some(VideoFormat::Bgra)
        } else if self.format == SHM_XRGB8888 {
            Some(VideoFormat::Bgrx)
        } else if self.format == SHM_ABGR8888 {
            Some(VideoFormat::Rgba)
        } else {
            None
        }
    }

    /// A row holds all the pixels of its width.
    pub open spec fn spec_rows_fit(self) -> bool {
        self.stride >= self.width * BYTES_PER_PIXEL
    }

    /// A buffer can be bound to the layout, and its frames handed to the
    /// host, if the numbers are in the protocol's range, the host has a name
    /// for the pixel format, and the rows are long enough.
    pub open spec fn spec_bindable(self) -> bool {
        &&& self.spec_fits_pool()
        &&& self.spec_video_format() is Some
        &&& self.spec_rows_fit()
    }

    pub fn new(format: u32, width: u32, height: u32, stride: u32) -> (meta: FrameMetadata)
        ensures
            meta == (FrameMetadata { format, width, height, stride }),
    {
        FrameMetadata { format, width, height, stride }
    }

    /// `height * stride`, as a count of bytes in memory.
    pub fn size(&self) -> (bytes: usize)
        requires
            self.spec_size() <= usize::MAX,
        ensures
            bytes == self.spec_size(),
    {
        (self.height as usize) * (self.stride as usize)
    }

    /// `height * stride` without a limit on the platform's word size.
    pub fn byte_len(&self) -> (bytes: u64)
        ensures
            bytes == self.spec_size(),
    {
        assert(self.height * self.stride <= 0xffff_ffff * 0xffff_ffff) by (nonlinear_arith)
            requires
                self.height <= 0xffff_ffff,
                self.stride <= 0xffff_ffff,
        ;
        (self.height as u64) * (self.stride as u64)
    }

    pub fn fits_pool(&self) -> (fits: bool)
        ensures
            fits == self.spec_fits_pool(),
    {
        self.width <= 0x7fff_ffff && self.height <= 0x7fff_ffff && self.stride <= 0x7fff_ffff
            && self.byte_len() <= 0x7fff_ffff
    }

    pub fn video_format(&self) -> (label: Option<VideoFormat>)
        ensures
            label == self.spec_video_format(),
    {
        if self.format == SHM_ARGB8888 {
            Some(VideoFormat::Bgra)
        } else if self.format == SHM_XRGB8888 {
            Some(VideoFormat::Bgrx)
        } else if self.format == SHM_ABGR8888 {
            Some(VideoFormat::Rgba)
        } else {
            None
        }
    }

    pub fn rows_fit(&self) -> (fit: bool)
        ensures
            fit == self.spec_rows_fit(),
    {
        (self.width as u64) * (BYTES_PER_PIXEL as u64) <= self.stride as u64
    }

    pub fn bindable(&self) -> (bindable: bool)
        ensures
            bindable == self.spec_bindable(),
    {
        self.fits_pool() && self.video_format().is_some() && self.rows_fit()
    }

    /// Whether the display protocol knows the proposed pixel format.
    pub fn format_known(&self) -> (known: bool)
        ensures
            known == is_shm_format(self.format),
    {
        shm_format_known(self.format)
    }
}

impl Default for FrameMetadata {
    fn default() -> (meta: FrameMetadata)
        ensures
            meta == (FrameMetadata { format: 0, width: 0, height: 0, stride: 0 }),
    {
        FrameMetadata { format: 0, width: 0, height: 0, stride: 0 }
    }
}

} // verus!
