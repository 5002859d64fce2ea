use vstd::prelude::*;

verus! {

/// Pixel layouts in which the host accepts video frames.
#[derive(Clone, Copy, Debug, PartialEq, Eq, Structural)]
pub enum VideoFormat {
    Unset,
    I420,
    Nv12,
    Yvyu,
    Yuy2,
    Uyvy,
    Rgba,
    Bgra,
    Bgrx,
    Y800,
    I444,
}

/// Texel layouts of the host's textures.
#[derive(Clone, Copy, Debug, PartialEq, Eq, Structural)]
pub enum ColorFormat {
    Unknown,
    Rgba,
    Bgrx,
    Bgra,
}

/// The video formats that can be uploaded to a texture as they are: the
/// packed layouts of four bytes per pixel.
pub open spec fn has_texture_format(fmt: VideoFormat) -> bool {
    fmt is Bgra || fmt is Bgrx || fmt is Rgba
}

pub open spec fn spec_translate_format(fmt: VideoFormat) -> ColorFormat {
    match fmt {
        VideoFormat::Bgra => ColorFormat::Bgra,
        VideoFormat::Bgrx => ColorFormat::Bgrx,
        VideoFormat::Rgba => ColorFormat::Rgba,
        _ => ColorFormat::Unknown,
    }
}

/// The texel layout that holds a frame of the given video format unchanged.
pub fn translate_format(fmt: VideoFormat) -> (color: ColorFormat)
    requires
        has_texture_format(fmt),
    ensures
        color == spec_translate_format(fmt),
        !(color is Unknown),
{
    match fmt {
        VideoFormat::Bgra => ColorFormat::Bgra,
        VideoFormat::Bgrx => ColorFormat::Bgrx,
        _ => ColorFormat::Rgba,
    }
}

} // verus!
