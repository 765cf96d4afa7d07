//! The swapchain: which surface format it takes, and what follows from its
//! size.

use crate::texture::{Extent, Kind, MipMaps, TextureInfo};
use gfx_hal::format::Format;
use gfx_hal::image::Usage;
use gfx_hal::window::{CompositeAlpha as SurfaceAlpha, Extent2D, SurfaceCapabilities, SwapchainConfig};
use vstd::prelude::*;

verus! {

/// How the channels of a format are read.
#[derive(Clone, Copy, Debug, PartialEq, Eq, Structural)]
pub enum ChannelType {
    Unorm,
    Snorm,
    Uint,
    Sint,
    Ufloat,
    Sfloat,
    Uscaled,
    Sscaled,
    Srgb,
}

/// How a surface is blended with what lies behind its window.
#[derive(Clone, Copy, Debug, PartialEq, Eq, Structural)]
pub enum CompositeAlpha {
    Opaque,
    PreMultiplied,
    PostMultiplied,
    Inherit,
}

/// When the images of a swapchain are shown.
#[derive(Clone, Copy, Debug, PartialEq, Eq, Structural)]
pub enum PresentMode {
    Immediate,
    Mailbox,
    Fifo,
    Relaxed,
}

/// The sizes a surface allows for the images of a swapchain.
#[derive(Clone, Copy, Debug, PartialEq, Eq, Structural)]
pub struct SurfaceExtents {
    /// The size the surface has now, where the window system gives it one.
    pub current: Option<Extent2>,
    /// The smallest size.
    pub min: Extent2,
    /// The size just beyond the largest, in each direction.
    pub end: Extent2,
}

/// A width and a height in texels.
#[derive(Clone, Copy, Debug, PartialEq, Eq, Structural)]
pub struct Extent2 {
    pub width: u32,
    pub height: u32,
}

/// The format chosen for a surface.
#[derive(Clone, Copy, Debug, PartialEq, Eq, Structural)]
pub enum SurfaceFormat {
    /// The format at this position of the surface's list.
    Choice(usize),
    /// Eight-bit sRGB colour with alpha, for a surface that takes any format.
    Rgba8Srgb,
}

/// What is decided about a swapchain before the device is asked.
#[derive(Clone, Copy)]
pub struct Swapchain<'a> {
    pub dims: Extent,
    pub present_mode: PresentMode,
    pub format: SurfaceFormat,
    pub composite_alpha: CompositeAlpha,
    /// The depth texture that accompanies the swapchain's images.
    pub depth_tex: TextureInfo<'a>,
}

/// Whether `format` is the choice for a surface that lists formats with
/// the channel types `formats`: the first sRGB format of the list, or
/// eight-bit sRGB where the surface has no list. A list without an sRGB
/// format has no choice.
pub open spec fn format_chosen(formats: Option<&[ChannelType]>, format: Option<SurfaceFormat>) -> bool {
    match formats {
        Some(choices) => match format {
            Some(SurfaceFormat::Choice(k)) => {
                &&& k < choices@.len()
                &&& choices@[k as int] == ChannelType::Srgb
                &&& forall|j: int| 0 <= j < k ==> choices@[j] != ChannelType::Srgb
            },
            Some(SurfaceFormat::Rgba8Srgb) => false,
            None => forall|j: int| 0 <= j < choices@.len() ==> choices@[j] != ChannelType::Srgb,
        },
        None => format == Some(SurfaceFormat::Rgba8Srgb),
    }
}

/// The blending of a swapchain: the first that its surface offers, or that
/// of the window system where it offers none.
pub open spec fn chosen_alpha(offered: Seq<CompositeAlpha>) -> CompositeAlpha {
    if offered.len() > 0 {
        offered[0]
    } else {
        CompositeAlpha::Inherit
    }
}

/// The smaller of two sizes.
pub open spec fn smaller(a: u32, b: u32) -> u32 {
    if a <= b {
        a
    } else {
        b
    }
}

/// The larger of two sizes.
pub open spec fn larger(a: u32, b: u32) -> u32 {
    if a >= b {
        a
    } else {
        b
    }
}

/// The size of the images of a swapchain: that of the surface where it has
/// one, else `wanted`, made no smaller than the surface's smallest size and
/// then no larger than its largest.
pub open spec fn clamped_extent(extents: SurfaceExtents, wanted: Extent2) -> Extent2 {
    match extents.current {
        Some(current) => current,
        None => Extent2 {
            width: smaller((extents.end.width - 1) as u32, larger(wanted.width, extents.min.width)),
            height: smaller(
                (extents.end.height - 1) as u32,
                larger(wanted.height, extents.min.height),
            ),
        },
    }
}

/// The size asked for where the surface has none of its own.
pub open spec fn default_extent() -> Extent2 {
    Extent2 { width: 800, height: 600 }
}

/// Whether the surface has a size, or a largest size to clamp to.
pub open spec fn extents_usable(extents: SurfaceExtents) -> bool {
    extents.current.is_none() ==> extents.end.width >= 1 && extents.end.height >= 1
}

/// `gfx_hal::window::SwapchainConfig::from_caps`, of which the extent is
/// kept: the current extent of the surface where it has one, else `wanted`
/// clamped to the surface's range, whose end is exclusive. The other
/// capabilities do not bear on the extent.
#[verifier::external_body]
fn config_extent(extents: SurfaceExtents, wanted: Extent2) -> (extent: Extent2)
    requires
        extents_usable(extents),
    ensures
        extent == clamped_extent(extents, wanted),
{
    let caps = SurfaceCapabilities {
        image_count: 1..2,
        current_extent: extents.current.map(|e| Extent2D { width: e.width, height: e.height }),
        extents: Extent2D { width: extents.min.width, height: extents.min.height }..Extent2D {
            width: extents.end.width,
            height: extents.end.height,
        },
        max_image_layers: 1,
        usage: Usage::COLOR_ATTACHMENT,
        composite_alpha: SurfaceAlpha::OPAQUE,
    };
    let wanted = Extent2D { width: wanted.width, height: wanted.height };
    let config = SwapchainConfig::from_caps(&caps, Format::Rgba8Srgb, wanted);
    Extent2 { width: config.extent.width, height: config.extent.height }
}

/// The depth texture for a swapchain of the given size: one plane with one
/// layer, one sample and one mip level, and no pixels.
pub open spec fn depth_texture(width: u32, height: u32) -> TextureInfo<'static> {
    TextureInfo { kind: Kind::D2(width, height, 1, 1), mipmaps: MipMaps::Single, pixels: None }
}

impl<'a> Swapchain<'a> {
    /// Chooses the surface format among the channel types of the formats a
    /// surface lists.
    pub fn surface_format(formats: Option<&[ChannelType]>) -> (r: Option<SurfaceFormat>)
        ensures
            format_chosen(formats, r),
    {
        match formats {
            Some(choices) => {
                let mut i: usize = 0;
                while i < choices.len()
                    invariant
                        formats == Some(choices),
                        i <= choices@.len(),
                        forall|j: int| 0 <= j < i ==> choices@[j] != ChannelType::Srgb,
                    decreases choices@.len() - i,
                {
                    if choices[i] == ChannelType::Srgb {
                        return Some(SurfaceFormat::Choice(i));
                    }
                    i += 1;
                }
                None
            },
            None => Some(SurfaceFormat::Rgba8Srgb),
        }
    }

    /// Decides the format, size, blending and depth texture of a swapchain.
    /// `formats` holds the channel types of the formats the surface lists,
    /// `offered` the blendings it offers and `extents` the sizes it allows.
    /// The images are shown in mailbox mode, and are 800 by 600 texels where
    /// the surface has no size of its own and allows that one. Nothing is
    /// returned where the surface lists formats and none is sRGB.
    pub fn create(
        formats: Option<&[ChannelType]>,
        offered: &[CompositeAlpha],
        extents: SurfaceExtents,
    ) -> (r: Option<Swapchain<'static>>)
        requires
            extents_usable(extents),
        ensures
            match r {
                Some(swapchain) => {
                    let size = clamped_extent(extents, default_extent());
                    &&& format_chosen(formats, Some(swapchain.format))
                    &&& swapchain.composite_alpha == chosen_alpha(offered@)
                    &&& swapchain.present_mode == PresentMode::Mailbox
                    &&& swapchain.dims == (Extent {
                        width: size.width,
                        height: size.height,
                        depth: 1,
                    })
                    &&& swapchain.depth_tex == depth_texture(size.width, size.height)
                },
                None => format_chosen(formats, None),
            },
    {
        let format = match Swapchain::surface_format(formats) {
            Some(format) => format,
            None => {
                return None;
            },
        };
        let size = config_extent(extents, Extent2 { width: 800, height: 600 });
        let composite_alpha = if offered.len() > 0 {
            offered[0]
        } else {
            CompositeAlpha::Inherit
        };
        let depth_tex = TextureInfo {
            kind: Kind::D2(size.width, size.height, 1, 1),
            mipmaps: MipMaps::Single,
            pixels: None,
        };
        Some(
            Swapchain {
                dims: Extent { width: size.width, height: size.height, depth: 1 },
                present_mode: PresentMode::Mailbox,
                format,
                composite_alpha,
                depth_tex,
            },
        )
    }

    /// Whether `create` can size a swapchain for a surface that allows
    /// `extents`.
    pub fn can_size(extents: &SurfaceExtents) -> (ok: bool)
        ensures
            ok == extents_usable(*extents),
    {
        match extents.current {
            Some(_) => true,
            None => extents.end.width >= 1 && extents.end.height >= 1,
        }
    }

    /// The size of the swapchain's images.
    pub fn dims(&self) -> (dims: &Extent)
        ensures
            *dims == self.dims,
    {
        &self.dims
    }
}

} // verus!
