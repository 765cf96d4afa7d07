//! Textures: what an image is created with, and the commands that fill it.

use crate::flags::{
    ACCESS_DEPTH_STENCIL_ATTACHMENT_READ, ACCESS_DEPTH_STENCIL_ATTACHMENT_WRITE, ACCESS_NONE,
    ACCESS_SHADER_READ, ACCESS_TRANSFER_READ, ACCESS_TRANSFER_WRITE, ASPECT_COLOR, ASPECT_DEPTH,
    ASPECT_STENCIL, IMAGE_DEPTH_STENCIL_ATTACHMENT, IMAGE_SAMPLED, IMAGE_TRANSFER_DST,
    IMAGE_TRANSFER_SRC, STAGE_EARLY_FRAGMENT_TESTS, STAGE_FRAGMENT_SHADER, STAGE_TOP_OF_PIPE,
    STAGE_TRANSFER,
};
use vstd::arithmetic::div_mod::lemma_div_denominator;
use vstd::arithmetic::power2::{lemma2_to64, lemma_pow2_pos, lemma_pow2_unfold, pow2};
use vstd::prelude::*;

verus! {

/// The layout an image is in, which decides what may be done with it.
#[derive(Clone, Copy, Debug, PartialEq, Eq, Structural)]
pub enum Layout {
    General,
    ColorAttachmentOptimal,
    DepthStencilAttachmentOptimal,
    DepthStencilReadOnlyOptimal,
    ShaderReadOnlyOptimal,
    TransferSrcOptimal,
    TransferDstOptimal,
    Undefined,
    Preinitialized,
    Present,
}

/// Width, height and depth in texels.
#[derive(Clone, Copy, Debug, PartialEq, Eq, Structural)]
pub struct Extent {
    pub width: u32,
    pub height: u32,
    pub depth: u32,
}

/// The dimensionality and size of an image.
#[derive(Clone, Copy, Debug, PartialEq, Eq, Structural)]
pub enum Kind {
    /// One row of texels: width and layer count.
    D1(u32, u16),
    /// A plane of texels: width, height, layer count and sample count.
    D2(u32, u32, u16, u8),
    /// A volume of texels: width, height and depth.
    D3(u32, u32, u32),
}

/// How a view looks at an image.
#[derive(Clone, Copy, Debug, PartialEq, Eq, Structural)]
pub enum ViewKind {
    D1,
    D1Array,
    D2,
    D2Array,
    D3,
    Cube,
    CubeArray,
}

impl Kind {
    /// The extent of the image; a missing dimension counts as one texel.
    pub open spec fn spec_extent(self) -> Extent {
        match self {
            Kind::D1(width, _) => Extent { width, height: 1, depth: 1 },
            Kind::D2(width, height, _, _) => Extent { width, height, depth: 1 },
            Kind::D3(width, height, depth) => Extent { width, height, depth },
        }
    }

    /// The view that shows the whole image without layers.
    pub open spec fn spec_view_kind(self) -> ViewKind {
        match self {
            Kind::D1(_, _) => ViewKind::D1,
            Kind::D2(_, _, _, _) => ViewKind::D2,
            Kind::D3(_, _, _) => ViewKind::D3,
        }
    }

    /// The extent of the image; a missing dimension counts as one texel.
    pub fn extent(&self) -> (e: Extent)
        ensures
            e == self.spec_extent(),
    {
        match *self {
            Kind::D1(width, _) => Extent { width, height: 1, depth: 1 },
            Kind::D2(width, height, _, _) => Extent { width, height, depth: 1 },
            Kind::D3(width, height, depth) => Extent { width, height, depth },
        }
    }

    /// The view that shows the whole image without layers.
    pub fn view_kind(&self) -> (k: ViewKind)
        ensures
            k == self.spec_view_kind(),
    {
        match *self {
            Kind::D1(_, _) => ViewKind::D1,
            Kind::D2(_, _, _, _) => ViewKind::D2,
            Kind::D3(_, _, _) => ViewKind::D3,
        }
    }
}

/// Where the mip levels of a texture come from.
#[derive(Clone, Copy, Debug, PartialEq, Eq, Structural)]
pub enum MipMaps {
    /// The pixel data already holds this many levels.
    PreExisting(u8),
    /// The levels below the first are produced by blitting.
    Generate,
    /// The texture has its first level only.
    Single,
}

impl MipMaps {
    /// The number of mip levels of the image, where `generated` is the length
    /// of a full chain for the image's extent.
    pub open spec fn spec_levels(self, generated: u8) -> u8 {
        match self {
            MipMaps::PreExisting(i) => i,
            MipMaps::Single => 1,
            MipMaps::Generate => generated,
        }
    }

    /// The number of levels that the pixel data is copied into.
    pub open spec fn spec_copied_levels(self) -> u8 {
        match self {
            MipMaps::PreExisting(i) => i,
            _ => 1,
        }
    }

    /// The number of mip levels of the image, where `generated` is the length
    /// of a full chain for the image's extent.
    pub fn levels(&self, generated: u8) -> (n: u8)
        ensures
            n == self.spec_levels(generated),
    {
        match *self {
            MipMaps::PreExisting(i) => i,
            MipMaps::Single => 1,
            MipMaps::Generate => generated,
        }
    }

    /// The number of levels that the pixel data is copied into.
    pub fn copied_levels(&self) -> (n: u8)
        ensures
            n == self.spec_copied_levels(),
    {
        match *self {
            MipMaps::PreExisting(i) => i,
            _ => 1,
        }
    }
}

/// What a texture is made from.
#[derive(Clone, Copy)]
pub struct TextureInfo<'a> {
    pub kind: Kind,
    pub mipmaps: MipMaps,
    /// The texels to upload; a texture without any is a depth target.
    pub pixels: Option<&'a [u8]>,
}

/// A change of the access and layout of one mip level of an image, between
/// two pipeline stages. It covers the first array layer.
#[derive(Clone, Copy, Debug, PartialEq, Eq, Structural)]
pub struct ImageBarrier {
    pub aspects: u8,
    pub level: u8,
    pub src_access: u32,
    pub src_layout: Layout,
    pub dst_access: u32,
    pub dst_layout: Layout,
    pub src_stage: u32,
    pub dst_stage: u32,
}

/// A copy from the start of the staging buffer into one mip level of an
/// image, tightly packed, in the colour aspect of the first array layer.
#[derive(Clone, Copy, Debug, PartialEq, Eq, Structural)]
pub struct BufferImageCopy {
    pub buffer_offset: u64,
    pub level: u8,
    pub image_extent: Extent,
}

/// A scaled copy from one mip level of an image to the next. Both regions
/// start at the origin and are one texel deep.
#[derive(Clone, Copy, Debug, PartialEq, Eq, Structural)]
pub struct ImageBlit {
    pub src_level: u8,
    pub src_width: u32,
    pub src_height: u32,
    pub dst_level: u8,
    pub dst_width: u32,
    pub dst_height: u32,
}

/// One command recorded for a texture.
#[derive(Clone, Copy, Debug, PartialEq, Eq, Structural)]
pub enum TextureCommand {
    Barrier(ImageBarrier),
    Copy(BufferImageCopy),
    Blit(ImageBlit),
}

/// How texels between sample points are found.
#[derive(Clone, Copy, Debug, PartialEq, Eq, Structural)]
pub enum Filter {
    Nearest,
    Linear,
}

/// What the sampler of a texture is created with, but for the wrap modes,
/// which are the texture's own.
#[derive(Clone, Copy, Debug, PartialEq, Eq, Structural)]
pub struct SamplerInfo {
    pub min_filter: Filter,
    pub mag_filter: Filter,
    pub mip_filter: Filter,
    /// The level-of-detail bias, in eighths of a level.
    pub lod_bias: u8,
    /// The level-of-detail range is from zero to this many eighths of a
    /// level.
    pub lod_end: u8,
    /// The border colour, packed.
    pub border: u32,
    /// The anisotropy clamp.
    pub anisotropy: u8,
}

/// One step of filling a texture. All submissions signal the fence of the
/// staging buffer, which also guards the staging memory.
#[derive(Clone, Copy, Debug, PartialEq, Eq, Structural)]
pub enum TextureStep {
    /// Wait until the fence is signalled.
    WaitForFence,
    /// Reset the fence.
    ResetFence,
    /// Write the pixels to the start of the staging buffer.
    Stage,
    /// Record and submit the first commands.
    SubmitFirst,
    /// Record and submit the commands that generate the mip chain.
    SubmitMipmaps,
}

/// How a texture is bound in a descriptor set.
#[derive(Clone, Copy, Debug, PartialEq, Eq, Structural)]
pub enum TextureDescriptor {
    /// The view together with the texture's sampler, read in this layout.
    CombinedImageSampler(Layout),
    /// The view alone, in this layout.
    Image(Layout),
}

/// Everything that is decided about a texture before the device is asked.
pub struct Texture {
    /// The usage flags the image is created with.
    pub usage: u32,
    /// The aspects its view covers.
    pub aspects: u8,
    /// The sampler that is created for it, if any.
    pub sampler: Option<SamplerInfo>,
    /// The number of mip levels of the image and of its view.
    pub mip_levels: u8,
    /// How the view looks at the image.
    pub kind: ViewKind,
    /// The number of bytes copied into the staging buffer first.
    pub staged: usize,
    /// The commands of the first submission.
    pub commands: Vec<TextureCommand>,
    /// The commands of the submission that generates the mip chain.
    pub mip_commands: Vec<TextureCommand>,
    /// What is done with the image once it is bound to memory, in order.
    pub steps: Vec<TextureStep>,
}

/// Whether a barrier is known for a change from `from` to `to`.
pub open spec fn supported_transition(from: Layout, to: Layout) -> bool {
    ||| (from == Layout::Undefined && to == Layout::TransferDstOptimal)
    ||| (from == Layout::TransferDstOptimal && to == Layout::ShaderReadOnlyOptimal)
    ||| (from == Layout::Undefined && to == Layout::DepthStencilAttachmentOptimal)
}

/// The barrier that takes `level` from layout `from` to layout `to`.
pub open spec fn transition(level: u8, from: Layout, to: Layout) -> ImageBarrier {
    if from == Layout::Undefined && to == Layout::TransferDstOptimal {
        ImageBarrier {
            aspects: ASPECT_COLOR,
            level,
            src_access: ACCESS_NONE,
            src_layout: from,
            dst_access: ACCESS_TRANSFER_WRITE,
            dst_layout: to,
            src_stage: STAGE_TOP_OF_PIPE,
            dst_stage: STAGE_TRANSFER,
        }
    } else if from == Layout::TransferDstOptimal && to == Layout::ShaderReadOnlyOptimal {
        ImageBarrier {
            aspects: ASPECT_COLOR,
            level,
            src_access: ACCESS_TRANSFER_WRITE,
            src_layout: from,
            dst_access: ACCESS_SHADER_READ,
            dst_layout: to,
            src_stage: STAGE_TRANSFER,
            dst_stage: STAGE_FRAGMENT_SHADER,
        }
    } else {
        ImageBarrier {
            aspects: ASPECT_DEPTH | ASPECT_STENCIL,
            level,
            src_access: ACCESS_NONE,
            src_layout: from,
            dst_access: ACCESS_DEPTH_STENCIL_ATTACHMENT_READ
                | ACCESS_DEPTH_STENCIL_ATTACHMENT_WRITE,
            dst_layout: to,
            src_stage: STAGE_TOP_OF_PIPE,
            dst_stage: STAGE_EARLY_FRAGMENT_TESTS,
        }
    }
}

/// The barrier that hands a level that was blitted into over to blitting from.
pub open spec fn blit_source_barrier(level: u8) -> ImageBarrier {
    ImageBarrier {
        aspects: ASPECT_COLOR,
        level,
        src_access: ACCESS_TRANSFER_WRITE,
        src_layout: Layout::TransferDstOptimal,
        dst_access: ACCESS_TRANSFER_READ,
        dst_layout: Layout::TransferSrcOptimal,
        src_stage: STAGE_TRANSFER,
        dst_stage: STAGE_TRANSFER,
    }
}

/// The barrier that hands a level that was blitted from over to the fragment
/// shader.
pub open spec fn blit_done_barrier(level: u8) -> ImageBarrier {
    ImageBarrier {
        aspects: ASPECT_COLOR,
        level,
        src_access: ACCESS_TRANSFER_READ,
        src_layout: Layout::TransferSrcOptimal,
        dst_access: ACCESS_SHADER_READ,
        dst_layout: Layout::ShaderReadOnlyOptimal,
        src_stage: STAGE_TRANSFER,
        dst_stage: STAGE_FRAGMENT_SHADER,
    }
}

/// The size of one side of a mip level, `steps` levels below a side of
/// `size` texels: each step halves a side of more than one texel.
pub open spec fn mip_side(size: u32, steps: nat) -> u32
    decreases steps,
{
    if steps == 0 {
        size
    } else {
        let above = mip_side(size, (steps - 1) as nat);
        if above > 1 {
            above / 2
        } else {
            above
        }
    }
}

/// A side of at least one texel is halved, rounding down, at every step, and
/// never falls below one texel.
pub proof fn lemma_mip_side_halves(size: u32, steps: nat)
    requires
        size >= 1,
    ensures
        mip_side(size, steps) == (if size as int / pow2(steps) as int >= 1 {
            size as int / pow2(steps) as int
        } else {
            1
        }),
    decreases steps,
{
    lemma_pow2_pos(steps);
    if steps == 0 {
        lemma2_to64();
    } else {
        let above = (steps - 1) as nat;
        lemma_mip_side_halves(size, above);
        lemma_pow2_pos(above);
        lemma_pow2_unfold(steps);
        lemma_div_denominator(size as int, pow2(above) as int, 2);
        assert(pow2(above) * 2 == pow2(steps));
    }
}

/// A blit never writes more than it reads, in either direction.
pub proof fn lemma_blit_shrinks(width: u32, height: u32, step: u8)
    requires
        width >= 1,
        height >= 1,
    ensures
        1 <= mip_blit(width, height, step).dst_width <= mip_blit(width, height, step).src_width,
        1 <= mip_blit(width, height, step).dst_height <= mip_blit(width, height, step).src_height,
{
    lemma_mip_side_halves(width, step as nat);
    lemma_mip_side_halves(height, step as nat);
}

/// The side a blit writes, from a side of `size` texels: half of it, and
/// never less than one texel.
pub open spec fn blit_target_side(size: u32) -> u32 {
    if size > 1 {
        size / 2
    } else {
        1
    }
}

/// The blit that fills mip level `step + 1` from level `step`.
pub open spec fn mip_blit(width: u32, height: u32, step: u8) -> ImageBlit {
    ImageBlit {
        src_level: step,
        src_width: mip_side(width, step as nat),
        src_height: mip_side(height, step as nat),
        dst_level: (step + 1) as u8,
        dst_width: blit_target_side(mip_side(width, step as nat)),
        dst_height: blit_target_side(mip_side(height, step as nat)),
    }
}

/// The `index`-th command of a mip chain of `levels` levels. Four commands
/// fill one level: the level above becomes a blit source, is blitted from,
/// is handed to the fragment shader, and so is the last level of the chain.
pub open spec fn mip_command(width: u32, height: u32, levels: u8, index: int) -> TextureCommand {
    let step = (index / 4) as u8;
    if index % 4 == 0 {
        TextureCommand::Barrier(blit_source_barrier(step))
    } else if index % 4 == 1 {
        TextureCommand::Blit(mip_blit(width, height, step))
    } else if index % 4 == 2 {
        TextureCommand::Barrier(blit_done_barrier(step))
    } else {
        TextureCommand::Barrier(blit_done_barrier((levels - 1) as u8))
    }
}

/// The commands that generate a mip chain of `levels` levels.
pub open spec fn mip_commands(width: u32, height: u32, levels: u8) -> Seq<TextureCommand> {
    Seq::new(
        if levels == 0 { 0 } else { (4 * (levels - 1)) as nat },
        |index: int| mip_command(width, height, levels, index),
    )
}

/// The copy of the staged texels into mip level `level`.
pub open spec fn level_copy(level: u8, extent: Extent) -> BufferImageCopy {
    BufferImageCopy { buffer_offset: 0, level, image_extent: extent }
}

/// The `index`-th command of an upload. Three commands fill one level: it
/// becomes a transfer target, is copied into, and is handed to the fragment
/// shader.
pub open spec fn upload_command(extent: Extent, index: int) -> TextureCommand {
    let level = (index / 3) as u8;
    if index % 3 == 0 {
        TextureCommand::Barrier(transition(level, Layout::Undefined, Layout::TransferDstOptimal))
    } else if index % 3 == 1 {
        TextureCommand::Copy(level_copy(level, extent))
    } else {
        TextureCommand::Barrier(
            transition(level, Layout::TransferDstOptimal, Layout::ShaderReadOnlyOptimal),
        )
    }
}

/// The commands of the first submission for a texture.
pub open spec fn first_commands(info: TextureInfo) -> Seq<TextureCommand> {
    if info.pixels.is_some() {
        Seq::new(
            (3 * info.mipmaps.spec_copied_levels()) as nat,
            |index: int| upload_command(info.kind.spec_extent(), index),
        )
    } else {
        seq![
            TextureCommand::Barrier(
                transition(0, Layout::Undefined, Layout::DepthStencilAttachmentOptimal),
            ),
        ]
    }
}

/// The sampler of a texture with `mip_levels` levels: linear in every
/// direction, sixteenfold anisotropic, over one eighth of a level of detail
/// for each mip level, with a black transparent border.
pub open spec fn texture_sampler(mip_levels: u8) -> SamplerInfo {
    SamplerInfo {
        min_filter: Filter::Linear,
        mag_filter: Filter::Linear,
        mip_filter: Filter::Linear,
        lod_bias: 0,
        lod_end: mip_levels,
        border: 0,
        anisotropy: 16,
    }
}

/// The steps that fill a texture. Pixels are staged once the transfer before
/// them is over; a mip chain is generated once the upload is over; and the
/// texture is ready once the last submission is over.
pub open spec fn texture_steps(info: TextureInfo) -> Seq<TextureStep> {
    let stage = if info.pixels.is_some() {
        seq![TextureStep::WaitForFence, TextureStep::ResetFence, TextureStep::Stage]
    } else {
        Seq::empty()
    };
    let mipmaps = if info.mipmaps == MipMaps::Generate {
        seq![TextureStep::WaitForFence, TextureStep::ResetFence, TextureStep::SubmitMipmaps]
    } else {
        Seq::empty()
    };
    stage + seq![TextureStep::SubmitFirst] + mipmaps + seq![TextureStep::WaitForFence]
}

/// The commands of the submission that generates the mip chain of a texture
/// with `levels` mip levels: none where no chain is generated.
pub open spec fn chain_commands(info: TextureInfo, levels: u8) -> Seq<TextureCommand> {
    if info.mipmaps == MipMaps::Generate {
        mip_commands(info.kind.spec_extent().width, info.kind.spec_extent().height, levels)
    } else {
        Seq::empty()
    }
}

/// The usage flags of the image of a texture.
pub open spec fn image_usage(info: TextureInfo) -> u32 {
    if info.pixels.is_some() {
        if info.mipmaps == MipMaps::Generate {
            IMAGE_TRANSFER_DST | IMAGE_SAMPLED | IMAGE_TRANSFER_SRC
        } else {
            IMAGE_TRANSFER_DST | IMAGE_SAMPLED
        }
    } else {
        IMAGE_DEPTH_STENCIL_ATTACHMENT
    }
}

impl Texture {
    /// Decides how a texture is created and filled. A texture with pixels is
    /// a sampled colour image that the pixels are staged and copied into;
    /// one without is a depth target that is only brought into its layout.
    /// `generated` is the length of a full mip chain for the image's extent.
    pub fn create(info: TextureInfo, generated: u8) -> (texture: Texture)
        ensures
            texture.usage == image_usage(info),
            texture.aspects == (if info.pixels.is_some() { ASPECT_COLOR } else { ASPECT_DEPTH }),
            texture.sampler == (if info.pixels.is_some() {
                Some(texture_sampler(info.mipmaps.spec_levels(generated)))
            } else {
                None
            }),
            texture.mip_levels == info.mipmaps.spec_levels(generated),
            texture.kind == info.kind.spec_view_kind(),
            texture.staged == (match info.pixels {
                Some(pixels) => pixels@.len(),
                None => 0,
            }),
            texture.commands@ == first_commands(info),
            texture.mip_commands@ == chain_commands(info, texture.mip_levels),
            texture.steps@ == texture_steps(info),
    {
        let extent = info.kind.extent();
        let mip_levels = info.mipmaps.levels(generated);
        let generate = match info.mipmaps {
            MipMaps::Generate => true,
            _ => false,
        };
        let mut commands: Vec<TextureCommand> = Vec::new();
        let mut steps: Vec<TextureStep> = Vec::new();
        let (usage, aspects, sampler, staged) = match info.pixels {
            Some(pixels) => {
                steps.push(TextureStep::WaitForFence);
                steps.push(TextureStep::ResetFence);
                steps.push(TextureStep::Stage);
                let mut usage: u32 = IMAGE_TRANSFER_DST | IMAGE_SAMPLED;
                if generate {
                    usage = usage | IMAGE_TRANSFER_SRC;
                }
                let count = info.mipmaps.copied_levels();
                let mut level: u8 = 0;
                while level < count
                    invariant
                        level <= count,
                        commands@.len() == 3 * level,
                        forall|index: int|
                            0 <= index < commands@.len() ==> commands@[index] == upload_command(
                                extent,
                                index,
                            ),
                    decreases count - level,
                {
                    let before = Texture::transition_image_layout(
                        level,
                        Layout::Undefined,
                        Layout::TransferDstOptimal,
                    );
                    let after = Texture::transition_image_layout(
                        level,
                        Layout::TransferDstOptimal,
                        Layout::ShaderReadOnlyOptimal,
                    );
                    let copy = BufferImageCopy { buffer_offset: 0, level, image_extent: extent };
                    commands.push(TextureCommand::Barrier(before));
                    commands.push(TextureCommand::Copy(copy));
                    commands.push(TextureCommand::Barrier(after));
                    level += 1;
                }
                let sampler = SamplerInfo {
                    min_filter: Filter::Linear,
                    mag_filter: Filter::Linear,
                    mip_filter: Filter::Linear,
                    lod_bias: 0,
                    lod_end: mip_levels,
                    border: 0,
                    anisotropy: 16,
                };
                (usage, ASPECT_COLOR, Some(sampler), pixels.len())
            },
            None => {
                let barrier = Texture::transition_image_layout(
                    0,
                    Layout::Undefined,
                    Layout::DepthStencilAttachmentOptimal,
                );
                commands.push(TextureCommand::Barrier(barrier));
                (IMAGE_DEPTH_STENCIL_ATTACHMENT, ASPECT_DEPTH, None, 0)
            },
        };
        assert(commands@ =~= first_commands(info));
        steps.push(TextureStep::SubmitFirst);
        let mip_commands = if generate {
            steps.push(TextureStep::WaitForFence);
            steps.push(TextureStep::ResetFence);
            steps.push(TextureStep::SubmitMipmaps);
            Texture::gen_mipmaps(extent.width, extent.height, mip_levels)
        } else {
            Vec::new()
        };
        steps.push(TextureStep::WaitForFence);
        assert(steps@ =~= texture_steps(info));
        Texture {
            usage,
            aspects,
            sampler,
            mip_levels,
            kind: info.kind.view_kind(),
            staged,
            commands,
            mip_commands,
            steps,
        }
    }

    /// The commands that fill mip levels `1..levels` of an image whose first
    /// level is `width` by `height` texels, each from the level above it.
    pub fn gen_mipmaps(width: u32, height: u32, levels: u8) -> (commands: Vec<TextureCommand>)
        ensures
            commands@ == mip_commands(width, height, levels),
    {
        let mut commands: Vec<TextureCommand> = Vec::new();
        let mut width = width;
        let mut height = height;
        let ghost first_width = width;
        let ghost first_height = height;
        let mut i: u8 = 1;
        while i < levels
            invariant
                1 <= i,
                i <= levels || i == 1,
                commands@.len() == 4 * (i - 1),
                width == mip_side(first_width, (i - 1) as nat),
                height == mip_side(first_height, (i - 1) as nat),
                forall|index: int|
                    0 <= index < commands@.len() ==> commands@[index] == mip_command(
                        first_width,
                        first_height,
                        levels,
                        index,
                    ),
            decreases levels - i,
        {
            let level: u8 = i - 1;
            let blit = ImageBlit {
                src_level: level,
                src_width: width,
                src_height: height,
                dst_level: i,
                dst_width: if width > 1 { width / 2 } else { 1 },
                dst_height: if height > 1 { height / 2 } else { 1 },
            };
            commands.push(TextureCommand::Barrier(Texture::blit_source(level)));
            commands.push(TextureCommand::Blit(blit));
            commands.push(TextureCommand::Barrier(Texture::blit_done(level)));
            if width > 1 {
                width = width / 2;
            }
            if height > 1 {
                height = height / 2;
            }
            commands.push(TextureCommand::Barrier(Texture::blit_done(levels - 1)));
            i += 1;
        }
        assert(commands@ =~= mip_commands(first_width, first_height, levels));
        commands
    }

    /// The barrier that takes mip level `level` of an image from layout
    /// `from` to layout `to`. Three changes are known: a fresh image becomes
    /// a transfer target or a depth-stencil attachment, and a transfer target
    /// becomes readable by shaders.
    pub fn transition_image_layout(level: u8, from: Layout, to: Layout) -> (barrier: ImageBarrier)
        requires
            supported_transition(from, to),
        ensures
            barrier == transition(level, from, to),
    {
        let (aspects, src_access, dst_access, src_stage, dst_stage) = if from == Layout::Undefined
            && to == Layout::TransferDstOptimal {
            (ASPECT_COLOR, ACCESS_NONE, ACCESS_TRANSFER_WRITE, STAGE_TOP_OF_PIPE, STAGE_TRANSFER)
        } else if from == Layout::TransferDstOptimal && to == Layout::ShaderReadOnlyOptimal {
            (
                ASPECT_COLOR,
                ACCESS_TRANSFER_WRITE,
                ACCESS_SHADER_READ,
                STAGE_TRANSFER,
                STAGE_FRAGMENT_SHADER,
            )
        } else {
            (
                ASPECT_DEPTH | ASPECT_STENCIL,
                ACCESS_NONE,
                ACCESS_DEPTH_STENCIL_ATTACHMENT_READ | ACCESS_DEPTH_STENCIL_ATTACHMENT_WRITE,
                STAGE_TOP_OF_PIPE,
                STAGE_EARLY_FRAGMENT_TESTS,
            )
        };
        ImageBarrier {
            aspects,
            level,
            src_access,
            src_layout: from,
            dst_access,
            dst_layout: to,
            src_stage,
            dst_stage,
        }
    }

    /// Whether `transition_image_layout` knows the change from `from` to `to`.
    pub fn supports_transition(from: Layout, to: Layout) -> (known: bool)
        ensures
            known == supported_transition(from, to),
    {
        (from == Layout::Undefined && to == Layout::TransferDstOptimal) || (from
            == Layout::TransferDstOptimal && to == Layout::ShaderReadOnlyOptimal) || (from
            == Layout::Undefined && to == Layout::DepthStencilAttachmentOptimal)
    }

    fn blit_source(level: u8) -> (barrier: ImageBarrier)
        ensures
            barrier == blit_source_barrier(level),
    {
        ImageBarrier {
            aspects: ASPECT_COLOR,
            level,
            src_access: ACCESS_TRANSFER_WRITE,
            src_layout: Layout::TransferDstOptimal,
            dst_access: ACCESS_TRANSFER_READ,
            dst_layout: Layout::TransferSrcOptimal,
            src_stage: STAGE_TRANSFER,
            dst_stage: STAGE_TRANSFER,
        }
    }

    fn blit_done(level: u8) -> (barrier: ImageBarrier)
        ensures
            barrier == blit_done_barrier(level),
    {
        ImageBarrier {
            aspects: ASPECT_COLOR,
            level,
            src_access: ACCESS_TRANSFER_READ,
            src_layout: Layout::TransferSrcOptimal,
            dst_access: ACCESS_SHADER_READ,
            dst_layout: Layout::ShaderReadOnlyOptimal,
            src_stage: STAGE_TRANSFER,
            dst_stage: STAGE_FRAGMENT_SHADER,
        }
    }

    /// How the texture is bound: with its sampler where it has one, read in
    /// the shader's layout; else the view alone, in the transfer target's.
    pub fn descriptor(&self) -> (d: TextureDescriptor)
        ensures
            d == (if self.sampler.is_some() {
                TextureDescriptor::CombinedImageSampler(Layout::ShaderReadOnlyOptimal)
            } else {
                TextureDescriptor::Image(Layout::TransferDstOptimal)
            }),
    {
        if self.sampler.is_some() {
            TextureDescriptor::CombinedImageSampler(Layout::ShaderReadOnlyOptimal)
        } else {
            TextureDescriptor::Image(Layout::TransferDstOptimal)
        }
    }
}

} // verus!
