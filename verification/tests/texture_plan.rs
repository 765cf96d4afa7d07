use villkiss::flags::{
    ACCESS_DEPTH_STENCIL_ATTACHMENT_READ, ACCESS_DEPTH_STENCIL_ATTACHMENT_WRITE, ACCESS_NONE,
    ACCESS_SHADER_READ, ACCESS_TRANSFER_READ, ACCESS_TRANSFER_WRITE, ASPECT_COLOR, ASPECT_DEPTH,
    ASPECT_STENCIL, IMAGE_DEPTH_STENCIL_ATTACHMENT, IMAGE_SAMPLED, IMAGE_TRANSFER_DST,
    IMAGE_TRANSFER_SRC, STAGE_EARLY_FRAGMENT_TESTS, STAGE_FRAGMENT_SHADER, STAGE_TOP_OF_PIPE,
    STAGE_TRANSFER,
};
use villkiss::texture::{
    BufferImageCopy, Extent, Filter, ImageBarrier, ImageBlit, Kind, Layout, MipMaps, SamplerInfo,
    Texture, TextureCommand, TextureDescriptor, TextureInfo, TextureStep, ViewKind,
};

fn barrier_to_transfer(level: u8) -> ImageBarrier {
    ImageBarrier {
        aspects: ASPECT_COLOR,
        level,
        src_access: ACCESS_NONE,
        src_layout: Layout::Undefined,
        dst_access: ACCESS_TRANSFER_WRITE,
        dst_layout: Layout::TransferDstOptimal,
        src_stage: STAGE_TOP_OF_PIPE,
        dst_stage: STAGE_TRANSFER,
    }
}

fn barrier_to_shader(level: u8) -> ImageBarrier {
    ImageBarrier {
        aspects: ASPECT_COLOR,
        level,
        src_access: ACCESS_TRANSFER_WRITE,
        src_layout: Layout::TransferDstOptimal,
        dst_access: ACCESS_SHADER_READ,
        dst_layout: Layout::ShaderReadOnlyOptimal,
        src_stage: STAGE_TRANSFER,
        dst_stage: STAGE_FRAGMENT_SHADER,
    }
}

fn barrier_to_depth(level: u8) -> ImageBarrier {
    ImageBarrier {
        aspects: ASPECT_DEPTH | ASPECT_STENCIL,
        level,
        src_access: ACCESS_NONE,
        src_layout: Layout::Undefined,
        dst_access: ACCESS_DEPTH_STENCIL_ATTACHMENT_READ | ACCESS_DEPTH_STENCIL_ATTACHMENT_WRITE,
        dst_layout: Layout::DepthStencilAttachmentOptimal,
        src_stage: STAGE_TOP_OF_PIPE,
        dst_stage: STAGE_EARLY_FRAGMENT_TESTS,
    }
}

fn sampler(lod_end: u8) -> SamplerInfo {
    SamplerInfo {
        min_filter: Filter::Linear,
        mag_filter: Filter::Linear,
        mip_filter: Filter::Linear,
        lod_bias: 0,
        lod_end,
        border: 0,
        anisotropy: 16,
    }
}

fn blit_source(level: u8) -> ImageBarrier {
    ImageBarrier {
        aspects: ASPECT_COLOR,
        level,
        src_access: ACCESS_TRANSFER_WRITE,
        src_layout: Layout::TransferDstOptimal,
        dst_access: ACCESS_TRANSFER_READ,
        dst_layout: Layout::TransferSrcOptimal,
        src_stage: STAGE_TRANSFER,
        dst_stage: STAGE_TRANSFER,
    }
}

fn blit_done(level: u8) -> ImageBarrier {
    ImageBarrier {
        aspects: ASPECT_COLOR,
        level,
        src_access: ACCESS_TRANSFER_READ,
        src_layout: Layout::TransferSrcOptimal,
        dst_access: ACCESS_SHADER_READ,
        dst_layout: Layout::ShaderReadOnlyOptimal,
        src_stage: STAGE_TRANSFER,
        dst_stage: STAGE_FRAGMENT_SHADER,
    }
}

#[test]
fn extent_fills_missing_dimensions_with_one() {
    assert_eq!(Kind::D1(7, 3).extent(), Extent { width: 7, height: 1, depth: 1 });
    assert_eq!(Kind::D2(7, 5, 3, 4).extent(), Extent { width: 7, height: 5, depth: 1 });
    assert_eq!(Kind::D3(7, 5, 2).extent(), Extent { width: 7, height: 5, depth: 2 });
}

#[test]
fn view_kind_follows_image_kind() {
    assert_eq!(Kind::D1(7, 3).view_kind(), ViewKind::D1);
    assert_eq!(Kind::D2(7, 5, 3, 4).view_kind(), ViewKind::D2);
    assert_eq!(Kind::D3(7, 5, 2).view_kind(), ViewKind::D3);
}

#[test]
fn levels_by_mipmap_source() {
    assert_eq!(MipMaps::PreExisting(5).levels(9), 5);
    assert_eq!(MipMaps::PreExisting(0).levels(9), 0);
    assert_eq!(MipMaps::Single.levels(9), 1);
    assert_eq!(MipMaps::Generate.levels(9), 9);
}

#[test]
fn copied_levels_by_mipmap_source() {
    assert_eq!(MipMaps::PreExisting(5).copied_levels(), 5);
    assert_eq!(MipMaps::Single.copied_levels(), 1);
    assert_eq!(MipMaps::Generate.copied_levels(), 1);
}

#[test]
fn transitions_known() {
    assert_eq!(
        Texture::transition_image_layout(3, Layout::Undefined, Layout::TransferDstOptimal),
        barrier_to_transfer(3)
    );
    assert_eq!(
        Texture::transition_image_layout(
            4,
            Layout::TransferDstOptimal,
            Layout::ShaderReadOnlyOptimal
        ),
        barrier_to_shader(4)
    );
    assert_eq!(
        Texture::transition_image_layout(
            0,
            Layout::Undefined,
            Layout::DepthStencilAttachmentOptimal
        ),
        barrier_to_depth(0)
    );
}

#[test]
fn only_three_transitions_are_supported() {
    let layouts = [
        Layout::General,
        Layout::ColorAttachmentOptimal,
        Layout::DepthStencilAttachmentOptimal,
        Layout::DepthStencilReadOnlyOptimal,
        Layout::ShaderReadOnlyOptimal,
        Layout::TransferSrcOptimal,
        Layout::TransferDstOptimal,
        Layout::Undefined,
        Layout::Preinitialized,
        Layout::Present,
    ];
    let mut supported = Vec::new();
    for from in layouts {
        for to in layouts {
            if Texture::supports_transition(from, to) {
                supported.push((from, to));
            }
        }
    }
    assert_eq!(
        supported,
        vec![
            (Layout::TransferDstOptimal, Layout::ShaderReadOnlyOptimal),
            (Layout::Undefined, Layout::DepthStencilAttachmentOptimal),
            (Layout::Undefined, Layout::TransferDstOptimal),
        ]
    );
}

#[test]
fn depth_texture_is_only_brought_into_layout() {
    let info = TextureInfo { kind: Kind::D2(800, 600, 1, 1), mipmaps: MipMaps::Single, pixels: None };
    let texture = Texture::create(info, 10);
    assert_eq!(texture.usage, IMAGE_DEPTH_STENCIL_ATTACHMENT);
    assert_eq!(texture.aspects, ASPECT_DEPTH);
    assert_eq!(texture.sampler, None);
    assert_eq!(texture.mip_levels, 1);
    assert_eq!(texture.kind, ViewKind::D2);
    assert_eq!(texture.staged, 0);
    assert!(texture.mip_commands.is_empty());
    assert_eq!(texture.steps, vec![TextureStep::SubmitFirst, TextureStep::WaitForFence]);
    assert_eq!(texture.commands, vec![TextureCommand::Barrier(barrier_to_depth(0))]);
    assert_eq!(texture.descriptor(), TextureDescriptor::Image(Layout::TransferDstOptimal));
}

#[test]
fn texture_with_pixels_is_staged_and_copied() {
    let pixels = [0u8; 64];
    let info =
        TextureInfo { kind: Kind::D2(4, 4, 1, 1), mipmaps: MipMaps::Single, pixels: Some(&pixels) };
    let texture = Texture::create(info, 3);
    assert_eq!(texture.usage, IMAGE_TRANSFER_DST | IMAGE_SAMPLED);
    assert_eq!(texture.aspects, ASPECT_COLOR);
    assert_eq!(texture.sampler, Some(sampler(1)));
    assert_eq!(texture.mip_levels, 1);
    assert_eq!(texture.staged, 64);
    assert!(texture.mip_commands.is_empty());
    assert_eq!(
        texture.steps,
        vec![
            TextureStep::WaitForFence,
            TextureStep::ResetFence,
            TextureStep::Stage,
            TextureStep::SubmitFirst,
            TextureStep::WaitForFence,
        ]
    );
    let extent = Extent { width: 4, height: 4, depth: 1 };
    assert_eq!(
        texture.commands,
        vec![
            TextureCommand::Barrier(barrier_to_transfer(0)),
            TextureCommand::Copy(BufferImageCopy { buffer_offset: 0, level: 0, image_extent: extent }),
            TextureCommand::Barrier(barrier_to_shader(0)),
        ]
    );
    assert_eq!(
        texture.descriptor(),
        TextureDescriptor::CombinedImageSampler(Layout::ShaderReadOnlyOptimal)
    );
}

#[test]
fn pre_existing_levels_are_each_copied() {
    let pixels = [0u8; 16];
    let info = TextureInfo {
        kind: Kind::D2(8, 2, 1, 1),
        mipmaps: MipMaps::PreExisting(3),
        pixels: Some(&pixels),
    };
    let texture = Texture::create(info, 4);
    assert_eq!(texture.mip_levels, 3);
    assert_eq!(texture.sampler, Some(sampler(3)));
    assert_eq!(texture.usage, IMAGE_TRANSFER_DST | IMAGE_SAMPLED);
    assert_eq!(texture.commands.len(), 9);
    let extent = Extent { width: 8, height: 2, depth: 1 };
    for level in 0..3u8 {
        let at = 3 * level as usize;
        assert_eq!(texture.commands[at], TextureCommand::Barrier(barrier_to_transfer(level)));
        assert_eq!(
            texture.commands[at + 1],
            TextureCommand::Copy(BufferImageCopy { buffer_offset: 0, level, image_extent: extent })
        );
        assert_eq!(texture.commands[at + 2], TextureCommand::Barrier(barrier_to_shader(level)));
    }
}

#[test]
fn pre_existing_zero_levels_copies_nothing() {
    let pixels = [0u8; 16];
    let info = TextureInfo {
        kind: Kind::D1(8, 1),
        mipmaps: MipMaps::PreExisting(0),
        pixels: Some(&pixels),
    };
    let texture = Texture::create(info, 4);
    assert_eq!(texture.mip_levels, 0);
    assert!(texture.commands.is_empty());
    assert_eq!(texture.staged, 16);
    assert_eq!(texture.kind, ViewKind::D1);
}

#[test]
fn generated_mipmaps_need_a_transfer_source() {
    let pixels = [0u8; 4];
    let info =
        TextureInfo { kind: Kind::D3(8, 8, 8), mipmaps: MipMaps::Generate, pixels: Some(&pixels) };
    let texture = Texture::create(info, 4);
    assert_eq!(texture.usage, IMAGE_TRANSFER_DST | IMAGE_SAMPLED | IMAGE_TRANSFER_SRC);
    assert_eq!(texture.mip_levels, 4);
    assert_eq!(texture.sampler, Some(sampler(4)));
    assert_eq!(texture.mip_commands, Texture::gen_mipmaps(8, 8, 4));
    assert_eq!(texture.mip_commands.len(), 12);
    assert_eq!(
        texture.steps,
        vec![
            TextureStep::WaitForFence,
            TextureStep::ResetFence,
            TextureStep::Stage,
            TextureStep::SubmitFirst,
            TextureStep::WaitForFence,
            TextureStep::ResetFence,
            TextureStep::SubmitMipmaps,
            TextureStep::WaitForFence,
        ]
    );
    assert_eq!(texture.commands.len(), 3);
    assert_eq!(texture.kind, ViewKind::D3);
}

#[test]
fn generate_without_pixels_is_still_a_depth_target() {
    let info = TextureInfo { kind: Kind::D2(8, 8, 1, 1), mipmaps: MipMaps::Generate, pixels: None };
    let texture = Texture::create(info, 4);
    assert_eq!(texture.usage, IMAGE_DEPTH_STENCIL_ATTACHMENT);
    assert_eq!(texture.mip_levels, 4);
    assert_eq!(texture.mip_commands.len(), 12);
    assert_eq!(
        texture.steps,
        vec![
            TextureStep::SubmitFirst,
            TextureStep::WaitForFence,
            TextureStep::ResetFence,
            TextureStep::SubmitMipmaps,
            TextureStep::WaitForFence,
        ]
    );
    assert_eq!(texture.sampler, None);
}

#[test]
fn gen_mipmaps_of_one_level_records_nothing() {
    assert!(Texture::gen_mipmaps(16, 16, 1).is_empty());
    assert!(Texture::gen_mipmaps(16, 16, 0).is_empty());
}

#[test]
fn gen_mipmaps_halves_each_level() {
    let commands = Texture::gen_mipmaps(8, 2, 4);
    let sizes = [(8, 2, 4, 1), (4, 1, 2, 1), (2, 1, 1, 1)];
    assert_eq!(commands.len(), 12);
    for step in 0..3u8 {
        let at = 4 * step as usize;
        let (src_width, src_height, dst_width, dst_height) = sizes[step as usize];
        assert_eq!(commands[at], TextureCommand::Barrier(blit_source(step)));
        assert_eq!(
            commands[at + 1],
            TextureCommand::Blit(ImageBlit {
                src_level: step,
                src_width,
                src_height,
                dst_level: step + 1,
                dst_width,
                dst_height,
            })
        );
        assert_eq!(commands[at + 2], TextureCommand::Barrier(blit_done(step)));
        assert_eq!(commands[at + 3], TextureCommand::Barrier(blit_done(3)));
    }
}

#[test]
fn gen_mipmaps_of_an_empty_side_targets_one_texel() {
    let commands = Texture::gen_mipmaps(0, 5, 3);
    assert_eq!(
        commands[1],
        TextureCommand::Blit(ImageBlit {
            src_level: 0,
            src_width: 0,
            src_height: 5,
            dst_level: 1,
            dst_width: 1,
            dst_height: 2,
        })
    );
    assert_eq!(
        commands[5],
        TextureCommand::Blit(ImageBlit {
            src_level: 1,
            src_width: 0,
            src_height: 2,
            dst_level: 2,
            dst_width: 1,
            dst_height: 1,
        })
    );
}

#[test]
fn gen_mipmaps_of_the_longest_chain() {
    let commands = Texture::gen_mipmaps(u32::MAX, 1, 255);
    assert_eq!(commands.len(), 4 * 254);
    assert_eq!(
        commands[4 * 253 + 1],
        TextureCommand::Blit(ImageBlit {
            src_level: 253,
            src_width: 1,
            src_height: 1,
            dst_level: 254,
            dst_width: 1,
            dst_height: 1,
        })
    );
    assert_eq!(commands[4 * 253 + 3], TextureCommand::Barrier(blit_done(254)));
}
