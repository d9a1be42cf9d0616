use vk_resources::command::{Command, Resource};
use vk_resources::command_buffer::CommandBuffer;
use vk_resources::image::{transition, Access, Aspect, Image, ImageError, Layout, Stage, TransitionInfo, Type};
use vk_resources::texture::{check_rgba_frame, decode_rgba, Texture, TextureError};

fn res(handle: u64) -> Resource {
    Resource { handle, allocation: handle + 1000 }
}

fn encode_png(width: u32, height: u32, color: png::ColorType, data: &[u8]) -> Vec<u8> {
    let mut out = Vec::new();
    {
        let mut encoder = png::Encoder::new(&mut out, width, height);
        encoder.set_color(color);
        encoder.set_depth(png::BitDepth::Eight);
        let mut writer = encoder.write_header().unwrap();
        writer.write_image_data(data).unwrap();
        writer.finish().unwrap();
    }
    out
}

#[test]
fn upload_transition_barriers() {
    assert_eq!(
        transition(Layout::Undefined, Layout::TransferDstOptimal),
        Some(TransitionInfo {
            old_layout: Layout::Undefined,
            new_layout: Layout::TransferDstOptimal,
            src_access: Access::NoAccess,
            dst_access: Access::TransferWrite,
            aspect_mask: Aspect::Color,
            src_stage: Stage::TopOfPipe,
            dst_stage: Stage::Transfer,
        })
    );
    assert_eq!(
        transition(Layout::TransferDstOptimal, Layout::ShaderReadOnlyOptimal),
        Some(TransitionInfo {
            old_layout: Layout::TransferDstOptimal,
            new_layout: Layout::ShaderReadOnlyOptimal,
            src_access: Access::TransferWrite,
            dst_access: Access::NoAccess,
            aspect_mask: Aspect::Color,
            src_stage: Stage::Transfer,
            dst_stage: Stage::FragmentShader,
        })
    );
}

#[test]
fn target_transitions() {
    let depth = transition(Layout::Undefined, Layout::DepthStencilAttachmentOptimal).unwrap();
    assert_eq!(depth.aspect_mask, Aspect::Depth);
    assert_eq!(depth.dst_access, Access::DepthStencilAttachmentWrite);
    assert_eq!(depth.dst_stage, Stage::EarlyFragmentTests);
    let color = transition(Layout::Undefined, Layout::ColorAttachmentOptimal).unwrap();
    assert_eq!(color.aspect_mask, Aspect::Color);
    assert_eq!(color.dst_stage, Stage::ColorAttachmentOutput);
}

#[test]
fn unlisted_transitions_are_refused() {
    assert_eq!(transition(Layout::ShaderReadOnlyOptimal, Layout::TransferDstOptimal), None);
    assert_eq!(transition(Layout::Undefined, Layout::ShaderReadOnlyOptimal), None);
    assert_eq!(transition(Layout::Undefined, Layout::Undefined), None);
}

#[test]
fn image_upload_records_barriers_around_copy() {
    let mut cb = CommandBuffer::new(1);
    cb.begin();
    let data = [1u8, 2, 3, 4];
    let mut image = Image::new(&mut cb, res(50), res(51), 1, 1, Type::SAMPLED, &data);
    assert_eq!(image.get_layout(), Layout::ShaderReadOnlyOptimal);
    let cmds = cb.commands();
    assert_eq!(cmds.len(), 4);
    assert!(matches!(&cmds[0], Command::Write { dst: 51, bytes } if bytes == &data.to_vec()));
    assert!(matches!(cmds[1], Command::Barrier { image: 50, info } if info.new_layout == Layout::TransferDstOptimal));
    assert!(matches!(cmds[2], Command::CopyBufferToImage { src: 51, image: 50, width: 1, height: 1 }));
    assert!(matches!(cmds[3], Command::Barrier { image: 50, info } if info.new_layout == Layout::ShaderReadOnlyOptimal));
    assert_eq!(cb.cleanup_list(), &[res(51)]);
    assert_eq!(image.destroy(), Some(res(50)));
}

#[test]
fn invalid_transition_changes_nothing() {
    let mut cb = CommandBuffer::new(1);
    cb.begin();
    let mut image = Image::new_empty(res(60), Type::DEPTH);
    let r = image.transition_layout(&mut cb, Layout::ShaderReadOnlyOptimal);
    assert_eq!(
        r,
        Err(ImageError::InvalidTransition { from: Layout::Undefined, to: Layout::ShaderReadOnlyOptimal })
    );
    assert_eq!(image.get_layout(), Layout::Undefined);
    assert!(cb.commands().is_empty());
    assert_eq!(image.transition_layout(&mut cb, Layout::DepthStencilAttachmentOptimal), Ok(()));
    assert_eq!(image.get_layout(), Layout::DepthStencilAttachmentOptimal);
    assert_eq!(cb.commands().len(), 1);
}

#[test]
fn image_destroyed_once() {
    let mut image = Image::new_empty(res(70), Type::COLOR);
    assert_eq!(image.destroy(), Some(res(70)));
    assert_eq!(image.destroy(), None);
    let mut cb = CommandBuffer::new(1);
    cb.begin();
    assert_eq!(image.transition_layout(&mut cb, Layout::ColorAttachmentOptimal), Err(ImageError::Destroyed));
}

#[test]
fn texture_over_raw_data() {
    let mut cb = CommandBuffer::new(1);
    cb.begin();
    let mut tex = Texture::new_raw_data(&mut cb, res(80), res(81), 82, 83, &[0u8; 16], 2, 2);
    assert_eq!(tex.get_image(), 80);
    assert_eq!(tex.get_image_view(), 82);
    assert_eq!(tex.get_sampler(), 83);
    assert_eq!(cb.cleanup_list(), &[res(81)]);
    assert_eq!(tex.destroy(), Some(res(80)));
    assert_eq!(tex.destroy(), None);
}

#[test]
fn decode_rgba_png() {
    let pixels: Vec<u8> = (0..16u8).collect();
    let file = encode_png(2, 2, png::ColorType::Rgba, &pixels);
    let image = decode_rgba(&file).ok().unwrap();
    assert_eq!(image.width, 2);
    assert_eq!(image.height, 2);
    assert_eq!(image.data, pixels);
}

#[test]
fn decode_rgb_png_is_refused() {
    let pixels: Vec<u8> = (0..12u8).collect();
    let file = encode_png(2, 2, png::ColorType::Rgb, &pixels);
    assert!(matches!(decode_rgba(&file), Err(TextureError::InvalidColorChannel)));
}

#[test]
fn decode_garbage_is_refused() {
    let r = decode_rgba(&[1u8, 2, 3, 4, 5]);
    assert!(matches!(r, Err(TextureError::IoError(_)) | Err(TextureError::Miscellaneous)));
    let empty = decode_rgba(&[]);
    assert!(matches!(empty, Err(TextureError::IoError(_)) | Err(TextureError::Miscellaneous)));
}

#[test]
fn check_rgba_frame_cases() {
    let ok = check_rgba_frame(2, 1, 4, 8, vec![0u8; 8]).ok().unwrap();
    assert_eq!((ok.width, ok.height, ok.data.len()), (2, 1, 8));
    assert!(matches!(check_rgba_frame(2, 1, 3, 8, vec![0u8; 6]), Err(TextureError::InvalidColorChannel)));
    assert!(matches!(check_rgba_frame(2, 1, 4, 16, vec![0u8; 16]), Err(TextureError::InvalidColorChannel)));
    assert!(matches!(check_rgba_frame(2, 2, 4, 8, vec![0u8; 8]), Err(TextureError::InvalidColorChannel)));
    assert!(check_rgba_frame(0, 0, 4, 8, Vec::new()).is_ok());
}
