use rockwork::device::{Call, DeviceCall};
use rockwork::framebuffer::{Framebuffer, COLOR_ATTACHMENT_BASE, DEPTH_ATTACHMENT};
use rockwork::texture::TextureFormat::{Depth, DepthStencil, Rgba};
use rockwork::texture::{Texture, TextureFormat};

#[test]
fn attachment_points_have_the_device_values() {
    assert_eq!(COLOR_ATTACHMENT_BASE, gl::COLOR_ATTACHMENT0);
    assert_eq!(COLOR_ATTACHMENT_BASE + 9, gl::COLOR_ATTACHMENT9);
    assert_eq!(DEPTH_ATTACHMENT, gl::DEPTH_ATTACHMENT);
}

#[test]
fn empty_framebuffer_has_no_attachments() {
    let fb = Framebuffer::new_empty(4);
    assert_eq!(fb.id(), 4);
    assert_eq!(fb.color_count(), 0);
    assert!(fb.depth_target().is_none());
    let expected: Vec<DeviceCall> = vec![
        Call::BindFramebuffer { framebuffer: 4 },
        Call::DrawBuffers { attachments: vec![] },
    ];
    assert_eq!(fb.bind(), expected);
}

#[test]
fn color_attachments_keep_insertion_order() {
    let mut fb = Framebuffer::new_empty(4);
    for i in 0..12u32 {
        let (texture, _) = Texture::new_rgba(100 + i, 8, 8);
        assert!(fb.can_attach(TextureFormat::Rgba));
        let calls = fb.add_target(texture);
        let expected: Vec<DeviceCall> = vec![
            Call::BindFramebuffer { framebuffer: 4 },
            Call::FramebufferTexture2D { attachment: gl::COLOR_ATTACHMENT0 + i, texture: 100 + i },
        ];
        assert_eq!(calls, expected);
    }
    assert_eq!(fb.color_count(), 12);
    for i in 0..12usize {
        assert_eq!(fb.color_target(i).id, 100 + i as u32);
        assert_eq!(fb.color_target(i).format, TextureFormat::Rgba);
    }
    assert!(fb.depth_target().is_none());
}

#[test]
fn bind_declares_color_outputs_in_slot_order() {
    let mut fb = Framebuffer::new_empty(4);
    for i in 0..3u32 {
        fb.add_target(Texture::new_rgba(100 + i, 8, 8).0);
    }
    let expected: Vec<DeviceCall> = vec![
        Call::BindFramebuffer { framebuffer: 4 },
        Call::DrawBuffers {
            attachments: vec![gl::COLOR_ATTACHMENT0, gl::COLOR_ATTACHMENT1, gl::COLOR_ATTACHMENT2],
        },
    ];
    assert_eq!(fb.bind(), expected);
    assert_eq!(fb.clear(), expected);
}

#[test]
fn depth_texture_goes_to_the_depth_slot() {
    let mut fb = Framebuffer::new_empty(4);
    fb.add_target(Texture::new_rgba(100, 8, 8).0);
    assert!(fb.can_attach(TextureFormat::Depth));
    let calls = fb.add_target(Texture::new_depth(200, 8, 8).0);
    let expected: Vec<DeviceCall> = vec![
        Call::BindFramebuffer { framebuffer: 4 },
        Call::FramebufferTexture2D { attachment: gl::DEPTH_ATTACHMENT, texture: 200 },
    ];
    assert_eq!(calls, expected);
    assert_eq!(fb.color_count(), 1);
    assert_eq!(fb.depth_target().unwrap().id, 200);
    assert_eq!(fb.depth_target().unwrap().format, TextureFormat::Depth);
}

#[test]
fn second_depth_texture_is_refused() {
    let mut fb = Framebuffer::new_empty(4);
    assert!(fb.can_attach(TextureFormat::Depth));
    fb.add_target(Texture::new_depth(200, 8, 8).0);
    assert!(!fb.can_attach(TextureFormat::Depth));
    assert!(fb.can_attach(TextureFormat::Rgba));
}

#[test]
fn depth_stencil_texture_is_refused() {
    let mut fb = Framebuffer::new_empty(4);
    assert!(!fb.can_attach(TextureFormat::DepthStencil));
    fb.add_target(Texture::new_depth(200, 8, 8).0);
    assert!(!fb.can_attach(TextureFormat::DepthStencil));
}

#[test]
fn requests_with_two_depth_formats_are_invalid() {
    assert!(Framebuffer::formats_valid(&[]));
    assert!(Framebuffer::formats_valid(&[Rgba]));
    assert!(Framebuffer::formats_valid(&[Rgba, Depth, Rgba]));
    assert!(Framebuffer::formats_valid(&[Depth]));
    assert!(!Framebuffer::formats_valid(&[Depth, Depth]));
    assert!(!Framebuffer::formats_valid(&[Depth, Rgba, Rgba, Depth]));
    assert!(!Framebuffer::formats_valid(&[DepthStencil]));
    assert!(!Framebuffer::formats_valid(&[Rgba, DepthStencil]));
    assert!(!Framebuffer::formats_valid(&[Depth, DepthStencil]));
}

#[test]
fn new_creates_and_attaches_in_request_order() {
    let (fb, calls) = Framebuffer::new(4, 16, 8, &[Rgba, Depth, Rgba], &[100, 200, 101]);
    assert_eq!(fb.id(), 4);
    assert_eq!(fb.color_count(), 2);
    assert_eq!(*fb.color_target(0), Texture::new_rgba(100, 16, 8).0);
    assert_eq!(*fb.color_target(1), Texture::new_rgba(101, 16, 8).0);
    assert_eq!(*fb.depth_target().unwrap(), Texture::new_depth(200, 16, 8).0);

    let mut expected: Vec<DeviceCall> = Vec::new();
    expected.extend(Texture::new_rgba(100, 16, 8).1);
    expected.push(Call::BindFramebuffer { framebuffer: 4 });
    expected
        .push(Call::FramebufferTexture2D { attachment: gl::COLOR_ATTACHMENT0, texture: 100 });
    expected.extend(Texture::new_depth(200, 16, 8).1);
    expected.push(Call::BindFramebuffer { framebuffer: 4 });
    expected.push(Call::FramebufferTexture2D { attachment: gl::DEPTH_ATTACHMENT, texture: 200 });
    expected.extend(Texture::new_rgba(101, 16, 8).1);
    expected.push(Call::BindFramebuffer { framebuffer: 4 });
    expected
        .push(Call::FramebufferTexture2D { attachment: gl::COLOR_ATTACHMENT1, texture: 101 });
    assert_eq!(calls, expected);
}

#[test]
fn new_without_formats_is_empty() {
    let (fb, calls) = Framebuffer::new(4, 16, 8, &[], &[]);
    assert_eq!(fb, Framebuffer::new_empty(4));
    assert!(calls.is_empty());
}

#[test]
fn unbind_restores_the_default_surface() {
    let expected: Vec<DeviceCall> = vec![Call::BindFramebuffer { framebuffer: 0 }];
    assert_eq!(Framebuffer::unbind(), expected);
}

#[test]
fn release_deletes_framebuffer_then_textures() {
    let (fb, _) = Framebuffer::new(4, 16, 8, &[Rgba, Depth, Rgba], &[100, 200, 101]);
    let expected: Vec<DeviceCall> = vec![
        Call::DeleteFramebuffer { framebuffer: 4 },
        Call::DeleteTexture { texture: 100 },
        Call::DeleteTexture { texture: 101 },
        Call::DeleteTexture { texture: 200 },
    ];
    assert_eq!(fb.release(), expected);
}
