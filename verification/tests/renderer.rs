use mecha_wayland::atlas::{AtlasData, AtlasError, AtlasId, AtlasImage};
use mecha_wayland::dmabuf::DmaBuf;
use mecha_wayland::geometry::Rect;
use mecha_wayland::gl;
use mecha_wayland::gl::{signed32, GlCall};
use mecha_wayland::renderer::{
    GpuStep, GpuTexture, RenderableSurface, Renderer, SurfaceBackend, TextureError, TextureFormat,
    TextureId,
};

#[test]
fn enumerants_are_those_of_the_gl() {
    assert_eq!(gl::TEXTURE_2D, glow::TEXTURE_2D);
    assert_eq!(gl::SCISSOR_TEST, glow::SCISSOR_TEST);
    assert_eq!(gl::UNPACK_ALIGNMENT, glow::UNPACK_ALIGNMENT);
    assert_eq!(gl::UNSIGNED_BYTE, glow::UNSIGNED_BYTE);
    assert_eq!(gl::RGBA, glow::RGBA);
    assert_eq!(gl::LUMINANCE, glow::LUMINANCE);
    assert_eq!(gl::LINEAR, glow::LINEAR);
    assert_eq!(gl::TEXTURE_MAG_FILTER, glow::TEXTURE_MAG_FILTER);
    assert_eq!(gl::TEXTURE_MIN_FILTER, glow::TEXTURE_MIN_FILTER);
    assert_eq!(gl::TEXTURE_WRAP_S, glow::TEXTURE_WRAP_S);
    assert_eq!(gl::TEXTURE_WRAP_T, glow::TEXTURE_WRAP_T);
    assert_eq!(gl::CLAMP_TO_EDGE, glow::CLAMP_TO_EDGE);
    assert_eq!(gl::DEPTH_COMPONENT24, glow::DEPTH_COMPONENT24);
    assert_eq!(gl::FRAMEBUFFER_COMPLETE, glow::FRAMEBUFFER_COMPLETE);
    assert_eq!(gl::COLOR_ATTACHMENT0, glow::COLOR_ATTACHMENT0);
    assert_eq!(gl::DEPTH_ATTACHMENT, glow::DEPTH_ATTACHMENT);
    assert_eq!(gl::FRAMEBUFFER, glow::FRAMEBUFFER);
    assert_eq!(gl::RENDERBUFFER, glow::RENDERBUFFER);
}

#[test]
fn sizes_reach_the_gl_as_signed_bits() {
    assert_eq!(signed32(0), 0);
    assert_eq!(signed32(0x7fff_ffff), i32::MAX);
    assert_eq!(signed32(0x8000_0000), i32::MIN);
    assert_eq!(signed32(0xffff_ffff), -1);
}

const BUF: DmaBuf = DmaBuf {
    prime_fd: 1,
    egl_image: 2,
    stride: 3,
    modifier: 4,
    rbo: 5,
    depth_rbo: 6,
    fbo: 9,
};

fn surface(width: u32, height: u32) -> RenderableSurface<DmaBuf> {
    RenderableSurface { width, height, fbo: 9, backend: BUF }
}

#[test]
fn activating_a_surface_sets_target_and_viewport() {
    let mut r = Renderer::new();
    assert_eq!(
        r.active_surface(&surface(640, 480)),
        vec![
            GpuStep::MakeCurrent,
            GpuStep::Gl(GlCall::BindFramebuffer { target: gl::FRAMEBUFFER, framebuffer: 9 }),
            GpuStep::Gl(GlCall::Viewport { x: 0, y: 0, width: 640, height: 480 }),
            GpuStep::Gl(GlCall::Disable { capability: gl::SCISSOR_TEST }),
        ]
    );
    // The scissor now goes by the new viewport.
    assert_eq!(
        r.set_scissor(Some(Rect::new(-1000 * 256, -256, 4000 * 256, 4000 * 256)))[1],
        GpuStep::Gl(GlCall::Scissor { x: 0, y: 0, width: 640, height: 480 })
    );
}

#[test]
fn scissor_rounds_outward_and_clamps() {
    let mut r = Renderer::new();
    r.set_width(100);
    r.set_height(50);
    // From (10.5, 3.0) to (20.25, 7.0).
    assert_eq!(
        r.set_scissor(Some(Rect::new(10 * 256 + 128, 3 * 256, 2496, 4 * 256))),
        vec![
            GpuStep::Gl(GlCall::Enable { capability: gl::SCISSOR_TEST }),
            GpuStep::Gl(GlCall::Scissor { x: 10, y: 3, width: 11, height: 4 }),
        ]
    );
    // Wholly to the left and below.
    assert_eq!(
        r.set_scissor(Some(Rect::new(-5000, 60 * 256, 1000, 256)))[1],
        GpuStep::Gl(GlCall::Scissor { x: 0, y: 50, width: 0, height: 0 })
    );
    // Far beyond the screen.
    assert_eq!(
        r.set_scissor(Some(Rect::new(i64::MIN, 0, i64::MAX, i64::MAX)))[1],
        GpuStep::Gl(GlCall::Scissor { x: 0, y: 0, width: 0, height: 50 })
    );
    r.set_width(u32::MAX);
    assert_eq!(
        r.set_scissor(Some(Rect::new(0, 0, i64::MAX, 256)))[1],
        GpuStep::Gl(GlCall::Scissor { x: 0, y: 0, width: i32::MAX, height: 1 })
    );
    assert_eq!(
        r.set_scissor(None),
        vec![GpuStep::Gl(GlCall::Disable { capability: gl::SCISSOR_TEST })]
    );
}

#[test]
fn textures_are_numbered_in_order() {
    let mut r = Renderer::new();
    let a = r.create_texture(Ok(40), 2, 3, TextureFormat::R8, vec![1, 2, 3, 4, 5, 6]).unwrap();
    // Attempts that fail use no identity up.
    for e in [TextureError::NotCurrent, TextureError::NoTexture] {
        let failed = r.create_texture(Err(e), 1, 1, TextureFormat::R8, vec![8]);
        assert_eq!(failed.map(|u| u.id), Err(e));
    }
    let b = r.create_texture(Ok(41), 1, 1, TextureFormat::R8, vec![9]).unwrap();
    assert_eq!((a.id, b.id), (TextureId(0), TextureId(1)));
    assert_eq!(a.data, vec![1, 2, 3, 4, 5, 6]);
    assert_eq!(r.texture(a.id), Some(GpuTexture { handle: 40, width: 2, height: 3 }));
    assert_eq!(r.texture(b.id), Some(GpuTexture { handle: 41, width: 1, height: 1 }));
    assert_eq!(r.texture(TextureId(2)), None);
}

#[test]
fn an_upload_is_a_luminance_texture() {
    let mut r = Renderer::new();
    let up = r.create_texture(Ok(7), 2, 3, TextureFormat::R8, vec![0; 6]).unwrap();
    assert_eq!(
        up.calls,
        vec![
            GlCall::BindTexture { target: glow::TEXTURE_2D, texture: Some(7) },
            GlCall::PixelStore { parameter: glow::UNPACK_ALIGNMENT, value: 1 },
            GlCall::TexImage2d {
                target: glow::TEXTURE_2D,
                level: 0,
                internal_format: 0x1909,
                width: 2,
                height: 3,
                border: 0,
                format: 0x1909,
                data_type: glow::UNSIGNED_BYTE,
            },
            GlCall::TexParameter {
                target: glow::TEXTURE_2D,
                parameter: glow::TEXTURE_MIN_FILTER,
                value: 0x2601,
            },
            GlCall::TexParameter {
                target: glow::TEXTURE_2D,
                parameter: glow::TEXTURE_MAG_FILTER,
                value: 0x2601,
            },
            GlCall::TexParameter {
                target: glow::TEXTURE_2D,
                parameter: glow::TEXTURE_WRAP_S,
                value: 0x812F,
            },
            GlCall::TexParameter {
                target: glow::TEXTURE_2D,
                parameter: glow::TEXTURE_WRAP_T,
                value: 0x812F,
            },
            GlCall::BindTexture { target: glow::TEXTURE_2D, texture: None },
        ]
    );
}

#[test]
fn an_uploaded_atlas_is_found() {
    let mut r = Renderer::new();
    assert_eq!(r.find_texture_id(AtlasId(5)), None);
    let image = |data: Vec<u8>| AtlasImage { width: 1, height: data.len() as u32, data };
    let none = r.register_atlas(AtlasId(5), image(vec![3, 4]), Err(TextureError::NotCurrent));
    assert_eq!(none.map(|u| u.id), Err(TextureError::NotCurrent));
    assert_eq!(r.find_texture_id(AtlasId(5)), None);
    let up = r.register_atlas(AtlasId(5), image(vec![3, 4]), Ok(77)).unwrap();
    assert_eq!(up.id, TextureId(0));
    assert_eq!(up.data, vec![3, 4]);
    assert_eq!(r.find_texture_id(AtlasId(5)), Some(TextureId(0)));
    assert_eq!(r.get_texture_id(AtlasId(5)), TextureId(0));
    assert_eq!(r.texture(TextureId(0)), Some(GpuTexture { handle: 77, width: 1, height: 2 }));
    // Uploading another leaves it; uploading it again moves it.
    r.register_atlas(AtlasId(6), image(vec![0]), Ok(78)).unwrap();
    assert_eq!(r.get_texture_id(AtlasId(5)), TextureId(0));
    r.register_atlas(AtlasId(5), image(vec![0]), Ok(79)).unwrap();
    assert_eq!(r.get_texture_id(AtlasId(5)), TextureId(2));
    assert_eq!(r.get_texture_id(AtlasId(6)), TextureId(1));
}

fn png_file(width: u32, height: u32, pixels: &[u8]) -> Vec<u8> {
    let mut bytes: Vec<u8> = Vec::new();
    {
        let mut encoder = png::Encoder::new(&mut bytes, width, height);
        encoder.set_color(png::ColorType::Grayscale);
        encoder.set_depth(png::BitDepth::Eight);
        let mut writer = encoder.write_header().unwrap();
        writer.write_image_data(pixels).unwrap();
    }
    bytes
}

#[test]
fn a_png_atlas_is_decoded_and_registered() {
    let mut r = Renderer::new();
    let file = png_file(2, 2, &[10, 20, 30, 40]);
    let up = r.upload_atlas(AtlasData { id: AtlasId(8), png_bytes: &file }, Ok(5)).unwrap();
    assert_eq!((up.id, up.data), (TextureId(0), vec![10, 20, 30, 40]));
    assert_eq!(r.find_texture_id(AtlasId(8)), Some(TextureId(0)));
    assert_eq!(r.texture(TextureId(0)), Some(GpuTexture { handle: 5, width: 2, height: 2 }));
}

#[test]
fn an_atlas_that_fails_changes_nothing() {
    let mut r = Renderer::new();
    let file = png_file(1, 1, &[10]);
    let broken = AtlasData { id: AtlasId(8), png_bytes: &file[..20] };
    assert!(matches!(r.upload_atlas(broken, Ok(5)), Err(AtlasError::Header(_))));
    // A broken file counts before a missing texture.
    assert!(matches!(r.upload_atlas(broken, Err(TextureError::NoTexture)), Err(AtlasError::Header(_))));
    let whole = AtlasData { id: AtlasId(8), png_bytes: &file };
    for e in [TextureError::NotCurrent, TextureError::NoTexture] {
        let failed = r.upload_atlas(whole, Err(e));
        assert!(matches!(failed, Err(AtlasError::Texture(why)) if why == e));
    }
    assert_eq!(r.find_texture_id(AtlasId(8)), None);
    let next = r.create_texture(Ok(9), 1, 1, TextureFormat::R8, vec![0]).unwrap();
    assert_eq!(next.id, TextureId(0));
}

#[test]
fn pipelines_are_compiled_once() {
    let mut r = Renderer::new();
    assert!(r.init_pipelines());
    assert!(!r.init_pipelines());
}

#[test]
fn a_frame_clears_then_paints_opaque_then_translucent() {
    let r = Renderer::new();
    assert_eq!(
        r.render_frame(),
        vec![GpuStep::MakeCurrent, GpuStep::Clear, GpuStep::Opaque, GpuStep::Translucent]
    );
    assert_eq!(r.process_clear(), vec![GpuStep::Clear]);
    assert_eq!(r.process_opaque(), vec![GpuStep::Opaque]);
    assert_eq!(r.process_translucent(), vec![GpuStep::Translucent]);
    assert_eq!(r.finish(), vec![GpuStep::MakeCurrent, GpuStep::Gl(GlCall::Finish)]);
}

#[test]
fn reading_back_takes_four_bytes_per_pixel() {
    let (calls, pixels) = surface(3, 5).read_pixels();
    assert_eq!(pixels, vec![0u8; 60]);
    assert_eq!(
        calls,
        vec![
            GlCall::BindFramebuffer { target: glow::FRAMEBUFFER, framebuffer: 9 },
            GlCall::ReadPixels {
                x: 0,
                y: 0,
                width: 3,
                height: 5,
                format: glow::RGBA,
                data_type: glow::UNSIGNED_BYTE,
            },
        ]
    );
    assert_eq!(BUF.read_pixels(3, 5), (calls, pixels));
    assert!(surface(0, 5).read_pixels().1.is_empty());
}

/// A store whose pixels are at hand without a call.
struct Mapped;

impl SurfaceBackend for Mapped {
    fn target(&self) -> u32 {
        3
    }

    fn fbo(&self) -> u32 {
        3
    }

    fn read_pixels(&self, width: u32, height: u32) -> (Vec<GlCall>, Vec<u8>) {
        (Vec::new(), vec![7; (width * height * 4) as usize])
    }
}

#[test]
fn a_store_can_be_read_its_own_way() {
    let s = RenderableSurface { width: 2, height: 1, fbo: 3, backend: Mapped };
    assert_eq!(s.read_pixels(), (vec![], vec![7; 8]));
}

#[test]
fn surfaces_draw_into_their_own_framebuffer() {
    let r = Renderer::new();
    let allocation = r.prepare_surface(4, 5, Ok::<(), &str>(())).unwrap();
    assert_eq!(allocation.size(), (4, 5));
    let s = r.create_surface(allocation, Ok::<DmaBuf, &str>(BUF)).unwrap();
    assert_eq!((s.width, s.height, s.fbo, s.backend), (4, 5, BUF.fbo(), BUF));
    let t = r.create_texture_surface(allocation, Ok::<DmaBuf, &str>(BUF)).unwrap();
    assert_eq!((t.width, t.height, t.fbo, t.backend), (4, 5, 9, BUF));
    assert_eq!(r.destroy_surface(s), (vec![GpuStep::MakeCurrent], BUF));
}

#[test]
fn failures_of_a_surface_are_passed_on() {
    let r = Renderer::new();
    assert_eq!(r.prepare_surface(4, 5, Err("no context")), Err("no context"));
    let allocation = r.prepare_surface(4, 5, Ok::<(), &str>(())).unwrap();
    let failed = r.create_surface(allocation, Err::<DmaBuf, &str>("no memory"));
    assert_eq!(failed.map(|s| s.fbo), Err("no memory"));
    let failed = r.create_texture_surface(allocation, Err::<DmaBuf, &str>("no memory"));
    assert_eq!(failed.map(|s| s.fbo), Err("no memory"));
}
