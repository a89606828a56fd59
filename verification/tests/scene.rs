use mecha_wayland::atlas::{AtlasId, AtlasImage};
use mecha_wayland::geometry::Rect;
use mecha_wayland::gl;
use mecha_wayland::gl::GlCall;
use mecha_wayland::renderer::{GpuStep, RenderableSurface, Renderer, TextureId};
use mecha_wayland::scene::{
    draw_scene, missing_atlas, open_scene, DrawCommand, RenderCommand, SceneStep,
};
use mecha_wayland::window::ColorBits;

type Command = RenderCommand<u8, u16, u32>;

fn show(step: &SceneStep<u8, u16, u32>) -> String {
    match step {
        SceneStep::Gpu(g) => format!("{:?}", g),
        SceneStep::Send(DrawCommand::Clear(c)) => format!("clear {}", c.r),
        SceneStep::Send(DrawCommand::Quad(q)) => format!("quad {}", q),
        SceneStep::Send(DrawCommand::Text { texture, text }) => {
            format!("text {} {}", texture.0, text)
        }
        SceneStep::Send(DrawCommand::MonochromeSprite { texture, sprite }) => {
            format!("sprite {} {}", texture.0, sprite)
        }
        SceneStep::Underlay => "underlay".to_string(),
    }
}

fn register(r: &mut Renderer, atlas: AtlasId, handle: u32) -> TextureId {
    let image = AtlasImage { width: 1, height: 1, data: vec![0] };
    r.register_atlas(atlas, image, Ok(handle)).unwrap().id
}

fn renderer_with_atlases() -> Renderer {
    let mut r = Renderer::new();
    register(&mut r, AtlasId(10), 1);
    register(&mut r, AtlasId(11), 2);
    r
}

#[test]
fn a_scene_is_submitted_in_order() {
    let mut r = renderer_with_atlases();
    let surface = RenderableSurface { width: 64, height: 32, fbo: 3, backend: () };
    let commands: Vec<Command> = vec![
        RenderCommand::DrawText { atlas: AtlasId(11), text: 700 },
        RenderCommand::DrawQuad(5),
        RenderCommand::Other,
        RenderCommand::DrawMonochromeSprite { atlas: AtlasId(10), sprite: 90000 },
    ];
    let opening = open_scene(
        &mut r,
        &surface,
        ColorBits { r: 1, g: 2, b: 3, a: 4 },
        Some(Rect::new(256, 256, 512, 512)),
    );
    let drawing = draw_scene(&r, commands);
    let shown: Vec<String> = opening.iter().chain(drawing.iter()).map(show).collect();
    let g = |c: GlCall| format!("{:?}", GpuStep::Gl(c));
    assert_eq!(
        shown,
        vec![
            format!("{:?}", GpuStep::MakeCurrent),
            g(GlCall::BindFramebuffer { target: gl::FRAMEBUFFER, framebuffer: 3 }),
            g(GlCall::Viewport { x: 0, y: 0, width: 64, height: 32 }),
            g(GlCall::Disable { capability: gl::SCISSOR_TEST }),
            g(GlCall::Enable { capability: gl::SCISSOR_TEST }),
            g(GlCall::Scissor { x: 1, y: 1, width: 2, height: 2 }),
            "clear 1".to_string(),
            format!("{:?}", GpuStep::Clear),
            "underlay".to_string(),
            "text 1 700".to_string(),
            "quad 5".to_string(),
            "sprite 0 90000".to_string(),
            format!("{:?}", GpuStep::MakeCurrent),
            format!("{:?}", GpuStep::Clear),
            format!("{:?}", GpuStep::Opaque),
            format!("{:?}", GpuStep::Translucent),
            format!("{:?}", GpuStep::MakeCurrent),
            g(GlCall::Finish),
        ]
    );
}

#[test]
fn a_scene_without_commands_still_clears() {
    let mut r = Renderer::new();
    let surface = RenderableSurface { width: 8, height: 8, fbo: 1, backend: () };
    let black = ColorBits { r: 0, g: 0, b: 0, a: 0 };
    let opening: Vec<SceneStep<u8, u16, u32>> = open_scene(&mut r, &surface, black, None);
    assert_eq!(opening.len(), 4 + 1 + 3);
    assert!(matches!(opening[4], SceneStep::Gpu(GpuStep::Gl(GlCall::Disable { .. }))));
    let none: Vec<Command> = Vec::new();
    assert_eq!(draw_scene(&r, none).len(), 4 + 2);
}

#[test]
fn an_atlas_uploaded_below_the_widgets_counts() {
    let mut r = renderer_with_atlases();
    let surface = RenderableSurface { width: 8, height: 8, fbo: 1, backend: () };
    let black = ColorBits { r: 0, g: 0, b: 0, a: 0 };
    let opening: Vec<SceneStep<u8, u16, u32>> = open_scene(&mut r, &surface, black, None);
    assert!(matches!(opening.last(), Some(SceneStep::Underlay)));
    // The window uploads one atlas again and one for the first time.
    assert_eq!(register(&mut r, AtlasId(10), 7), TextureId(2));
    assert_eq!(register(&mut r, AtlasId(30), 8), TextureId(3));
    let commands: Vec<Command> = vec![
        RenderCommand::DrawText { atlas: AtlasId(10), text: 1 },
        RenderCommand::DrawMonochromeSprite { atlas: AtlasId(30), sprite: 2 },
    ];
    assert_eq!(missing_atlas(&r, &commands), None);
    let shown: Vec<String> = draw_scene(&r, commands).iter().map(show).collect();
    assert_eq!(shown[..2], ["text 2 1".to_string(), "sprite 3 2".to_string()]);
}

#[test]
fn the_first_missing_atlas_is_named() {
    let r = renderer_with_atlases();
    let commands: Vec<Command> = vec![
        RenderCommand::DrawText { atlas: AtlasId(10), text: 0 },
        RenderCommand::DrawMonochromeSprite { atlas: AtlasId(13), sprite: 0 },
        RenderCommand::DrawText { atlas: AtlasId(12), text: 0 },
    ];
    assert_eq!(missing_atlas(&r, &commands), Some(AtlasId(13)));
    let commands: Vec<Command> = vec![RenderCommand::DrawText { atlas: AtlasId(11), text: 0 }];
    assert_eq!(missing_atlas(&r, &commands), None);
    assert_eq!(r.get_texture_id(AtlasId(11)), TextureId(1));
}
