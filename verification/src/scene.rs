//! Submission of a widget tree's render commands as one frame.

use vstd::prelude::*;

use crate::atlas::AtlasId;
use crate::geometry::Rect;
use crate::renderer::{
    activation_steps, finish_steps, frame_steps, scissor_steps, GpuStep, GpuTexture,
    RenderableSurface,
    Renderer, RendererView, TextureId,
};
use crate::window::ColorBits;

verus! {

/// A command of the widget toolkit. `Q`, `T` and `S` are what it says of a quad, of a run of
/// text and of a sprite, apart from the atlas that the last two draw from.
pub enum RenderCommand<Q, T, S> {
    DrawQuad(Q),
    DrawText { atlas: AtlasId, text: T },
    DrawMonochromeSprite { atlas: AtlasId, sprite: S },
    /// Any other command: it draws nothing here.
    Other,
}

/// A draw that goes into the renderer's queues, with its texture found.
pub enum DrawCommand<Q, T, S> {
    Clear(ColorBits),
    Quad(Q),
    Text { texture: TextureId, text: T },
    MonochromeSprite { texture: TextureId, sprite: S },
}

/// One step of submitting a frame.
pub enum SceneStep<Q, T, S> {
    Gpu(GpuStep),
    Send(DrawCommand<Q, T, S>),
    /// Let the window paint below its widgets.
    Underlay,
}

/// The atlas that a command draws from.
pub open spec fn atlas_of<Q, T, S>(command: RenderCommand<Q, T, S>) -> Option<AtlasId> {
    match command {
        RenderCommand::DrawText { atlas, text } => Some(atlas),
        RenderCommand::DrawMonochromeSprite { atlas, sprite } => Some(atlas),
        _ => None,
    }
}

/// Every command's atlas has been uploaded.
pub open spec fn atlases_ready<Q, T, S>(
    commands: Seq<RenderCommand<Q, T, S>>,
    atlases: Map<u32, TextureId>,
) -> bool {
    forall|i: int|
        0 <= i < commands.len() ==> (atlas_of(#[trigger] commands[i]) matches Some(a)
            ==> atlases.contains_key(a.0))
}

/// The draw that a command amounts to, if it amounts to one.
pub open spec fn draw_of<Q, T, S>(
    command: RenderCommand<Q, T, S>,
    atlases: Map<u32, TextureId>,
) -> Option<DrawCommand<Q, T, S>> {
    match command {
        RenderCommand::DrawQuad(q) => Some(DrawCommand::Quad(q)),
        RenderCommand::DrawText { atlas, text } => Some(
            DrawCommand::Text { texture: atlases[atlas.0], text },
        ),
        RenderCommand::DrawMonochromeSprite { atlas, sprite } => Some(
            DrawCommand::MonochromeSprite { texture: atlases[atlas.0], sprite },
        ),
        RenderCommand::Other => None,
    }
}

/// The draws of a list of commands, in the order of the list.
pub open spec fn draws_of<Q, T, S>(
    commands: Seq<RenderCommand<Q, T, S>>,
    atlases: Map<u32, TextureId>,
) -> Seq<DrawCommand<Q, T, S>>
    decreases commands.len(),
{
    if commands.len() == 0 {
        Seq::empty()
    } else {
        let before = draws_of(commands.drop_last(), atlases);
        match draw_of(commands.last(), atlases) {
            Some(d) => before.push(d),
            None => before,
        }
    }
}

pub open spec fn gpu_steps<Q, T, S>(steps: Seq<GpuStep>) -> Seq<SceneStep<Q, T, S>> {
    steps.map_values(|g: GpuStep| SceneStep::<Q, T, S>::Gpu(g))
}

pub open spec fn send_steps<Q, T, S>(draws: Seq<DrawCommand<Q, T, S>>) -> Seq<
    SceneStep<Q, T, S>,
> {
    draws.map_values(|d: DrawCommand<Q, T, S>| SceneStep::<Q, T, S>::Send(d))
}

/// The steps before the first draw: the target, the scissor, the clear, the underlay.
pub open spec fn scene_opening<Q, T, S>(
    fbo: u32,
    width: u32,
    height: u32,
    clear_color: ColorBits,
    scissor: Option<Rect>,
) -> Seq<SceneStep<Q, T, S>> {
    gpu_steps::<Q, T, S>(
        activation_steps(fbo, width, height) + scissor_steps(scissor, width as int, height as int),
    ) + seq![
        SceneStep::<Q, T, S>::Send(DrawCommand::Clear(clear_color)),
        SceneStep::<Q, T, S>::Gpu(GpuStep::Clear),
        SceneStep::<Q, T, S>::Underlay,
    ]
}

/// The steps after the last draw: the passes, then waiting for the GPU.
pub open spec fn scene_closing<Q, T, S>() -> Seq<SceneStep<Q, T, S>> {
    gpu_steps::<Q, T, S>(frame_steps() + finish_steps())
}

fn append_steps<Q, T, S>(scene: &mut Vec<SceneStep<Q, T, S>>, steps: Vec<GpuStep>)
    ensures
        final(scene)@ == old(scene)@ + gpu_steps::<Q, T, S>(steps@),
{
    let mut i: usize = 0;
    while i < steps.len()
        invariant
            0 <= i <= steps@.len(),
            scene@ == old(scene)@ + gpu_steps::<Q, T, S>(steps@.take(i as int)),
        decreases steps@.len() - i,
    {
        scene.push(SceneStep::Gpu(steps[i]));
        i = i + 1;
        assert(steps@.take(i as int) =~= steps@.take(i - 1).push(steps@[i - 1]));
        assert(scene@ =~= old(scene)@ + gpu_steps::<Q, T, S>(steps@.take(i as int)));
    }
    assert(steps@.take(i as int) =~= steps@);
}

/// The first atlas that `commands` draw from and that has not been uploaded.
pub fn missing_atlas<Q, T, S>(
    renderer: &Renderer,
    commands: &Vec<RenderCommand<Q, T, S>>,
) -> (missing: Option<AtlasId>)
    ensures
        missing is None <==> atlases_ready(commands@, renderer@.atlases),
        missing matches Some(a) ==> !renderer@.atlases.contains_key(a.0) && exists|i: int|
            0 <= i < commands@.len() && #[trigger] atlas_of(commands@[i]) == Some(a)
                && atlases_ready(commands@.take(i), renderer@.atlases),
{
    let mut i: usize = 0;
    while i < commands.len()
        invariant
            0 <= i <= commands@.len(),
            atlases_ready(commands@.take(i as int), renderer@.atlases),
        decreases commands@.len() - i,
    {
        let used: Option<AtlasId> = match &commands[i] {
            RenderCommand::DrawText { atlas, text: _ } => Some(*atlas),
            RenderCommand::DrawMonochromeSprite { atlas, sprite: _ } => Some(*atlas),
            _ => None,
        };
        assert(used == atlas_of(commands@[i as int]));
        if let Some(a) = used {
            if renderer.find_texture_id(a).is_none() {
                return Some(a);
            }
        }
        i = i + 1;
        assert forall|j: int| 0 <= j < i implies (atlas_of(
            #[trigger] commands@.take(i as int)[j],
        ) matches Some(a) ==> renderer@.atlases.contains_key(a.0)) by {
            if j < i - 1 {
                assert(commands@.take(i as int)[j] == commands@.take(i - 1)[j]);
            }
        }
    }
    assert(commands@.take(i as int) =~= commands@);
    None
}

/// Begin a frame on `surface`: bind the target, restrict it to `scissor`, clear it, and let the
/// window paint below its widgets. The window may use the renderer for that, so what the commands
/// draw is settled after it, by [`draw_scene`].
pub fn open_scene<B, Q, T, S>(
    renderer: &mut Renderer,
    surface: &RenderableSurface<B>,
    clear_color: ColorBits,
    scissor: Option<Rect>,
) -> (steps: Vec<SceneStep<Q, T, S>>)
    requires
        scissor matches Some(r) ==> r.bounded(),
    ensures
        steps@ == scene_opening::<Q, T, S>(
            surface.fbo,
            surface.width,
            surface.height,
            clear_color,
            scissor,
        ),
        final(renderer)@ == old(renderer)@.with_viewport(surface.width, surface.height),
{
    let mut steps: Vec<SceneStep<Q, T, S>> = Vec::new();
    let activation = renderer.active_surface(surface);
    append_steps(&mut steps, activation);
    let restriction = renderer.set_scissor(scissor);
    append_steps(&mut steps, restriction);
    steps.push(SceneStep::Send(DrawCommand::Clear(clear_color)));
    let clear = renderer.process_clear();
    append_steps(&mut steps, clear);
    steps.push(SceneStep::Underlay);
    assert(steps@ =~= scene_opening::<Q, T, S>(
        surface.fbo,
        surface.width,
        surface.height,
        clear_color,
        scissor,
    ));
    steps
}

/// Finish a frame that [`open_scene`] began: queue every command in order, each with the texture
/// that its atlas has now, run the passes, and wait for the GPU.
pub fn draw_scene<Q, T, S>(renderer: &Renderer, commands: Vec<RenderCommand<Q, T, S>>) -> (steps:
    Vec<SceneStep<Q, T, S>>)
    requires
        atlases_ready(commands@, renderer@.atlases),
    ensures
        steps@ == send_steps(draws_of(commands@, renderer@.atlases)) + scene_closing::<Q, T, S>(),
{
    let mut steps: Vec<SceneStep<Q, T, S>> = Vec::new();
    let ghost atlases = renderer@.atlases;
    let ghost all = commands@;
    assert(all.take(0) =~= Seq::empty());
    for command in it: commands
        invariant
            it.seq() == all,
            atlases == renderer@.atlases,
            atlases_ready(all, atlases),
            steps@ == send_steps(draws_of(all.take(it.index() as int), atlases)),
    {
        let ghost i = it.index() as int;
        assert(command == all[i]);
        assert(all.take(i + 1).drop_last() =~= all.take(i));
        assert(all.take(i + 1).last() == command);
        match command {
            RenderCommand::DrawQuad(q) => {
                steps.push(SceneStep::Send(DrawCommand::Quad(q)));
            },
            RenderCommand::DrawText { atlas, text } => {
                let texture = renderer.get_texture_id(atlas);
                steps.push(SceneStep::Send(DrawCommand::Text { texture, text }));
            },
            RenderCommand::DrawMonochromeSprite { atlas, sprite } => {
                let texture = renderer.get_texture_id(atlas);
                steps.push(SceneStep::Send(DrawCommand::MonochromeSprite { texture, sprite }));
            },
            RenderCommand::Other => {},
        }
        assert(steps@ =~= send_steps(draws_of(all.take(i + 1), atlases)));
    }
    assert(all.take(all.len() as int) =~= all);
    let passes = renderer.render_frame();
    append_steps(&mut steps, passes);
    let wait = renderer.finish();
    append_steps(&mut steps, wait);
    assert(steps@ =~= send_steps(draws_of(all, atlases)) + scene_closing::<Q, T, S>());
    steps
}

/// Commands that follow each other are drawn in that order: the draws of two lists in a row are
/// the draws of the first, then those of the second.
pub proof fn draws_keep_order<Q, T, S>(
    first: Seq<RenderCommand<Q, T, S>>,
    second: Seq<RenderCommand<Q, T, S>>,
    atlases: Map<u32, TextureId>,
)
    ensures
        draws_of(first + second, atlases) == draws_of(first, atlases) + draws_of(second, atlases),
    decreases second.len(),
{
    if second.len() == 0 {
        assert(first + second =~= first);
        assert(draws_of(first, atlases) + draws_of(second, atlases) =~= draws_of(first, atlases));
    } else {
        draws_keep_order(first, second.drop_last(), atlases);
        assert((first + second).drop_last() =~= first + second.drop_last());
        assert((first + second).last() == second.last());
        assert(draws_of(first + second, atlases) =~= draws_of(first, atlases) + draws_of(
            second,
            atlases,
        ));
    }
}

/// Every command of a kind that draws is drawn: no more and no fewer draws than such commands.
pub proof fn nothing_is_dropped<Q, T, S>(
    commands: Seq<RenderCommand<Q, T, S>>,
    atlases: Map<u32, TextureId>,
)
    requires
        forall|i: int| 0 <= i < commands.len() ==> !(#[trigger] commands[i] is Other),
    ensures
        draws_of(commands, atlases).len() == commands.len(),
        forall|i: int|
            0 <= i < commands.len() ==> Some(#[trigger] draws_of(commands, atlases)[i]) == draw_of(
                commands[i],
                atlases,
            ),
    decreases commands.len(),
{
    if commands.len() > 0 {
        let shorter = commands.drop_last();
        assert forall|i: int| 0 <= i < shorter.len() implies !(#[trigger] shorter[i] is Other) by {
            assert(shorter[i] == commands[i]);
        }
        nothing_is_dropped(shorter, atlases);
        assert(!(commands[commands.len() - 1] is Other));
        assert forall|i: int| 0 <= i < commands.len() implies Some(
            #[trigger] draws_of(commands, atlases)[i],
        ) == draw_of(commands[i], atlases) by {
            if i < shorter.len() {
                assert(draws_of(commands, atlases)[i] == draws_of(shorter, atlases)[i]);
                assert(shorter[i] == commands[i]);
            }
        }
    }
}

/// The target is cleared, and no pass runs, before the window paints below its widgets.
pub proof fn clear_precedes_the_underlay<Q, T, S>(
    fbo: u32,
    width: u32,
    height: u32,
    clear_color: ColorBits,
    scissor: Option<Rect>,
)
    ensures
        ({
            let opening = scene_opening::<Q, T, S>(fbo, width, height, clear_color, scissor);
            let n = opening.len();
            &&& n >= 3
            &&& opening[n - 1] is Underlay
            &&& opening[n - 2] == SceneStep::<Q, T, S>::Gpu(GpuStep::Clear)
            &&& opening[n - 3] == SceneStep::<Q, T, S>::Send(DrawCommand::Clear(clear_color))
            &&& forall|i: int|
                0 <= i < n ==> (#[trigger] opening[i]) != SceneStep::<Q, T, S>::Gpu(
                    GpuStep::Opaque,
                ) && opening[i] != SceneStep::<Q, T, S>::Gpu(GpuStep::Translucent)
        }),
{
}

/// A frame queues all of its draws before the opaque and translucent passes run, and waits for the
/// GPU at its very end.
pub proof fn draws_precede_the_passes<Q, T, S>(draws: Seq<DrawCommand<Q, T, S>>)
    ensures
        ({
            let steps = send_steps(draws) + scene_closing::<Q, T, S>();
            &&& forall|i: int, j: int|
                0 <= i < steps.len() && 0 <= j < steps.len() && (#[trigger] steps[i]) is Send && (
                (#[trigger] steps[j]) == SceneStep::<Q, T, S>::Gpu(GpuStep::Opaque) || steps[j]
                    == SceneStep::<Q, T, S>::Gpu(GpuStep::Translucent)) ==> i < j
            &&& steps.last() == SceneStep::<Q, T, S>::Gpu(
                GpuStep::Gl(crate::gl::GlCall::Finish),
            )
        }),
{
    let closing = scene_closing::<Q, T, S>();
    let sends = send_steps(draws);
    let steps = sends + closing;
    assert forall|i: int| 0 <= i < steps.len() implies ((#[trigger] steps[i]) is Send <==> i
        < sends.len()) by {
        if i < sends.len() {
            assert(steps[i] == sends[i]);
        } else {
            assert(steps[i] == closing[i - sends.len()]);
        }
    }
    assert(steps.last() == closing.last());
}

/// A text or sprite is drawn from the texture that its atlas has when the draws are settled: an
/// atlas that the window uploads while it paints below counts.
pub proof fn draws_use_the_newest_upload<Q, T, S>(
    before: RendererView,
    atlas: AtlasId,
    texture: GpuTexture,
    text: T,
    sprite: S,
)
    ensures
        ({
            let atlases = before.with_atlas(atlas, texture).atlases;
            let id = TextureId(before.next_texture);
            &&& draw_of(RenderCommand::<Q, T, S>::DrawText { atlas, text }, atlases) == Some(
                DrawCommand::<Q, T, S>::Text { texture: id, text },
            )
            &&& draw_of(RenderCommand::<Q, T, S>::DrawMonochromeSprite { atlas, sprite }, atlases)
                == Some(DrawCommand::<Q, T, S>::MonochromeSprite { texture: id, sprite })
        }),
{
}

/// What each kind of command amounts to: a quad to the same quad, a text or sprite to the same with
/// the texture of its atlas, any other command to nothing.
pub proof fn commands_are_drawn_as_they_are<Q, T, S>(
    quad: Q,
    atlas: AtlasId,
    text: T,
    sprite: S,
    atlases: Map<u32, TextureId>,
)
    requires
        atlases.contains_key(atlas.0),
    ensures
        draws_of(seq![RenderCommand::<Q, T, S>::DrawQuad(quad)], atlases) == seq![
            DrawCommand::<Q, T, S>::Quad(quad),
        ],
        draws_of(seq![RenderCommand::<Q, T, S>::DrawText { atlas, text }], atlases) == seq![
            DrawCommand::<Q, T, S>::Text { texture: atlases[atlas.0], text },
        ],
        draws_of(seq![RenderCommand::<Q, T, S>::DrawMonochromeSprite { atlas, sprite }], atlases)
            == seq![DrawCommand::<Q, T, S>::MonochromeSprite { texture: atlases[atlas.0], sprite }],
        draws_of(seq![RenderCommand::<Q, T, S>::Other], atlases).len() == 0,
        draws_of(Seq::<RenderCommand<Q, T, S>>::empty(), atlases).len() == 0,
{
    let a = seq![RenderCommand::<Q, T, S>::DrawQuad(quad)];
    let b = seq![RenderCommand::<Q, T, S>::DrawText { atlas, text }];
    let c = seq![RenderCommand::<Q, T, S>::DrawMonochromeSprite { atlas, sprite }];
    let d = seq![RenderCommand::<Q, T, S>::Other];
    reveal_with_fuel(draws_of, 2);
    assert(a.drop_last() =~= Seq::empty());
    assert(b.drop_last() =~= Seq::empty());
    assert(c.drop_last() =~= Seq::empty());
    assert(d.drop_last() =~= Seq::empty());
}

/// Commands are ready to be drawn exactly if every text and every sprite among them names an atlas
/// that was uploaded. `i` is the place of any command.
pub proof fn ready_means_every_atlas_is_there<Q, T, S>(
    commands: Seq<RenderCommand<Q, T, S>>,
    atlases: Map<u32, TextureId>,
    i: int,
)
    requires
        0 <= i < commands.len(),
    ensures
        atlases_ready(commands, atlases) ==> {
            &&& commands[i] matches RenderCommand::DrawText { atlas, text } ==> atlases.contains_key(
                atlas.0,
            )
            &&& commands[i] matches RenderCommand::DrawMonochromeSprite { atlas, sprite }
                ==> atlases.contains_key(atlas.0)
        },
        commands[i] matches RenderCommand::DrawText { atlas, text } ==> (!atlases.contains_key(
            atlas.0,
        ) ==> !atlases_ready(commands, atlases)),
        commands[i] matches RenderCommand::DrawMonochromeSprite { atlas, sprite } ==> (
        !atlases.contains_key(atlas.0) ==> !atlases_ready(commands, atlases)),
{
}

/// Nothing but a missing atlas keeps commands from being drawn: quads and other commands are always
/// ready, and a text or sprite is with its atlas there.
pub proof fn commands_need_nothing_else<Q, T, S>(
    commands: Seq<RenderCommand<Q, T, S>>,
    atlases: Map<u32, TextureId>,
)
    requires
        forall|i: int|
            0 <= i < commands.len() ==> match #[trigger] commands[i] {
                RenderCommand::DrawQuad(_) => true,
                RenderCommand::DrawText { atlas, text } => atlases.contains_key(atlas.0),
                RenderCommand::DrawMonochromeSprite { atlas, sprite } => atlases.contains_key(
                    atlas.0,
                ),
                RenderCommand::Other => true,
            },
    ensures
        atlases_ready(commands, atlases),
{
}

/// A frame is begun with the steps that activate its surface, then those of its scissor, and
/// nothing else before the clear.
pub proof fn opening_activates_then_restricts<Q, T, S>(
    fbo: u32,
    width: u32,
    height: u32,
    clear_color: ColorBits,
    scissor: Option<Rect>,
    i: int,
)
    ensures
        ({
            let opening = scene_opening::<Q, T, S>(fbo, width, height, clear_color, scissor);
            let a = activation_steps(fbo, width, height);
            let s = scissor_steps(scissor, width as int, height as int);
            &&& opening.len() == a.len() + s.len() + 3
            &&& 0 <= i < a.len() ==> opening[i] == SceneStep::<Q, T, S>::Gpu(a[i])
            &&& 0 <= i < s.len() ==> opening[a.len() + i] == SceneStep::<Q, T, S>::Gpu(s[i])
        }),
{
}

/// The draws are queued one by one in their order, and after them come the passes of a frame and
/// the wait, in that order and nothing else.
pub proof fn drawing_queues_then_paints_then_waits<Q, T, S>(
    draws: Seq<DrawCommand<Q, T, S>>,
    i: int,
)
    ensures
        ({
            let steps = send_steps(draws) + scene_closing::<Q, T, S>();
            let n = draws.len() as int;
            &&& steps.len() == n + 6
            &&& 0 <= i < n ==> steps[i] == SceneStep::<Q, T, S>::Send(draws[i])
            &&& steps[n] == SceneStep::<Q, T, S>::Gpu(GpuStep::MakeCurrent)
            &&& steps[n + 1] == SceneStep::<Q, T, S>::Gpu(GpuStep::Clear)
            &&& steps[n + 2] == SceneStep::<Q, T, S>::Gpu(GpuStep::Opaque)
            &&& steps[n + 3] == SceneStep::<Q, T, S>::Gpu(GpuStep::Translucent)
            &&& steps[n + 4] == SceneStep::<Q, T, S>::Gpu(GpuStep::MakeCurrent)
            &&& steps[n + 5] == SceneStep::<Q, T, S>::Gpu(
                GpuStep::Gl(crate::gl::GlCall::Finish),
            )
        }),
{
}

} // verus!
