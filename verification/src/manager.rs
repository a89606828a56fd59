//! The window manager: which windows exist, which surface and role belongs to which, and when
//! a window is due for a frame.
//!
//! The manager decides and remembers; the requests that its decisions amount to are handed out
//! as data, and what came of them is reported back.

use std::collections::hash_map::Entry;
use std::collections::HashMap;

use vstd::prelude::*;

use crate::atlas::{AtlasData, AtlasError};
use crate::renderer::{upload_outcome, Renderer, RendererView, TextureError, TextureUpload};
use crate::window::{
    ColorBits, ObjectId, PendingWindow, UiKind, Window, WindowHandle, WindowId, WindowKind,
    WindowSettings, WindowSpec, WindowStatus, ZwlrLayerShellV1Layer, ZwlrLayerSurfaceV1Anchor,
    ZwlrLayerSurfaceV1KeyboardInteractivity,
};

verus! {

broadcast use vstd::std_specs::hash::group_hash_axioms;

/// Which globals and seat devices have been bound.
#[derive(Debug, Clone, Copy, PartialEq, Eq, Structural)]
pub struct Globals {
    pub compositor: bool,
    pub layer_shell: bool,
    pub output: bool,
    pub xdg_wm_base: bool,
    pub dmabuf: bool,
    pub seat: bool,
    pub pointer: bool,
    pub keyboard: bool,
    pub touch: bool,
}

/// A global that the manager binds.
#[derive(Debug, Clone, Copy, PartialEq, Eq, Structural)]
pub enum Global {
    Compositor,
    LayerShell,
    Output,
    XdgWmBase,
    Dmabuf,
    Seat,
}

/// A request that gives a window its surface and role.
#[derive(Debug)]
pub enum SurfaceRequest {
    CreateSurface,
    GetLayerSurface { layer: ZwlrLayerShellV1Layer, namespace: String },
    SetSize { width: u32, height: u32 },
    SetAnchor(ZwlrLayerSurfaceV1Anchor),
    SetExclusiveZone(i32),
    SetKeyboardInteractivity(ZwlrLayerSurfaceV1KeyboardInteractivity),
    GetXdgSurface,
    GetToplevel,
    SetTitle(String),
    Commit,
}

/// What the surface requests of one window produced.
pub struct CreatedWindow<R> {
    pub surface: ObjectId,
    /// The object that carries the role: the layer surface or the xdg surface.
    pub role_object: ObjectId,
    pub role: R,
    pub status: WindowStatus,
}

/// A frame to render now.
#[derive(Debug, Clone, Copy, PartialEq, Eq, Structural)]
pub struct RenderRequest {
    pub window: WindowId,
    /// Repaint everything, whatever the damage.
    pub force_full: bool,
}

/// What to do with a surface's input region.
#[derive(Debug, Clone, Copy, PartialEq, Eq, Structural)]
pub enum InputRegion {
    Keep,
    /// The whole surface takes input.
    Whole,
    /// No part of the surface takes input.
    Empty,
}

/// A step of answering a configure event.
#[derive(Debug, Clone, Copy, PartialEq, Eq, Structural)]
pub enum ConfigureStep {
    Acknowledge { window: WindowId, serial: u32 },
    Resize { window: WindowId, width: u32, height: u32 },
    Render(RenderRequest),
}

/// A step of starting up.
#[derive(Debug, Clone, Copy, PartialEq, Eq, Structural)]
pub enum StartStep {
    CompilePipelines,
    GetRegistry,
    Sync,
}

/// A value to hand to a window's widget tree.
pub struct Assignment<U> {
    pub window: WindowId,
    pub value: U,
}

/// What a [`WindowManager`] remembers. `R` is the shell role of a window, `E` an event for the
/// application.
#[verifier::ext_equal]
pub struct ManagerView<R, E> {
    pub globals: Globals,
    pub renderer: RendererView,
    pub pending: Seq<PendingWindow>,
    pub windows: Map<u32, Window<R>>,
    pub events: Seq<E>,
    pub frame_callbacks: Map<u32, WindowId>,
    pub wl_surfaces: Map<u32, WindowId>,
    pub roles: Map<u32, WindowId>,
    pub pointer: Option<WindowId>,
    pub keyboard: Option<WindowId>,
    pub touches: Map<i32, WindowId>,
    pub next_window: u32,
}

/// Every identity in `m` is below `bound`.
pub open spec fn ids_below<K>(m: Map<K, WindowId>, bound: u32) -> bool {
    forall|k: K| #[trigger] m.contains_key(k) ==> m[k].0 < bound
}

/// Nothing is bound yet.
pub open spec fn no_globals() -> Globals {
    Globals {
        compositor: false,
        layer_shell: false,
        output: false,
        xdg_wm_base: false,
        dmabuf: false,
        seat: false,
        pointer: false,
        keyboard: false,
        touch: false,
    }
}

/// The requests that give a window of the given size and kind its surface and role.
pub open spec fn surface_requests(p: PendingWindow) -> Seq<SurfaceRequest> {
    match p.kind {
        WindowKind::LayerShell {
            layer,
            anchor,
            exclusive_zone,
            namespace,
            keyboard_interactivity,
        } => seq![
            SurfaceRequest::CreateSurface,
            SurfaceRequest::GetLayerSurface { layer, namespace },
            SurfaceRequest::SetSize { width: p.width, height: p.height },
            SurfaceRequest::SetAnchor(anchor),
            SurfaceRequest::SetExclusiveZone(exclusive_zone),
            SurfaceRequest::SetKeyboardInteractivity(keyboard_interactivity),
            SurfaceRequest::Commit,
        ],
        WindowKind::Xdg { title } => seq![
            SurfaceRequest::CreateSurface,
            SurfaceRequest::GetXdgSurface,
            SurfaceRequest::GetToplevel,
            SurfaceRequest::SetTitle(title),
            SurfaceRequest::Commit,
        ],
    }
}

/// What starting up takes, when the shader programs are or are not compiled already.
pub open spec fn start_steps(compiled: bool) -> Seq<StartStep> {
    if compiled {
        seq![StartStep::GetRegistry, StartStep::Sync]
    } else {
        seq![StartStep::CompilePipelines, StartStep::GetRegistry, StartStep::Sync]
    }
}

/// What a window is built from: what was asked for, with the configurations of its widget tree
/// where none was asked for.
pub open spec fn settled_spec<T, G>(
    settings: WindowSettings<T, G>,
    id: WindowId,
    ui_touch_config: Option<T>,
    ui_gesture_config: Option<G>,
) -> WindowSpec<T, G> {
    WindowSpec {
        id,
        width: settings.width,
        height: settings.height,
        clear_color: settings.clear_color,
        touch_config: if settings.touch_config is Some {
            settings.touch_config
        } else {
            ui_touch_config
        },
        gesture_config: if settings.gesture_config is Some {
            settings.gesture_config
        } else {
            ui_gesture_config
        },
        color_texture: settings.color_texture,
    }
}

/// The first global that a window of kind `kind` still lacks.
pub open spec fn global_lacking(globals: Globals, kind: WindowKind) -> Option<Global> {
    if !globals.compositor {
        Some(Global::Compositor)
    } else if kind is LayerShell && !globals.layer_shell {
        Some(Global::LayerShell)
    } else if kind is Xdg && !globals.xdg_wm_base {
        Some(Global::XdgWmBase)
    } else {
        None
    }
}

/// The first global that one of the pending windows lacks, in their order.
pub open spec fn first_lacking(globals: Globals, pending: Seq<PendingWindow>) -> Option<Global>
    decreases pending.len(),
{
    if pending.len() == 0 {
        None
    } else {
        match first_lacking(globals, pending.drop_last()) {
            Some(g) => Some(g),
            None => global_lacking(globals, pending.last().kind),
        }
    }
}

/// The surface requests of all pending windows, one window after the other.
pub open spec fn all_requests(pending: Seq<PendingWindow>) -> Seq<SurfaceRequest>
    decreases pending.len(),
{
    if pending.len() == 0 {
        Seq::empty()
    } else {
        all_requests(pending.drop_last()) + surface_requests(pending.last())
    }
}

impl<R, E> ManagerView<R, E> {
    /// The manager at start.
    pub open spec fn fresh(renderer: RendererView) -> ManagerView<R, E> {
        ManagerView {
            globals: no_globals(),
            renderer,
            pending: Seq::empty(),
            windows: Map::empty(),
            events: Seq::empty(),
            frame_callbacks: Map::empty(),
            wl_surfaces: Map::empty(),
            roles: Map::empty(),
            pointer: None,
            keyboard: None,
            touches: Map::empty(),
            next_window: 0,
        }
    }

    /// Identities are below the next one to hand out wherever they occur, and no two windows
    /// share one.
    pub open spec fn wf(self) -> bool {
        &&& self.renderer.wf()
        &&& forall|w: u32| #[trigger] self.windows.contains_key(w) ==> w < self.next_window
        &&& forall|i: int|
            0 <= i < self.pending.len() ==> (#[trigger] self.pending[i]).id.0 < self.next_window
                && !self.windows.contains_key(self.pending[i].id.0)
        &&& forall|i: int, j: int|
            0 <= i < j < self.pending.len() ==> (#[trigger] self.pending[i]).id.0 < (
            #[trigger] self.pending[j]).id.0
        &&& ids_below(self.frame_callbacks, self.next_window)
        &&& ids_below(self.wl_surfaces, self.next_window)
        &&& ids_below(self.roles, self.next_window)
        &&& ids_below(self.touches, self.next_window)
        &&& self.pointer matches Some(w) ==> w.0 < self.next_window
        &&& self.keyboard matches Some(w) ==> w.0 < self.next_window
    }

    /// The window exists and has a surface.
    pub open spec fn live(self, w: WindowId) -> bool {
        self.windows.contains_key(w.0)
    }

    /// The handle's window exists and has a surface, and its widget tree is of the handle's kind.
    pub open spec fn reached_by<T>(self, handle: WindowHandle<T>) -> bool {
        self.live(handle.target()) && self.windows[handle.target().0].ui == handle.kind()
    }

    /// What handing `value` to the window of `handle` amounts to.
    pub open spec fn assigned<T, U>(self, handle: WindowHandle<T>, value: U) -> Option<
        Assignment<U>,
    > {
        if self.reached_by(handle) {
            Some(Assignment { window: handle.target(), value })
        } else {
            None
        }
    }

    /// The frame to render for `w`, if the window exists.
    pub open spec fn frame_of(self, w: WindowId, force_full: bool) -> Option<RenderRequest> {
        if self.live(w) {
            Some(RenderRequest { window: w, force_full })
        } else {
            None
        }
    }

    /// A frame callback of the window has not come back yet.
    pub open spec fn frame_in_flight(self, w: WindowId) -> bool {
        exists|c: u32|
            #[trigger] self.frame_callbacks.contains_key(c) && self.frame_callbacks[c] == w
    }

    /// The window asked for a repaint, has a buffer to draw into, and no frame under way.
    pub open spec fn due(self, w: WindowId) -> bool {
        &&& self.live(w)
        &&& self.windows[w.0].status.needs_render
        &&& self.windows[w.0].status.back_released
        &&& !self.frame_in_flight(w)
    }

    /// `requests` are frames of exactly the due windows, each once, none of them forced.
    pub open spec fn kicks(self, requests: Seq<RenderRequest>) -> bool {
        &&& requests.no_duplicates()
        &&& forall|q: RenderRequest| #[trigger]
            requests.contains(q) <==> !q.force_full && self.due(q.window)
    }

    /// The steps that answer a configure event of `w`.
    pub open spec fn configure_steps(
        self,
        w: WindowId,
        serial: u32,
        width: u32,
        height: u32,
    ) -> Seq<ConfigureStep> {
        if self.live(w) {
            seq![
                ConfigureStep::Acknowledge { window: w, serial },
                ConfigureStep::Resize { window: w, width, height },
                ConfigureStep::Render(RenderRequest { window: w, force_full: true }),
            ]
        } else {
            Seq::empty()
        }
    }

    /// The windows with the repaint wish of every due window granted.
    pub open spec fn rearmed(self) -> ManagerView<R, E> {
        ManagerView {
            windows: Map::new(
                |w: u32| self.windows.contains_key(w),
                |w: u32|
                    if self.due(WindowId(w)) {
                        Window {
                            status: WindowStatus {
                                needs_render: false,
                                ..self.windows[w].status
                            },
                            ..self.windows[w]
                        }
                    } else {
                        self.windows[w]
                    },
            ),
            ..self
        }
    }

    /// One more window, waiting for its surface.
    pub open spec fn with_pending(
        self,
        width: u32,
        height: u32,
        kind: WindowKind,
        ui: UiKind,
    ) -> ManagerView<R, E> {
        ManagerView {
            pending: self.pending.push(
                PendingWindow { id: WindowId(self.next_window), width, height, kind, ui },
            ),
            next_window: (self.next_window + 1) as u32,
            ..self
        }
    }

    /// One more window, with its surface and role at hand.
    pub open spec fn with_window(self, window: Window<R>) -> ManagerView<R, E> {
        ManagerView {
            windows: self.windows.insert(self.next_window, window),
            wl_surfaces: self.wl_surfaces.insert(window.surface, WindowId(self.next_window)),
            next_window: (self.next_window + 1) as u32,
            ..self
        }
    }

    /// The manager without window `w`. What refers to its identity stays and leads nowhere.
    pub open spec fn without(self, w: WindowId) -> ManagerView<R, E> {
        ManagerView { windows: self.windows.remove(w.0), ..self }
    }

    /// The first `n` pending windows have the surfaces and roles that `created` tells of.
    pub open spec fn adopted(self, created: Seq<CreatedWindow<R>>, n: int) -> ManagerView<R, E>
        decreases n,
    {
        if n <= 0 {
            self
        } else {
            let before = self.adopted(created, n - 1);
            let id = self.pending[n - 1].id;
            let ui = self.pending[n - 1].ui;
            let c = created[n - 1];
            ManagerView {
                windows: before.windows.insert(
                    id.0,
                    Window { surface: c.surface, role: c.role, ui, status: c.status },
                ),
                wl_surfaces: before.wl_surfaces.insert(c.surface, id),
                roles: before.roles.insert(c.role_object, id),
                ..before
            }
        }
    }

    /// Every pending window has become a window with a surface.
    pub open spec fn flushed(self, created: Seq<CreatedWindow<R>>) -> ManagerView<R, E> {
        ManagerView {
            pending: Seq::empty(),
            ..self.adopted(created, self.pending.len() as int)
        }
    }

    /// What a rendered frame of a live window changes: its wish for input, whether its surface
    /// takes input, and the callback that announces the next frame.
    pub open spec fn rendered(
        self,
        w: WindowId,
        wants_input: bool,
        callback: Option<ObjectId>,
    ) -> ManagerView<R, E> {
        ManagerView {
            windows: self.windows.insert(
                w.0,
                Window {
                    status: WindowStatus {
                        wants_input,
                        input_enabled: wants_input,
                        ..self.windows[w.0].status
                    },
                    ..self.windows[w.0]
                },
            ),
            frame_callbacks: match callback {
                Some(c) => self.frame_callbacks.insert(c, w),
                None => self.frame_callbacks,
            },
            ..self
        }
    }

    /// The request that a change of the input wish amounts to. Without a compositor there is no
    /// region to set.
    pub open spec fn region_change(self, w: WindowId, wants_input: bool) -> InputRegion {
        if self.windows[w.0].status.input_enabled == wants_input {
            InputRegion::Keep
        } else if wants_input {
            InputRegion::Whole
        } else if self.globals.compositor {
            InputRegion::Empty
        } else {
            InputRegion::Keep
        }
    }
}

proof fn lacking_is_stable(globals: Globals, pending: Seq<PendingWindow>, n: int)
    requires
        0 <= n <= pending.len(),
        first_lacking(globals, pending.take(n)) is Some,
    ensures
        first_lacking(globals, pending) == first_lacking(globals, pending.take(n)),
    decreases pending.len() - n,
{
    if n == pending.len() {
        assert(pending.take(n) =~= pending);
    } else {
        assert(pending.take(n + 1).drop_last() =~= pending.take(n));
        lacking_is_stable(globals, pending, n + 1);
    }
}

proof fn adopting_keeps_bounds<R, E>(
    start: ManagerView<R, E>,
    created: Seq<CreatedWindow<R>>,
    n: int,
)
    requires
        start.wf(),
        0 <= n <= start.pending.len(),
        created.len() == start.pending.len(),
    ensures
        ({
            let v = start.adopted(created, n);
            &&& v == (ManagerView {
                windows: v.windows,
                wl_surfaces: v.wl_surfaces,
                roles: v.roles,
                ..start
            })
            &&& forall|w: u32| #[trigger] v.windows.contains_key(w) ==> w < start.next_window
            &&& ids_below(v.wl_surfaces, start.next_window)
            &&& ids_below(v.roles, start.next_window)
        }),
    decreases n,
{
    if n > 0 {
        adopting_keeps_bounds(start, created, n - 1);
        assert(start.pending[n - 1].id.0 < start.next_window);
    }
}

/// Registering the pending windows keeps the manager well formed.
pub proof fn flushing_keeps_wf<R, E>(start: ManagerView<R, E>, created: Seq<CreatedWindow<R>>)
    requires
        start.wf(),
        created.len() == start.pending.len(),
    ensures
        start.flushed(created).wf(),
{
    adopting_keeps_bounds(start, created, start.pending.len() as int);
}

proof fn push_contains<A>(s: Seq<A>, a: A, x: A)
    ensures
        s.push(a).contains(x) <==> s.contains(x) || x == a,
{
    assert(s.push(a)[s.len() as int] == a);
    if s.contains(x) {
        let i = choose|i: int| 0 <= i < s.len() && s[i] == x;
        assert(s.push(a)[i] == x);
    }
    if s.push(a).contains(x) {
        let i = choose|i: int| 0 <= i < s.push(a).len() && s.push(a)[i] == x;
        if i < s.len() {
            assert(s[i] == x);
        }
    }
}

/// The keys of `m`, each once, in no particular order.
pub(crate) fn keys_of<V>(m: &HashMap<u32, V>) -> (keys: Vec<u32>)
    ensures
        keys@.no_duplicates(),
        keys@.to_set() == m@.dom(),
{
    let mut keys: Vec<u32> = Vec::new();
    for k in it: m.keys()
        invariant
            it.seq().unref().to_set() == m@.dom(),
            it.seq().no_duplicates(),
            keys@ == it.seq().unref().take(it.index() as int),
            it.index() == it.seq().len() ==> keys@ == it.seq().unref(),
            it.index() == it.seq().len() ==> keys@.to_set() == m@.dom(),
    {
        let ghost n = it.index() as int;
        keys.push(*k);
        assert(keys@ =~= it.seq().unref().take(n + 1));
        assert(n + 1 == it.seq().len() ==> keys@ =~= it.seq().unref());
    }
    keys
}

pub struct WindowManager<R, E> {
    pub(crate) globals: Globals,
    pub(crate) renderer: Renderer,
    pub(crate) pending: Vec<PendingWindow>,
    pub(crate) windows: HashMap<u32, Window<R>>,
    /// Events that widgets have produced and the application has not taken yet.
    pub event_buffer: Vec<E>,
    pub(crate) frame_callbacks: HashMap<u32, WindowId>,
    pub(crate) wl_surfaces: HashMap<u32, WindowId>,
    pub(crate) surfaces_with_roles: HashMap<u32, WindowId>,
    pub(crate) current_pointer_window: Option<WindowId>,
    pub(crate) current_keyboard_window: Option<WindowId>,
    pub(crate) touch_window_map: HashMap<i32, WindowId>,
    pub(crate) next_window_id: u32,
}

impl<R, E> View for WindowManager<R, E> {
    type V = ManagerView<R, E>;

    open(crate) spec fn view(&self) -> ManagerView<R, E> {
        ManagerView {
            globals: self.globals,
            renderer: self.renderer@,
            pending: self.pending@,
            windows: self.windows@,
            events: self.event_buffer@,
            frame_callbacks: self.frame_callbacks@,
            wl_surfaces: self.wl_surfaces@,
            roles: self.surfaces_with_roles@,
            pointer: self.current_pointer_window,
            keyboard: self.current_keyboard_window,
            touches: self.touch_window_map@,
            next_window: self.next_window_id,
        }
    }
}

impl<R, E> WindowManager<R, E> {
    /// A manager over `renderer`, with no windows and nothing bound.
    pub fn new(renderer: Renderer) -> (wm: WindowManager<R, E>)
        requires
            renderer@.wf(),
        ensures
            wm@ == ManagerView::<R, E>::fresh(renderer@),
            wm@.wf(),
    {
        WindowManager {
            globals: Globals {
                compositor: false,
                layer_shell: false,
                output: false,
                xdg_wm_base: false,
                dmabuf: false,
                seat: false,
                pointer: false,
                keyboard: false,
                touch: false,
            },
            renderer,
            pending: Vec::new(),
            windows: HashMap::new(),
            event_buffer: Vec::new(),
            frame_callbacks: HashMap::new(),
            wl_surfaces: HashMap::new(),
            surfaces_with_roles: HashMap::new(),
            current_pointer_window: None,
            current_keyboard_window: None,
            touch_window_map: HashMap::new(),
            next_window_id: 0,
        }
    }
}

impl<R, E> WindowManager<R, E> {
    fn frame_in_flight(&self, id: WindowId) -> (in_flight: bool)
        ensures
            in_flight == self@.frame_in_flight(id),
    {
        for w in it: self.frame_callbacks.values()
            invariant
                forall|i: int| 0 <= i < it.index() ==> *(#[trigger] it.seq()[i]) != id,
                it.seq().unref().to_set() == self.frame_callbacks@.values(),
        {
            if *w == id {
                proof {
                    let i = it.index() as int;
                    assert(it.seq().unref()[i] == id);
                    assert(self.frame_callbacks@.values().contains(id));
                    let c = choose|c: u32| #[trigger]
                        self.frame_callbacks@.contains_key(c) && self.frame_callbacks@[c] == id;
                    assert(self@.frame_callbacks.contains_key(c));
                }
                return true;
            }
        }
        proof {
            if self@.frame_in_flight(id) {
                assert(self.frame_callbacks@.values().contains(id));
            }
        }
        false
    }

    /// The windows that are due for a frame, each once.
    fn due_windows(&self) -> (ids: Vec<WindowId>)
        ensures
            ids@.no_duplicates(),
            forall|w: WindowId| #[trigger] ids@.contains(w) <==> self@.due(w),
    {
        let keys = keys_of(&self.windows);
        let mut ids: Vec<WindowId> = Vec::new();
        let mut i: usize = 0;
        while i < keys.len()
            invariant
                0 <= i <= keys@.len(),
                keys@.no_duplicates(),
                keys@.to_set() == self.windows@.dom(),
                ids@.no_duplicates(),
                forall|w: WindowId| #[trigger]
                    ids@.contains(w) <==> self@.due(w) && keys@.take(i as int).contains(w.0),
            decreases keys@.len() - i,
        {
            let ghost before = ids@;
            let id = WindowId(keys[i]);
            assert(keys@.to_set().contains(id.0));
            let status: WindowStatus = self.windows.get(&keys[i]).unwrap().status;
            let due: bool = status.needs_render && status.back_released && !self.frame_in_flight(
                id,
            );
            assert(due == self@.due(id));
            if due {
                assert(!keys@.take(i as int).contains(id.0));
                assert(!ids@.contains(id));
                ids.push(id);
            }
            i = i + 1;
            assert(keys@.take(i as int) =~= keys@.take(i - 1).push(id.0));
            assert forall|w: WindowId| #[trigger] ids@.contains(w) <==> self@.due(w) && keys@.take(
                i as int,
            ).contains(w.0) by {
                push_contains(keys@.take(i - 1), id.0, w.0);
                if due {
                    push_contains(before, id, w);
                }
            }
        }
        assert(keys@.take(i as int) =~= keys@);
        assert forall|w: WindowId| #[trigger] ids@.contains(w) <==> self@.due(w) by {
            assert(keys@.contains(w.0) <==> keys@.to_set().contains(w.0));
        }
        ids
    }

    /// Pick the windows that are due for a frame and grant their wish: they no longer ask for
    /// one. The order is not fixed.
    pub fn rearm_frames(&mut self) -> (kicked: Vec<WindowId>)
        requires
            old(self)@.wf(),
        ensures
            kicked@.no_duplicates(),
            forall|w: WindowId| #[trigger] kicked@.contains(w) <==> old(self)@.due(w),
            forall|w: WindowId| #[trigger]
                kicked@.contains(w) <==> old(self)@.windows.contains_key(w.0)
                    && old(self)@.windows[w.0].status.needs_render
                    && old(self)@.windows[w.0].status.back_released && (forall|c: u32| #[trigger]
                    old(self)@.frame_callbacks.contains_key(c)
                        ==> old(self)@.frame_callbacks[c] != w),
            final(self)@ == old(self)@.rearmed(),
            final(self)@.wf(),
    {
        let kicked = self.due_windows();
        let mut i: usize = 0;
        while i < kicked.len()
            invariant
                0 <= i <= kicked@.len(),
                kicked@.no_duplicates(),
                forall|w: WindowId| #[trigger] kicked@.contains(w) <==> old(self)@.due(w),
                self@ == (ManagerView { windows: self@.windows, ..old(self)@ }),
                self@.windows.dom() == old(self)@.windows.dom(),
                forall|w: u32| #[trigger]
                    self@.windows.contains_key(w) ==> self@.windows[w] == (if kicked@.take(
                        i as int,
                    ).contains(WindowId(w)) {
                        old(self)@.rearmed().windows[w]
                    } else {
                        old(self)@.windows[w]
                    }),
            decreases kicked@.len() - i,
        {
            let id = kicked[i];
            assert(kicked@.contains(id));
            assert(!kicked@.take(i as int).contains(id));
            assert(self@.windows.contains_key(id.0));
            let ghost before = self@.windows;
            let mut window = self.windows.remove(&id.0).unwrap();
            window.status.needs_render = false;
            self.windows.insert(id.0, window);
            i = i + 1;
            proof {
                assert(kicked@.take(i as int) =~= kicked@.take(i - 1).push(id));
                assert(self@.windows =~= before.insert(id.0, window));
                assert forall|w: u32| #[trigger] self@.windows.contains_key(w) implies
                    self@.windows[w] == (if kicked@.take(i as int).contains(WindowId(w)) {
                    old(self)@.rearmed().windows[w]
                } else {
                    old(self)@.windows[w]
                }) by {
                    push_contains(kicked@.take(i - 1), id, WindowId(w));
                }
            }
        }
        proof {
            assert(kicked@.take(i as int) =~= kicked@);
            assert forall|w: u32| #[trigger] self@.windows.contains_key(w) implies self@.windows[w]
                == old(self)@.rearmed().windows[w] by {
                assert(kicked@.contains(WindowId(w)) <==> old(self)@.due(WindowId(w)));
            }
            assert(self@.windows =~= old(self)@.rearmed().windows);
            assert(self@ =~= old(self)@.rearmed());
        }
        kicked
    }

    /// Take the next identity for a window that is to get a surface of the given kind, and say
    /// what to build the window from. A configuration in the settings goes before the one that
    /// the widget tree brings.
    pub fn spawn_window<W, T, G>(
        &mut self,
        settings: WindowSettings<T, G>,
        ui: UiKind,
        ui_touch_config: Option<T>,
        ui_gesture_config: Option<G>,
    ) -> (r: (WindowHandle<W>, WindowSpec<T, G>))
        requires
            old(self)@.wf(),
            old(self)@.next_window < u32::MAX,
        ensures
            final(self)@ == old(self)@.with_pending(
                settings.width,
                settings.height,
                settings.kind,
                ui,
            ),
            final(self)@.wf(),
            !old(self)@.live(r.0.target()),
            r.0.target() == WindowId(old(self)@.next_window),
            r.0.kind() == ui,
            r.1 == settled_spec(
                settings,
                WindowId(old(self)@.next_window),
                ui_touch_config,
                ui_gesture_config,
            ),
    {
        let touch_config = match settings.touch_config {
            Some(c) => Some(c),
            None => ui_touch_config,
        };
        let gesture_config = match settings.gesture_config {
            Some(c) => Some(c),
            None => ui_gesture_config,
        };
        let id = WindowId(self.next_window_id);
        self.next_window_id = self.next_window_id + 1;
        let spec = WindowSpec {
            id,
            width: settings.width,
            height: settings.height,
            clear_color: settings.clear_color,
            touch_config,
            gesture_config,
            color_texture: settings.color_texture,
        };
        self.pending.push(
            PendingWindow {
                id,
                width: settings.width,
                height: settings.height,
                kind: settings.kind,
                ui,
            },
        );
        (WindowHandle::refer_to(id, ui), spec)
    }

    /// Take the next identity for a window whose surface and role exist already, register it,
    /// and say what to build it from. `status` is what a window reports that was just built.
    pub fn spawn_window_with<W, T, G>(
        &mut self,
        width: u32,
        height: u32,
        clear_color: ColorBits,
        ui: UiKind,
        ui_touch_config: Option<T>,
        ui_gesture_config: Option<G>,
        surface: ObjectId,
        role: R,
        status: WindowStatus,
    ) -> (r: (WindowHandle<W>, WindowSpec<T, G>))
        requires
            old(self)@.wf(),
            old(self)@.next_window < u32::MAX,
        ensures
            final(self)@ == old(self)@.with_window(Window { surface, role, ui, status }),
            final(self)@.wf(),
            !old(self)@.live(r.0.target()),
            r.0.target() == WindowId(old(self)@.next_window),
            r.0.kind() == ui,
            r.1 == (WindowSpec {
                id: WindowId(old(self)@.next_window),
                width,
                height,
                clear_color,
                touch_config: ui_touch_config,
                gesture_config: ui_gesture_config,
                color_texture: false,
            }),
    {
        let id = WindowId(self.next_window_id);
        self.next_window_id = self.next_window_id + 1;
        self.wl_surfaces.insert(surface, id);
        self.windows.insert(id.0, Window { surface, role, ui, status });
        let spec = WindowSpec {
            id,
            width,
            height,
            clear_color,
            touch_config: ui_touch_config,
            gesture_config: ui_gesture_config,
            color_texture: false,
        };
        assert(self@ =~= old(self)@.with_window(Window { surface, role, ui, status }));
        (WindowHandle::refer_to(id, ui), spec)
    }

    /// The first global that a pending window needs and that is not bound.
    pub fn missing_global(&self) -> (missing: Option<Global>)
        ensures
            missing == first_lacking(self@.globals, self@.pending),
    {
        let mut i: usize = 0;
        while i < self.pending.len()
            invariant
                0 <= i <= self@.pending.len(),
                first_lacking(self@.globals, self@.pending.take(i as int)) is None,
            decreases self@.pending.len() - i,
        {
            proof {
                assert(self@.pending.take(i + 1).drop_last() =~= self@.pending.take(i as int));
            }
            let lacking: Option<Global> = if !self.globals.compositor {
                Some(Global::Compositor)
            } else {
                match self.pending[i].kind {
                    WindowKind::LayerShell { .. } => if self.globals.layer_shell {
                        None
                    } else {
                        Some(Global::LayerShell)
                    },
                    WindowKind::Xdg { .. } => if self.globals.xdg_wm_base {
                        None
                    } else {
                        Some(Global::XdgWmBase)
                    },
                }
            };
            if lacking.is_some() {
                proof {
                    lacking_is_stable(self@.globals, self@.pending, i + 1);
                }
                return lacking;
            }
            i = i + 1;
        }
        assert(self@.pending.take(i as int) =~= self@.pending);
        None
    }

    /// The requests that give every pending window its surface and role.
    pub fn pending_requests(&self) -> (requests: Vec<SurfaceRequest>)
        requires
            first_lacking(self@.globals, self@.pending) is None,
        ensures
            requests@ == all_requests(self@.pending),
    {
        let mut requests: Vec<SurfaceRequest> = Vec::new();
        let mut i: usize = 0;
        while i < self.pending.len()
            invariant
                0 <= i <= self@.pending.len(),
                requests@ == all_requests(self@.pending.take(i as int)),
            decreases self@.pending.len() - i,
        {
            let ghost before = requests@;
            proof {
                assert(self@.pending.take(i + 1).drop_last() =~= self@.pending.take(i as int));
            }
            let p: &PendingWindow = &self.pending[i];
            requests.push(SurfaceRequest::CreateSurface);
            match &p.kind {
                WindowKind::LayerShell {
                    layer,
                    anchor,
                    exclusive_zone,
                    namespace,
                    keyboard_interactivity,
                } => {
                    requests.push(
                        SurfaceRequest::GetLayerSurface {
                            layer: *layer,
                            namespace: namespace.clone(),
                        },
                    );
                    requests.push(SurfaceRequest::SetSize { width: p.width, height: p.height });
                    requests.push(SurfaceRequest::SetAnchor(*anchor));
                    requests.push(SurfaceRequest::SetExclusiveZone(*exclusive_zone));
                    requests.push(
                        SurfaceRequest::SetKeyboardInteractivity(*keyboard_interactivity),
                    );
                },
                WindowKind::Xdg { title } => {
                    requests.push(SurfaceRequest::GetXdgSurface);
                    requests.push(SurfaceRequest::GetToplevel);
                    requests.push(SurfaceRequest::SetTitle(title.clone()));
                },
            }
            requests.push(SurfaceRequest::Commit);
            assert(requests@ =~= before + surface_requests(*p));
            i = i + 1;
        }
        assert(self@.pending.take(i as int) =~= self@.pending);
        requests
    }

    /// Register every pending window with the surface and role that its requests produced;
    /// `created` tells of them in the order of the pending windows.
    pub fn flush_pending(&mut self, created: Vec<CreatedWindow<R>>)
        requires
            old(self)@.wf(),
            first_lacking(old(self)@.globals, old(self)@.pending) is None,
            created@.len() == old(self)@.pending.len(),
        ensures
            final(self)@ == old(self)@.flushed(created@),
            final(self)@.wf(),
    {
        let ghost start = self@;
        let ghost all = created@;
        let count: usize = self.pending.len();
        let mut i: usize = 0;
        for c in it: created
            invariant
                count == all.len(),
                it.seq() == all,
                i == it.index(),
                all.len() == start.pending.len(),
                self@.pending == start.pending,
                self@ == start.adopted(all, i as int),
            ensures
                self@ == start.adopted(all, all.len() as int),
                self@.pending == start.pending,
        {
            assert(c == all[i as int]);
            let id = self.pending[i].id;
            let ui = self.pending[i].ui;
            self.surfaces_with_roles.insert(c.role_object, id);
            self.wl_surfaces.insert(c.surface, id);
            self.windows.insert(
                id.0,
                Window { surface: c.surface, role: c.role, ui, status: c.status },
            );
            i = i + 1;
            assert(self@ =~= start.adopted(all, i as int));
        }
        self.pending = Vec::new();
        assert(self@ =~= start.flushed(all));
        proof {
            flushing_keeps_wf(start, all);
        }
    }

    /// What starting up takes: the shader programs, once, then the registry and a round trip.
    pub fn start(&mut self) -> (steps: Vec<StartStep>)
        requires
            old(self)@.wf(),
        ensures
            steps@ == start_steps(old(self)@.renderer.pipelines),
            final(self)@ == (ManagerView {
                renderer: old(self)@.renderer.with_pipelines(),
                ..old(self)@
            }),
            final(self)@.wf(),
    {
        let mut steps: Vec<StartStep> = Vec::new();
        if self.renderer.init_pipelines() {
            steps.push(StartStep::CompilePipelines);
        }
        steps.push(StartStep::GetRegistry);
        steps.push(StartStep::Sync);
        steps
    }

    /// Before waiting for events: the windows to render, damage-driven, before the connection is
    /// flushed.
    pub fn pre_poll(&mut self) -> (requests: Vec<RenderRequest>)
        requires
            old(self)@.wf(),
        ensures
            old(self)@.kicks(requests@),
            forall|w: WindowId|
                old(self)@.windows.contains_key(w.0)
                    && old(self)@.windows[w.0].status.needs_render
                    && old(self)@.windows[w.0].status.back_released && (forall|c: u32| #[trigger]
                    old(self)@.frame_callbacks.contains_key(c)
                        ==> old(self)@.frame_callbacks[c] != w) ==> #[trigger] requests@.contains(
                    RenderRequest { window: w, force_full: false },
                ),
            final(self)@ == old(self)@.rearmed(),
            final(self)@.wf(),
    {
        let kicked = self.rearm_frames();
        let mut requests: Vec<RenderRequest> = Vec::new();
        let mut i: usize = 0;
        while i < kicked.len()
            invariant
                0 <= i <= kicked@.len(),
                requests@ == kicked@.take(i as int).map_values(
                    |w: WindowId| RenderRequest { window: w, force_full: false },
                ),
            decreases kicked@.len() - i,
        {
            requests.push(RenderRequest { window: kicked[i], force_full: false });
            i = i + 1;
            assert(kicked@.take(i as int) =~= kicked@.take(i - 1).push(kicked@[i - 1]));
        }
        proof {
            assert(kicked@.take(i as int) =~= kicked@);
            assert forall|q: RenderRequest| #[trigger] requests@.contains(q) <==> !q.force_full
                && kicked@.contains(q.window) by {
                if requests@.contains(q) {
                    let j = choose|j: int| 0 <= j < requests@.len() && requests@[j] == q;
                    assert(kicked@[j] == q.window);
                }
                if !q.force_full && kicked@.contains(q.window) {
                    let j = choose|j: int| 0 <= j < kicked@.len() && kicked@[j] == q.window;
                    assert(requests@[j] == q);
                }
            }
        }
        requests
    }

    /// Nothing is left to do after polling.
    pub fn poll(&mut self)
        ensures
            final(self)@ == old(self)@,
    {
    }

    /// Decode an atlas and register it with the renderer.
    pub fn upload_atlas(&mut self, atlas: AtlasData, handle: Result<u32, TextureError>) -> (r:
        Result<TextureUpload, AtlasError>)
        requires
            old(self)@.wf(),
            old(self)@.renderer.next_texture < u32::MAX,
        ensures
            upload_outcome(
                old(self)@.renderer,
                atlas.id,
                atlas.png_bytes@,
                handle,
                r,
                final(self)@.renderer,
            ),
            final(self)@ == (ManagerView { renderer: final(self)@.renderer, ..old(self)@ }),
            final(self)@.wf(),
    {
        self.renderer.upload_atlas(atlas, handle)
    }

    /// The request for a surface that no window has yet.
    pub fn create_surface(&self) -> (request: SurfaceRequest)
        requires
            self@.globals.compositor,
        ensures
            request is CreateSurface,
    {
        SurfaceRequest::CreateSurface
    }

    /// The frame to render for `id`, if the window exists.
    pub fn do_render_frame(&self, id: WindowId, force_full: bool) -> (request: Option<
        RenderRequest,
    >)
        ensures
            request == self@.frame_of(id, force_full),
    {
        if self.windows.contains_key(&id.0) {
            Some(RenderRequest { window: id, force_full })
        } else {
            None
        }
    }

    /// A frame of `id` was rendered: note whether the window wants input, and the callback that
    /// will announce the next frame. The answer is what to do with the surface's input region.
    pub fn frame_rendered(
        &mut self,
        id: WindowId,
        wants_input: bool,
        callback: Option<ObjectId>,
    ) -> (region: InputRegion)
        requires
            old(self)@.wf(),
        ensures
            old(self)@.live(id) ==> {
                &&& final(self)@ == old(self)@.rendered(id, wants_input, callback)
                &&& region == old(self)@.region_change(id, wants_input)
            },
            !old(self)@.live(id) ==> final(self)@ == old(self)@ && region is Keep,
            final(self)@.wf(),
    {
        let mut window = match self.windows.remove(&id.0) {
            Some(w) => w,
            None => {
                assert(self@.windows =~= old(self)@.windows);
                assert(self@ =~= old(self)@);
                return InputRegion::Keep;
            },
        };
        let mut region = InputRegion::Keep;
        window.status.wants_input = wants_input;
        if wants_input != window.status.input_enabled {
            window.status.input_enabled = wants_input;
            if wants_input {
                region = InputRegion::Whole;
            } else if self.globals.compositor {
                region = InputRegion::Empty;
            }
        }
        self.windows.insert(id.0, window);
        if let Some(c) = callback {
            self.frame_callbacks.insert(c, id);
        }
        assert(self@.windows =~= old(self)@.rendered(id, wants_input, callback).windows);
        assert(self@ =~= old(self)@.rendered(id, wants_input, callback));
        region
    }

    /// The answer to a configure event: acknowledge it, give the window buffers of the new size,
    /// and repaint all of it, for nothing has been laid out at that size yet.
    pub fn configure(&self, id: WindowId, serial: u32, w: u32, h: u32) -> (steps: Vec<
        ConfigureStep,
    >)
        requires
            self@.globals.dmabuf,
        ensures
            steps@ == self@.configure_steps(id, serial, w, h),
    {
        let mut steps: Vec<ConfigureStep> = Vec::new();
        if self.windows.contains_key(&id.0) {
            steps.push(ConfigureStep::Acknowledge { window: id, serial });
            steps.push(ConfigureStep::Resize { window: id, width: w, height: h });
        }
        if let Some(request) = self.do_render_frame(id, true) {
            steps.push(ConfigureStep::Render(request));
        }
        steps
    }

    /// Note what a window reports of itself. Nothing happens if it does not exist.
    pub fn update_window(&mut self, id: WindowId, status: WindowStatus)
        requires
            old(self)@.wf(),
        ensures
            old(self)@.live(id) ==> final(self)@ == (ManagerView {
                windows: old(self)@.windows.insert(
                    id.0,
                    Window { status, ..old(self)@.windows[id.0] },
                ),
                ..old(self)@
            }),
            !old(self)@.live(id) ==> final(self)@ == old(self)@,
            final(self)@.wf(),
    {
        match self.windows.remove(&id.0) {
            Some(window) => {
                let updated = Window {
                    surface: window.surface,
                    role: window.role,
                    ui: window.ui,
                    status,
                };
                self.windows.insert(id.0, updated);
                assert(self@.windows =~= old(self)@.windows.insert(id.0, updated));
            },
            None => {
                assert(self@.windows =~= old(self)@.windows);
                assert(self@ =~= old(self)@);
            },
        }
    }

    /// Whether a frame callback is to be requested for `id`: only a configured window has
    /// frames.
    pub fn request_frame(&self, id: WindowId) -> (ask: bool)
        requires
            self@.live(id),
        ensures
            ask == self@.windows[id.0].status.configured,
    {
        self.windows.get(&id.0).unwrap().status.configured
    }

    /// Note the callback that a requested frame of `id` will announce itself with.
    pub fn frame_requested(&mut self, id: WindowId, callback: ObjectId)
        requires
            old(self)@.wf(),
            old(self)@.live(id),
        ensures
            final(self)@ == (ManagerView {
                frame_callbacks: old(self)@.frame_callbacks.insert(callback, id),
                ..old(self)@
            }),
            final(self)@.wf(),
    {
        self.frame_callbacks.insert(callback, id);
    }

    /// Forget a window and hand it out, for its role and buffers to be released. What refers to
    /// its identity stays and leads nowhere.
    pub fn destroy(&mut self, id: WindowId) -> (window: Option<Window<R>>)
        requires
            old(self)@.wf(),
        ensures
            final(self)@ == old(self)@.without(id),
            window == (if old(self)@.live(id) {
                Some(old(self)@.windows[id.0])
            } else {
                None
            }),
            final(self)@.wf(),
    {
        let window = self.windows.remove(&id.0);
        assert(self@.windows =~= old(self)@.windows.remove(id.0));
        window
    }

    /// The shell role of a window, to be changed in place.
    pub fn surface_mut(&mut self, id: WindowId) -> (role: Option<&mut R>)
        requires
            old(self)@.wf(),
        ensures
            match role {
                Some(r) => {
                    &&& old(self)@.live(id)
                    &&& *r == old(self)@.windows[id.0].role
                    &&& final(self)@ == (ManagerView {
                        windows: old(self)@.windows.insert(
                            id.0,
                            Window { role: *final(r), ..old(self)@.windows[id.0] },
                        ),
                        ..old(self)@
                    })
                },
                None => !old(self)@.live(id) && final(self)@ == old(self)@,
            },
    {
        match self.windows.entry(id.0) {
            Entry::Occupied(entry) => {
                let window = entry.into_mut();
                Some(&mut window.role)
            },
            Entry::Vacant(_) => None,
        }
    }

    /// The surface of a window.
    pub fn surface_of(&self, id: WindowId) -> (surface: Option<ObjectId>)
        ensures
            surface == (if self@.live(id) {
                Some(self@.windows[id.0].surface)
            } else {
                None
            }),
    {
        match self.windows.get(&id.0) {
            Some(w) => Some(w.surface),
            None => None,
        }
    }

    /// The renderer, for a window to draw with.
    pub fn renderer_mut(&mut self) -> (r: &mut Renderer)
        ensures
            r@ == old(self)@.renderer,
            final(self)@ == (ManagerView { renderer: final(r)@, ..old(self)@ }),
    {
        &mut self.renderer
    }

    /// The window that the pointer is over, from the last time it entered or left one.
    pub fn current_pointer_window(&self) -> (id: Option<WindowId>)
        ensures
            id == self@.pointer,
    {
        self.current_pointer_window
    }

    /// The window whose role the object `object_id` carries.
    pub fn window_for_role(&self, object_id: ObjectId) -> (id: Option<WindowId>)
        ensures
            id == (if self@.roles.contains_key(object_id) {
                Some(self@.roles[object_id])
            } else {
                None
            }),
    {
        match self.surfaces_with_roles.get(&object_id) {
            Some(id) => Some(*id),
            None => None,
        }
    }

    /// The size of a window.
    pub fn window_dimensions(&self, id: WindowId) -> (size: Option<(u32, u32)>)
        ensures
            size == (if self@.live(id) {
                Some((self@.windows[id.0].status.width, self@.windows[id.0].status.height))
            } else {
                None
            }),
    {
        match self.windows.get(&id.0) {
            Some(w) => Some((w.status.width, w.status.height)),
            None => None,
        }
    }
}

impl<T> WindowHandle<T> {
    /// Direct `value` at the handle's window. A window without a surface, be it still pending or
    /// destroyed, takes no values, and neither does one whose widget tree is of another kind than
    /// the handle's.
    pub fn set<U, R, E>(self, value: U, wm: &WindowManager<R, E>) -> (assignment: Option<
        Assignment<U>,
    >)
        ensures
            assignment == wm@.assigned(self, value),
    {
        match wm.windows.get(&self.id().0) {
            Some(window) => if window.ui == self.ui_kind() {
                Some(Assignment { window: self.id(), value })
            } else {
                None
            },
            None => None,
        }
    }
}

/// Granting the due windows their frames leaves none due.
pub proof fn rearming_leaves_none_due<R, E>(v: ManagerView<R, E>, w: WindowId)
    ensures
        !v.rearmed().due(w),
{
    if v.rearmed().due(w) {
        if v.frame_in_flight(w) {
            let c = choose|c: u32| #[trigger]
                v.frame_callbacks.contains_key(c) && v.frame_callbacks[c] == w;
            assert(v.rearmed().frame_callbacks.contains_key(c));
        }
        if v.rearmed().frame_in_flight(w) {
            let c = choose|c: u32| #[trigger]
                v.rearmed().frame_callbacks.contains_key(c) && v.rearmed().frame_callbacks[c] == w;
            assert(v.frame_callbacks.contains_key(c));
        }
        assert(v.due(w));
    }
}

/// A window with a frame under way is never due for another.
pub proof fn frame_in_flight_is_not_due<R, E>(v: ManagerView<R, E>, w: WindowId, callback: u32)
    requires
        v.frame_callbacks.contains_key(callback),
        v.frame_callbacks[callback] == w,
    ensures
        !v.due(w),
{
}

/// A window that was rendered and got a callback waits for it: until then it is not due again.
pub proof fn rendered_window_waits<R, E>(
    v: ManagerView<R, E>,
    w: WindowId,
    wants_input: bool,
    callback: ObjectId,
)
    requires
        v.live(w),
    ensures
        !v.rendered(w, wants_input, Some(callback)).due(w),
{
    frame_in_flight_is_not_due(v.rendered(w, wants_input, Some(callback)), w, callback);
}

/// The next identity is new: no window, pending or not, has it, and nothing refers to it.
pub proof fn next_identity_is_new<R, E>(v: ManagerView<R, E>)
    requires
        v.wf(),
    ensures
        !v.live(WindowId(v.next_window)),
        forall|i: int|
            0 <= i < v.pending.len() ==> (#[trigger] v.pending[i]).id != WindowId(v.next_window),
        !v.frame_callbacks.contains_value(WindowId(v.next_window)),
        !v.wl_surfaces.contains_value(WindowId(v.next_window)),
        !v.roles.contains_value(WindowId(v.next_window)),
        !v.touches.contains_value(WindowId(v.next_window)),
        v.pointer != Some(WindowId(v.next_window)),
        v.keyboard != Some(WindowId(v.next_window)),
{
}

proof fn adopting_adds_pending_only<R, E>(
    start: ManagerView<R, E>,
    created: Seq<CreatedWindow<R>>,
    n: int,
    w: u32,
)
    requires
        0 <= n <= start.pending.len(),
        !start.windows.contains_key(w),
        forall|i: int| 0 <= i < start.pending.len() ==> (#[trigger] start.pending[i]).id.0 != w,
    ensures
        !start.adopted(created, n).windows.contains_key(w),
    decreases n,
{
    if n > 0 {
        adopting_adds_pending_only(start, created, n - 1, w);
        assert(start.pending[n - 1].id.0 != w);
    }
}

/// A destroyed window does not come back, `w` being any identity that was handed out and is not
/// that of a window still pending: neither a window that is spawned later nor a pending one takes
/// it.
pub proof fn destroyed_windows_stay_gone<R, E>(
    v: ManagerView<R, E>,
    w: WindowId,
    width: u32,
    height: u32,
    kind: WindowKind,
    ui: UiKind,
    window: Window<R>,
    created: Seq<CreatedWindow<R>>,
)
    requires
        v.wf(),
        w.0 < v.next_window,
        forall|i: int| 0 <= i < v.pending.len() ==> (#[trigger] v.pending[i]).id != w,
        v.next_window < u32::MAX,
    ensures
        !v.without(w).live(w),
        !v.without(w).with_pending(width, height, kind, ui).live(w),
        !v.without(w).with_window(window).live(w),
        !v.without(w).flushed(created).live(w),
{
    adopting_adds_pending_only(v.without(w), created, v.pending.len() as int, w.0);
}

/// Two windows spawned one after the other have different identities, whichever way each was
/// spawned.
pub proof fn spawned_identities_differ<R, E>(
    v: ManagerView<R, E>,
    width: u32,
    height: u32,
    kind: WindowKind,
    ui: UiKind,
    window: Window<R>,
)
    requires
        v.wf(),
        v.next_window < u32::MAX,
    ensures
        v.with_pending(width, height, kind, ui).next_window != v.next_window,
        v.with_window(window).next_window != v.next_window,
{
}

proof fn adopted_windows<R, E>(
    start: ManagerView<R, E>,
    created: Seq<CreatedWindow<R>>,
    n: int,
    i: int,
)
    requires
        start.wf(),
        0 <= i < n <= start.pending.len(),
        created.len() == start.pending.len(),
        forall|a: int, b: int|
            0 <= a < b < created.len() ==> (#[trigger] created[a]).surface != (
            #[trigger] created[b]).surface && created[a].role_object != created[b].role_object,
    ensures
        ({
            let v = start.adopted(created, n);
            let id = start.pending[i].id;
            let ui = start.pending[i].ui;
            let c = created[i];
            &&& v.windows.contains_key(id.0)
            &&& v.windows[id.0] == (Window {
                surface: c.surface,
                role: c.role,
                ui,
                status: c.status,
            })
            &&& v.wl_surfaces.contains_key(c.surface) && v.wl_surfaces[c.surface] == id
            &&& v.roles.contains_key(c.role_object) && v.roles[c.role_object] == id
        }),
    decreases n,
{
    if i < n - 1 {
        adopted_windows(start, created, n - 1, i);
        assert(start.pending[i].id.0 < start.pending[n - 1].id.0);
        assert(created[i].surface != created[n - 1].surface);
    }
}

/// After the pending windows were registered each of them exists with its widget tree and with the
/// surface and role that were created for it, and both lead back to it.
pub proof fn flushed_windows_are_found<R, E>(
    start: ManagerView<R, E>,
    created: Seq<CreatedWindow<R>>,
    i: int,
)
    requires
        start.wf(),
        0 <= i < start.pending.len(),
        created.len() == start.pending.len(),
        forall|a: int, b: int|
            0 <= a < b < created.len() ==> (#[trigger] created[a]).surface != (
            #[trigger] created[b]).surface && created[a].role_object != created[b].role_object,
    ensures
        ({
            let v = start.flushed(created);
            let id = start.pending[i].id;
            let ui = start.pending[i].ui;
            let c = created[i];
            &&& v.pending.len() == 0
            &&& v.live(id)
            &&& v.windows[id.0] == (Window {
                surface: c.surface,
                role: c.role,
                ui,
                status: c.status,
            })
            &&& v.wl_surfaces[c.surface] == id
            &&& v.roles[c.role_object] == id
        }),
{
    adopted_windows(start, created, start.pending.len() as int, i);
}

/// A handle reaches the window that it was made for as soon as the window has its surface: at once
/// where the surface was there, and otherwise when the pending windows are registered.
pub proof fn handle_reaches_its_window<T, R, E>(
    v: ManagerView<R, E>,
    handle: WindowHandle<T>,
    width: u32,
    height: u32,
    kind: WindowKind,
    window: Window<R>,
    created: Seq<CreatedWindow<R>>,
)
    requires
        v.wf(),
        v.next_window < u32::MAX,
        handle.target() == WindowId(v.next_window),
        window.ui == handle.kind(),
        created.len() == v.pending.len() + 1,
    ensures
        v.with_window(window).reached_by(handle),
        !v.with_pending(width, height, kind, handle.kind()).reached_by(handle),
        v.with_pending(width, height, kind, handle.kind()).flushed(created).reached_by(handle),
{
    let n = v.pending.len() as int;
    let p = v.with_pending(width, height, kind, handle.kind());
    assert(p.pending[n].ui == handle.kind());
    assert(p.adopted(created, n + 1).windows.contains_key(v.next_window));
}

/// A handle reaches no window that was destroyed, and none whose widget tree is of another kind.
pub proof fn handle_reaches_its_kind_only<T, R, E>(v: ManagerView<R, E>, handle: WindowHandle<T>)
    ensures
        !v.without(handle.target()).reached_by(handle),
        v.live(handle.target()) && v.windows[handle.target().0].ui != handle.kind()
            ==> !v.reached_by(handle),
{
}

proof fn adopting_keeps_windows<R, E>(
    start: ManagerView<R, E>,
    created: Seq<CreatedWindow<R>>,
    n: int,
    w: u32,
)
    requires
        start.wf(),
        0 <= n <= start.pending.len(),
        start.windows.contains_key(w),
    ensures
        start.adopted(created, n).windows.contains_key(w),
        start.adopted(created, n).windows[w] == start.windows[w],
    decreases n,
{
    if n > 0 {
        adopting_keeps_windows(start, created, n - 1, w);
        assert(!start.windows.contains_key(start.pending[n - 1].id.0));
    }
}

/// Registering pending windows leaves the windows that exist alone.
pub proof fn flushing_keeps_windows<R, E>(
    start: ManagerView<R, E>,
    created: Seq<CreatedWindow<R>>,
    w: u32,
)
    requires
        start.wf(),
        start.windows.contains_key(w),
    ensures
        start.flushed(created).windows.contains_key(w),
        start.flushed(created).windows[w] == start.windows[w],
{
    adopting_keeps_windows(start, created, start.pending.len() as int, w);
}

/// After a frame the surface takes input exactly if the window wants it, and asking again at the
/// next frame changes nothing.
pub proof fn input_follows_the_wish<R, E>(
    v: ManagerView<R, E>,
    w: WindowId,
    wants_input: bool,
    callback: Option<ObjectId>,
)
    requires
        v.live(w),
    ensures
        v.rendered(w, wants_input, callback).windows[w.0].status.input_enabled == wants_input,
        v.rendered(w, wants_input, callback).region_change(w, wants_input) is Keep,
{
}

/// A window is due exactly if it exists, asks for a repaint, has its back buffer, and none of the
/// callbacks that are out is its; nothing else of its status matters.
pub proof fn due_means_asking_released_and_idle<R, E>(v: ManagerView<R, E>, w: WindowId)
    ensures
        v.due(w) <==> {
            &&& v.windows.contains_key(w.0)
            &&& v.windows[w.0].status.needs_render
            &&& v.windows[w.0].status.back_released
            &&& forall|c: u32| #[trigger]
                v.frame_callbacks.contains_key(c) ==> v.frame_callbacks[c] != w
        },
{
}

/// Every window that asks for a repaint, has its back buffer and waits for no callback is rendered,
/// damage-driven, and no other window is.
pub proof fn asking_windows_are_rendered<R, E>(
    v: ManagerView<R, E>,
    requests: Seq<RenderRequest>,
    w: WindowId,
)
    requires
        v.kicks(requests),
    ensures
        requests.contains(RenderRequest { window: w, force_full: false }) <==> {
            &&& v.windows.contains_key(w.0)
            &&& v.windows[w.0].status.needs_render
            &&& v.windows[w.0].status.back_released
            &&& forall|c: u32| #[trigger]
                v.frame_callbacks.contains_key(c) ==> v.frame_callbacks[c] != w
        },
        !requests.contains(RenderRequest { window: w, force_full: true }),
        requests.no_duplicates(),
{
    due_means_asking_released_and_idle(v, w);
}

/// Granting frames takes back the wish of exactly the windows that get one, and changes nothing
/// else of any window or of the manager.
pub proof fn rearming_takes_back_granted_wishes<R, E>(v: ManagerView<R, E>, w: u32)
    requires
        v.windows.contains_key(w),
    ensures
        ({
            let before = v.windows[w];
            let after = v.rearmed().windows[w];
            let waits = exists|c: u32| #[trigger]
                v.frame_callbacks.contains_key(c) && v.frame_callbacks[c].0 == w;
            &&& v.rearmed().windows.contains_key(w)
            &&& after.status.needs_render <==> before.status.needs_render && (
            !before.status.back_released || waits)
            &&& after.status.configured == before.status.configured
            &&& after.status.back_released == before.status.back_released
            &&& after.status.wants_input == before.status.wants_input
            &&& after.status.input_enabled == before.status.input_enabled
            &&& after.status.width == before.status.width
            &&& after.status.height == before.status.height
            &&& after.surface == before.surface && after.role == before.role && after.ui
                == before.ui
        }),
        v.rearmed().windows.dom() == v.windows.dom(),
        v.rearmed().frame_callbacks == v.frame_callbacks,
        v.rearmed().wl_surfaces == v.wl_surfaces,
        v.rearmed().roles == v.roles,
        v.rearmed().pointer == v.pointer,
        v.rearmed().keyboard == v.keyboard,
        v.rearmed().touches == v.touches,
        v.rearmed().pending == v.pending,
        v.rearmed().events == v.events,
        v.rearmed().globals == v.globals,
        v.rearmed().renderer == v.renderer,
        v.rearmed().next_window == v.next_window,
{
    due_means_asking_released_and_idle(v, WindowId(w));
    if v.frame_in_flight(WindowId(w)) {
        let c = choose|c: u32| #[trigger]
            v.frame_callbacks.contains_key(c) && v.frame_callbacks[c] == WindowId(w);
        assert(v.frame_callbacks.contains_key(c) && v.frame_callbacks[c].0 == w);
    }
    assert forall|c: u32| #[trigger]
        v.frame_callbacks.contains_key(c) && v.frame_callbacks[c].0 == w implies v.frame_in_flight(
        WindowId(w),
    ) by {
        assert(v.frame_callbacks[c] == WindowId(w));
    }
    assert(v.rearmed().windows.dom() =~= v.windows.dom());
}

/// A window exists exactly if the manager holds one under its number, and a callback of it is out
/// exactly if one of those that are out is its.
pub proof fn live_and_in_flight_go_by_the_maps<R, E>(v: ManagerView<R, E>, w: WindowId, c: u32)
    ensures
        v.live(w) <==> v.windows.contains_key(w.0),
        v.frame_callbacks.contains_key(c) && v.frame_callbacks[c] == w ==> v.frame_in_flight(w),
        (forall|k: u32| #[trigger]
            v.frame_callbacks.contains_key(k) ==> v.frame_callbacks[k] != w)
            ==> !v.frame_in_flight(w),
{
}

/// A handle reaches its window exactly if the manager holds a window under the handle's number and
/// the kind of that window's widgets is the handle's.
pub proof fn reach_goes_by_number_and_kind<T, R, E>(v: ManagerView<R, E>, handle: WindowHandle<T>)
    ensures
        v.reached_by(handle) <==> v.windows.contains_key(handle.target().0)
            && v.windows[handle.target().0].ui == handle.kind(),
{
}

/// A window that is spawned with its surface exists at once under the next number, is found by its
/// surface, and leaves every other window and surface alone.
pub proof fn spawned_window_is_found_by_its_surface<R, E>(
    v: ManagerView<R, E>,
    window: Window<R>,
    other: u32,
)
    requires
        v.next_window < u32::MAX,
    ensures
        ({
            let after = v.with_window(window);
            &&& after.windows.contains_key(v.next_window)
            &&& after.windows[v.next_window] == window
            &&& after.wl_surfaces.contains_key(window.surface)
            &&& after.wl_surfaces[window.surface].0 == v.next_window
            &&& after.next_window == v.next_window + 1
            &&& other != v.next_window ==> (after.windows.contains_key(other)
                <==> v.windows.contains_key(other))
            &&& other != v.next_window && v.windows.contains_key(other) ==> after.windows[other]
                == v.windows[other]
            &&& other != window.surface ==> (after.wl_surfaces.contains_key(other)
                <==> v.wl_surfaces.contains_key(other))
            &&& other != window.surface && v.wl_surfaces.contains_key(other)
                ==> after.wl_surfaces[other] == v.wl_surfaces[other]
            &&& after.pending == v.pending && after.roles == v.roles
            &&& after.frame_callbacks == v.frame_callbacks && after.touches == v.touches
            &&& after.pointer == v.pointer && after.keyboard == v.keyboard
            &&& after.globals == v.globals && after.events == v.events && after.renderer
                == v.renderer
        }),
{
}

/// A window that is spawned without a surface waits behind those that wait already, under the next
/// number, with what was asked for it; nothing else changes.
pub proof fn spawned_window_waits_in_line<R, E>(
    v: ManagerView<R, E>,
    width: u32,
    height: u32,
    kind: WindowKind,
    ui: UiKind,
    i: int,
)
    requires
        v.next_window < u32::MAX,
    ensures
        ({
            let after = v.with_pending(width, height, kind, ui);
            let n = v.pending.len() as int;
            &&& after.pending.len() == n + 1
            &&& after.pending[n].id.0 == v.next_window
            &&& after.pending[n].width == width && after.pending[n].height == height
            &&& after.pending[n].kind == kind && after.pending[n].ui == ui
            &&& 0 <= i < n ==> after.pending[i] == v.pending[i]
            &&& after.next_window == v.next_window + 1
            &&& after.windows == v.windows && after.wl_surfaces == v.wl_surfaces
            &&& after.roles == v.roles && after.frame_callbacks == v.frame_callbacks
            &&& after.touches == v.touches
            &&& after.pointer == v.pointer && after.keyboard == v.keyboard
            &&& after.globals == v.globals && after.events == v.events && after.renderer
                == v.renderer
        }),
{
}

/// Destroying a window takes that window away and nothing else.
pub proof fn destroying_takes_one_window<R, E>(v: ManagerView<R, E>, w: WindowId, other: u32)
    ensures
        ({
            let after = v.without(w);
            &&& !after.windows.contains_key(w.0)
            &&& other != w.0 ==> (after.windows.contains_key(other) <==> v.windows.contains_key(
                other,
            ))
            &&& other != w.0 && v.windows.contains_key(other) ==> after.windows[other]
                == v.windows[other]
            &&& after.wl_surfaces == v.wl_surfaces && after.roles == v.roles
            &&& after.frame_callbacks == v.frame_callbacks && after.touches == v.touches
            &&& after.pointer == v.pointer && after.keyboard == v.keyboard
            &&& after.pending == v.pending && after.next_window == v.next_window
            &&& after.globals == v.globals && after.events == v.events && after.renderer
                == v.renderer
        }),
{
}

proof fn adopting_leaves_the_rest<R, E>(
    start: ManagerView<R, E>,
    created: Seq<CreatedWindow<R>>,
    n: int,
    object: u32,
)
    requires
        0 <= n <= start.pending.len(),
    ensures
        ({
            let v = start.adopted(created, n);
            &&& (forall|i: int| 0 <= i < n ==> (#[trigger] created[i]).surface != object) ==> (
            v.wl_surfaces.contains_key(object) <==> start.wl_surfaces.contains_key(object))
                && (start.wl_surfaces.contains_key(object) ==> v.wl_surfaces[object]
                == start.wl_surfaces[object])
            &&& (forall|i: int| 0 <= i < n ==> (#[trigger] created[i]).role_object != object) ==> (
            v.roles.contains_key(object) <==> start.roles.contains_key(object)) && (
            start.roles.contains_key(object) ==> v.roles[object] == start.roles[object])
            &&& v.frame_callbacks == start.frame_callbacks && v.touches == start.touches
            &&& v.pointer == start.pointer && v.keyboard == start.keyboard
            &&& v.globals == start.globals && v.events == start.events && v.renderer
                == start.renderer
            &&& v.next_window == start.next_window
        }),
    decreases n,
{
    if n > 0 {
        adopting_leaves_the_rest(start, created, n - 1, object);
        let earlier = start.adopted(created, n - 1);
        if forall|i: int| 0 <= i < n ==> (#[trigger] created[i]).surface != object {
            assert(created[n - 1].surface != object);
        }
        if forall|i: int| 0 <= i < n ==> (#[trigger] created[i]).role_object != object {
            assert(created[n - 1].role_object != object);
        }
    }
}

/// Registering the pending windows leaves none pending, and leaves alone every surface and role
/// that was not created for one of them, and everything else that the manager holds.
pub proof fn flushing_leaves_the_rest<R, E>(
    start: ManagerView<R, E>,
    created: Seq<CreatedWindow<R>>,
    object: u32,
)
    requires
        created.len() == start.pending.len(),
    ensures
        ({
            let v = start.flushed(created);
            &&& v.pending.len() == 0
            &&& (forall|i: int| 0 <= i < created.len() ==> (#[trigger] created[i]).surface
                != object) ==> (v.wl_surfaces.contains_key(object)
                <==> start.wl_surfaces.contains_key(object)) && (start.wl_surfaces.contains_key(
                object,
            ) ==> v.wl_surfaces[object] == start.wl_surfaces[object])
            &&& (forall|i: int| 0 <= i < created.len() ==> (#[trigger] created[i]).role_object
                != object) ==> (v.roles.contains_key(object) <==> start.roles.contains_key(object))
                && (start.roles.contains_key(object) ==> v.roles[object] == start.roles[object])
            &&& v.frame_callbacks == start.frame_callbacks && v.touches == start.touches
            &&& v.pointer == start.pointer && v.keyboard == start.keyboard
            &&& v.globals == start.globals && v.events == start.events && v.renderer
                == start.renderer
            &&& v.next_window == start.next_window
        }),
{
    adopting_leaves_the_rest(start, created, start.pending.len() as int, object);
}

/// A window that neither existed nor was pending does not exist after registering either.
pub proof fn flushing_adds_pending_windows_only<R, E>(
    start: ManagerView<R, E>,
    created: Seq<CreatedWindow<R>>,
    w: u32,
)
    requires
        !start.windows.contains_key(w),
        forall|i: int| 0 <= i < start.pending.len() ==> (#[trigger] start.pending[i]).id.0 != w,
    ensures
        !start.flushed(created).windows.contains_key(w),
{
    adopting_adds_pending_only(start, created, start.pending.len() as int, w);
}

/// After a frame the window's wish and its surface's input are what the frame said, the callback, if
/// there is one, is the window's, and nothing else changes.
pub proof fn rendering_notes_wish_and_callback<R, E>(
    v: ManagerView<R, E>,
    w: WindowId,
    wants_input: bool,
    callback: ObjectId,
    other: u32,
)
    requires
        v.live(w),
    ensures
        ({
            let a = v.rendered(w, wants_input, Some(callback));
            let b = v.rendered(w, wants_input, None);
            &&& a.windows == b.windows
            &&& a.windows.contains_key(w.0)
            &&& a.windows[w.0].status.wants_input == wants_input
            &&& a.windows[w.0].status.input_enabled == wants_input
            &&& a.windows[w.0].status.configured == v.windows[w.0].status.configured
            &&& a.windows[w.0].status.needs_render == v.windows[w.0].status.needs_render
            &&& a.windows[w.0].status.back_released == v.windows[w.0].status.back_released
            &&& a.windows[w.0].status.width == v.windows[w.0].status.width
            &&& a.windows[w.0].status.height == v.windows[w.0].status.height
            &&& a.windows[w.0].surface == v.windows[w.0].surface
            &&& a.windows[w.0].role == v.windows[w.0].role && a.windows[w.0].ui
                == v.windows[w.0].ui
            &&& other != w.0 ==> (a.windows.contains_key(other) <==> v.windows.contains_key(other))
            &&& other != w.0 && v.windows.contains_key(other) ==> a.windows[other]
                == v.windows[other]
            &&& a.frame_callbacks.contains_key(callback) && a.frame_callbacks[callback] == w
            &&& other != callback ==> (a.frame_callbacks.contains_key(other)
                <==> v.frame_callbacks.contains_key(other))
            &&& other != callback && v.frame_callbacks.contains_key(other)
                ==> a.frame_callbacks[other] == v.frame_callbacks[other]
            &&& b.frame_callbacks == v.frame_callbacks
            &&& a.wl_surfaces == v.wl_surfaces && a.roles == v.roles && a.touches == v.touches
            &&& a.pointer == v.pointer && a.keyboard == v.keyboard
            &&& a.pending == v.pending && a.next_window == v.next_window
        }),
{
}

/// The input region is changed exactly when the wish is not what the surface has: to the whole
/// surface when input is wanted, and to nothing when it is not and there is a compositor to make a
/// region.
pub proof fn region_changes_with_the_wish<R, E>(
    v: ManagerView<R, E>,
    w: WindowId,
    wants_input: bool,
)
    ensures
        v.region_change(w, wants_input) is Whole <==> wants_input
            && !v.windows[w.0].status.input_enabled,
        v.region_change(w, wants_input) is Empty <==> !wants_input
            && v.windows[w.0].status.input_enabled && v.globals.compositor,
{
}

/// A configure event of a window is answered by acknowledging its serial, then resizing the window
/// to the size it names, then repainting all of it; one of a window that does not exist by nothing.
pub proof fn configure_acknowledges_resizes_repaints<R, E>(
    v: ManagerView<R, E>,
    w: WindowId,
    serial: u32,
    width: u32,
    height: u32,
)
    ensures
        ({
            let steps = v.configure_steps(w, serial, width, height);
            &&& !v.windows.contains_key(w.0) ==> steps.len() == 0
            &&& v.windows.contains_key(w.0) ==> {
                &&& steps.len() == 3
                &&& steps[0] matches ConfigureStep::Acknowledge { window, serial: s } && window == w
                    && s == serial
                &&& steps[1] matches ConfigureStep::Resize { window, width: a, height: b } && window
                    == w && a == width && b == height
                &&& steps[2] matches ConfigureStep::Render(q) && q.window == w && q.force_full
            }
        }),
{
}

/// The pending windows have their globals exactly if, as soon as one waits, there is a compositor,
/// and there is the layer shell for each layer window and the xdg shell for each xdg window.
pub proof fn nothing_lacks_when_every_global_is_there(globals: Globals, pending: Seq<PendingWindow>)
    ensures
        first_lacking(globals, pending) is None <==> forall|i: int|
            0 <= i < pending.len() ==> {
                &&& globals.compositor
                &&& (#[trigger] pending[i]).kind is LayerShell ==> globals.layer_shell
                &&& pending[i].kind is Xdg ==> globals.xdg_wm_base
            },
    decreases pending.len(),
{
    if pending.len() > 0 {
        let earlier = pending.drop_last();
        nothing_lacks_when_every_global_is_there(globals, earlier);
        let n = pending.len() - 1;
        assert(pending[n] == pending.last());
        if first_lacking(globals, pending) is None {
            assert forall|i: int| 0 <= i < pending.len() implies {
                &&& globals.compositor
                &&& (#[trigger] pending[i]).kind is LayerShell ==> globals.layer_shell
                &&& pending[i].kind is Xdg ==> globals.xdg_wm_base
            } by {
                if i < n {
                    assert(earlier[i] == pending[i]);
                }
            }
        }
        if forall|i: int|
            0 <= i < pending.len() ==> {
                &&& globals.compositor
                &&& (#[trigger] pending[i]).kind is LayerShell ==> globals.layer_shell
                &&& pending[i].kind is Xdg ==> globals.xdg_wm_base
            } {
            assert forall|i: int| 0 <= i < earlier.len() implies {
                &&& globals.compositor
                &&& (#[trigger] earlier[i]).kind is LayerShell ==> globals.layer_shell
                &&& earlier[i].kind is Xdg ==> globals.xdg_wm_base
            } by {
                assert(earlier[i] == pending[i]);
            }
        }
    }
}

/// A global that is named as lacking is not bound, and one of the pending windows needs it.
pub proof fn lacking_global_is_needed(globals: Globals, pending: Seq<PendingWindow>)
    requires
        first_lacking(globals, pending) is Some,
    ensures
        match first_lacking(globals, pending)->0 {
            Global::Compositor => !globals.compositor && pending.len() > 0,
            Global::LayerShell => !globals.layer_shell && exists|i: int|
                0 <= i < pending.len() && (#[trigger] pending[i]).kind is LayerShell,
            Global::XdgWmBase => !globals.xdg_wm_base && exists|i: int|
                0 <= i < pending.len() && (#[trigger] pending[i]).kind is Xdg,
            _ => false,
        },
    decreases pending.len(),
{
    if pending.len() > 0 {
        let earlier = pending.drop_last();
        if first_lacking(globals, earlier) is Some {
            lacking_global_is_needed(globals, earlier);
            if first_lacking(globals, earlier)->0 is LayerShell {
                let i = choose|i: int|
                    0 <= i < earlier.len() && (#[trigger] earlier[i]).kind is LayerShell;
                assert(pending[i] == earlier[i]);
            }
            if first_lacking(globals, earlier)->0 is XdgWmBase {
                let i = choose|i: int| 0 <= i < earlier.len() && (#[trigger] earlier[i]).kind is Xdg;
                assert(pending[i] == earlier[i]);
            }
        } else {
            assert(pending[pending.len() - 1] == pending.last());
        }
    }
}

/// A layer window gets a surface, a layer surface on its layer and under its namespace, its own
/// size, anchor, zone and keyboard mode, and then a commit.
pub proof fn layer_window_is_requested_as_asked(p: PendingWindow)
    ensures
        p.kind matches WindowKind::LayerShell {
            layer,
            anchor,
            exclusive_zone,
            namespace,
            keyboard_interactivity,
        } ==> {
            let q = surface_requests(p);
            &&& q.len() == 7
            &&& q[0] is CreateSurface
            &&& q[1] matches SurfaceRequest::GetLayerSurface { layer: l, namespace: n } && l == layer
                && n == namespace
            &&& q[2] matches SurfaceRequest::SetSize { width, height } && width == p.width && height
                == p.height
            &&& q[3] matches SurfaceRequest::SetAnchor(a) && a == anchor
            &&& q[4] matches SurfaceRequest::SetExclusiveZone(z) && z == exclusive_zone
            &&& q[5] matches SurfaceRequest::SetKeyboardInteractivity(k) && k
                == keyboard_interactivity
            &&& q[6] is Commit
        },
{
}

/// An xdg window gets a surface, an xdg surface, a toplevel with its own title, and then a commit.
pub proof fn xdg_window_is_requested_as_asked(p: PendingWindow)
    ensures
        p.kind matches WindowKind::Xdg { title } ==> {
            let q = surface_requests(p);
            &&& q.len() == 5
            &&& q[0] is CreateSurface
            &&& q[1] is GetXdgSurface
            &&& q[2] is GetToplevel
            &&& q[3] matches SurfaceRequest::SetTitle(t) && t == title
            &&& q[4] is Commit
        },
{
}

/// Windows are requested one after the other, in the order in which they wait.
pub proof fn windows_are_requested_in_line(first: Seq<PendingWindow>, second: Seq<PendingWindow>)
    ensures
        all_requests(first + second) == all_requests(first) + all_requests(second),
        first.len() == 1 ==> all_requests(first) == surface_requests(first[0]),
        first.len() == 0 ==> all_requests(first).len() == 0,
    decreases second.len(),
{
    reveal_with_fuel(all_requests, 2);
    if first.len() == 1 {
        assert(first.drop_last() =~= Seq::empty());
        assert(all_requests(first) =~= surface_requests(first[0]));
    }
    if second.len() == 0 {
        assert(first + second =~= first);
        assert(all_requests(first) + all_requests(second) =~= all_requests(first));
    } else {
        windows_are_requested_in_line(first, second.drop_last());
        assert((first + second).drop_last() =~= first + second.drop_last());
        assert((first + second).last() == second.last());
        assert(all_requests(first + second) =~= all_requests(first) + all_requests(second));
    }
}

/// A fresh manager has bound nothing, holds no window and follows nothing.
pub proof fn fresh_manager_holds_nothing<R, E>(renderer: RendererView, k: u32, t: i32)
    ensures
        ({
            let v = ManagerView::<R, E>::fresh(renderer);
            &&& v.renderer == renderer
            &&& !v.windows.contains_key(k) && !v.wl_surfaces.contains_key(k)
            &&& !v.roles.contains_key(k) && !v.frame_callbacks.contains_key(k)
            &&& !v.touches.contains_key(t)
            &&& v.pending.len() == 0 && v.events.len() == 0
            &&& v.pointer is None && v.keyboard is None
            &&& v.next_window == 0
            &&& !v.globals.compositor && !v.globals.layer_shell && !v.globals.output
            &&& !v.globals.xdg_wm_base && !v.globals.dmabuf && !v.globals.seat
            &&& !v.globals.pointer && !v.globals.keyboard && !v.globals.touch
        }),
{
}

/// Starting up compiles the shader programs exactly if they are not compiled yet, and before
/// anything else; then it gets the registry, and a round trip comes last.
pub proof fn start_ends_with_a_round_trip(compiled: bool)
    ensures
        ({
            let steps = start_steps(compiled);
            let n = steps.len();
            &&& steps.contains(StartStep::CompilePipelines) <==> !compiled
            &&& n == if compiled {
                2int
            } else {
                3
            }
            &&& !compiled ==> steps[0] is CompilePipelines
            &&& steps[n - 2] is GetRegistry
            &&& steps[n - 1] is Sync
        }),
{
    assert(!compiled ==> start_steps(false)[0] is CompilePipelines);
}

/// A window is built as it was asked for; each configuration is the asked one if there is one, and
/// otherwise that of the widget tree, independently of the other.
pub proof fn windows_are_built_as_asked<T, G>(
    settings: WindowSettings<T, G>,
    id: WindowId,
    ui_touch_config: Option<T>,
    ui_gesture_config: Option<G>,
)
    ensures
        ({
            let spec = settled_spec(settings, id, ui_touch_config, ui_gesture_config);
            &&& spec.id == id
            &&& spec.width == settings.width && spec.height == settings.height
            &&& spec.clear_color == settings.clear_color
            &&& spec.color_texture == settings.color_texture
            &&& settings.touch_config matches Some(c) ==> spec.touch_config == Some(c)
            &&& settings.touch_config is None ==> spec.touch_config == ui_touch_config
            &&& settings.gesture_config matches Some(c) ==> spec.gesture_config == Some(c)
            &&& settings.gesture_config is None ==> spec.gesture_config == ui_gesture_config
        }),
{
}

/// A value goes to the window under the handle's number, and as it is, exactly if a window with
/// widgets of the handle's kind is there; a frame is rendered of the window asked for, forced
/// exactly if asked, exactly if it is there.
pub proof fn values_and_frames_go_to_the_window_named<T, U, R, E>(
    v: ManagerView<R, E>,
    handle: WindowHandle<T>,
    value: U,
    w: WindowId,
    force_full: bool,
)
    ensures
        v.assigned(handle, value) is Some <==> v.windows.contains_key(handle.target().0)
            && v.windows[handle.target().0].ui == handle.kind(),
        v.assigned(handle, value) matches Some(a) ==> a.window == handle.target() && a.value
            == value,
        v.frame_of(w, force_full) is Some <==> v.windows.contains_key(w.0),
        v.frame_of(w, force_full) matches Some(q) ==> q.window == w && q.force_full == force_full,
{
}

} // verus!
