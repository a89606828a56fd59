//! The manager's answers to events of the display: globals that appear, seats, and input, frame
//! and buffer events, each directed at the window that it concerns.

use std::collections::HashSet;

use vstd::prelude::*;

use crate::manager::{keys_of, Global, Globals, ManagerView, RenderRequest, WindowManager};
use crate::window::{ObjectId, WindowId};

verus! {

broadcast use vstd::std_specs::hash::group_hash_axioms;

/// Widgets have produced events for the application.
#[derive(Debug, Clone, Copy, PartialEq, Eq, Structural)]
pub struct UiEventsReady;

/// A global to bind, by its name in the registry.
#[derive(Debug, Clone, Copy, PartialEq, Eq, Structural)]
pub struct Bind {
    pub global: Global,
    pub name: u32,
    pub version: u32,
}

/// What a seat can do.
#[derive(Debug, Clone, Copy, PartialEq, Eq, Structural)]
pub struct SeatCapabilities {
    pub pointer: bool,
    pub keyboard: bool,
    pub touch: bool,
}

/// A device to get from the seat.
#[derive(Debug, Clone, Copy, PartialEq, Eq, Structural)]
pub enum SeatDevice {
    Pointer,
    Keyboard,
    Touch,
}

/// A pointer or keyboard event, as far as its direction goes.
#[derive(Debug, Clone, Copy, PartialEq, Eq, Structural)]
pub enum FocusEvent {
    Enter { surface: ObjectId },
    Leave,
    /// Any other event: it belongs to whatever has the focus.
    Other,
}

/// A touch event, as far as its direction goes. A surface that is gone has no object.
#[derive(Debug, Clone, Copy, PartialEq, Eq, Structural)]
pub enum TouchEvent {
    Down { surface: Option<ObjectId>, id: i32 },
    Up { id: i32 },
    Motion { id: i32 },
    Frame,
    Cancel,
    Other,
}

/// A window to tell that the compositor gave a buffer back.
#[derive(Debug, Clone, Copy, PartialEq, Eq, Structural)]
pub struct BufferRelease {
    pub window: WindowId,
    pub buffer: ObjectId,
}

/// What a finished callback calls for.
#[derive(Debug, Clone, Copy, PartialEq, Eq, Structural)]
pub enum CallbackOutcome {
    Nothing,
    Render(RenderRequest),
    /// The callback announced no frame: it ends the first round trip, and the pending windows
    /// can get their surfaces.
    FlushPending,
}

/// The global that the manager binds under an interface name.
pub open spec fn global_named(interface: Seq<char>) -> Option<Global> {
    if interface == "wl_compositor"@ {
        Some(Global::Compositor)
    } else if interface == "zwlr_layer_shell_v1"@ {
        Some(Global::LayerShell)
    } else if interface == "wl_output"@ {
        Some(Global::Output)
    } else if interface == "xdg_wm_base"@ {
        Some(Global::XdgWmBase)
    } else if interface == "zwp_linux_dmabuf_v1"@ {
        Some(Global::Dmabuf)
    } else if interface == "wl_seat"@ {
        Some(Global::Seat)
    } else {
        None
    }
}

/// How a global that appears under an interface name is bound, if at all.
pub open spec fn bind_of(interface: Seq<char>, name: u32, version: u32) -> Option<Bind> {
    match global_named(interface) {
        Some(global) => Some(Bind { global, name, version }),
        None => None,
    }
}

/// `globals` with `global` bound.
pub open spec fn with_global(globals: Globals, global: Global) -> Globals {
    match global {
        Global::Compositor => Globals { compositor: true, ..globals },
        Global::LayerShell => Globals { layer_shell: true, ..globals },
        Global::Output => Globals { output: true, ..globals },
        Global::XdgWmBase => Globals { xdg_wm_base: true, ..globals },
        Global::Dmabuf => Globals { dmabuf: true, ..globals },
        Global::Seat => Globals { seat: true, ..globals },
    }
}

/// The devices that the seat offers and that have not been got yet.
pub open spec fn devices_to_get(globals: Globals, offered: SeatCapabilities) -> Seq<SeatDevice> {
    let pointer = if offered.pointer && !globals.pointer {
        seq![SeatDevice::Pointer]
    } else {
        Seq::empty()
    };
    let keyboard = if offered.keyboard && !globals.keyboard {
        seq![SeatDevice::Keyboard]
    } else {
        Seq::empty()
    };
    let touch = if offered.touch && !globals.touch {
        seq![SeatDevice::Touch]
    } else {
        Seq::empty()
    };
    pointer + keyboard + touch
}

/// `globals` with every device that the seat offers got.
pub open spec fn with_devices(globals: Globals, offered: SeatCapabilities) -> Globals {
    Globals {
        pointer: globals.pointer || offered.pointer,
        keyboard: globals.keyboard || offered.keyboard,
        touch: globals.touch || offered.touch,
        ..globals
    }
}

/// The window that has the focus after an event, when `current` had it before.
pub open spec fn focus_after(
    current: Option<WindowId>,
    event: FocusEvent,
    surfaces: Map<u32, WindowId>,
) -> Option<WindowId> {
    match event {
        FocusEvent::Enter { surface } => if surfaces.contains_key(surface) {
            Some(surfaces[surface])
        } else {
            None
        },
        FocusEvent::Leave => None,
        FocusEvent::Other => current,
    }
}

/// The window that a focus event is about: the one it leaves, or the one that has the focus.
pub open spec fn focus_subject(
    current: Option<WindowId>,
    event: FocusEvent,
    surfaces: Map<u32, WindowId>,
) -> Option<WindowId> {
    match event {
        FocusEvent::Leave => current,
        _ => focus_after(current, event, surfaces),
    }
}

/// The touch points after an event, with the window that each went down on.
pub open spec fn touches_after(
    touches: Map<i32, WindowId>,
    event: TouchEvent,
    surfaces: Map<u32, WindowId>,
) -> Map<i32, WindowId> {
    match event {
        TouchEvent::Down { surface, id } => match surface {
            Some(s) => if surfaces.contains_key(s) {
                touches.insert(id, surfaces[s])
            } else {
                touches
            },
            None => touches,
        },
        TouchEvent::Up { id } => touches.remove(id),
        TouchEvent::Cancel => Map::empty(),
        _ => touches,
    }
}

/// The windows that a touch event is about.
pub open spec fn touch_subjects(
    touches: Map<i32, WindowId>,
    event: TouchEvent,
    surfaces: Map<u32, WindowId>,
) -> Set<WindowId> {
    match event {
        TouchEvent::Down { surface, id } => match surface {
            Some(s) => if surfaces.contains_key(s) {
                set![surfaces[s]]
            } else {
                Set::empty()
            },
            None => Set::empty(),
        },
        TouchEvent::Up { id } | TouchEvent::Motion { id } => if touches.contains_key(id) {
            set![touches[id]]
        } else {
            Set::empty()
        },
        TouchEvent::Frame | TouchEvent::Cancel => touches.values(),
        TouchEvent::Other => Set::empty(),
    }
}

impl<R, E> ManagerView<R, E> {
    /// `w`, if it is a window that exists.
    pub open spec fn if_live(self, w: Option<WindowId>) -> Option<WindowId> {
        match w {
            Some(id) => if self.live(id) {
                Some(id)
            } else {
                None
            },
            None => None,
        }
    }

    /// The window that a pointer event goes to.
    pub open spec fn pointer_target(self, event: FocusEvent) -> Option<WindowId> {
        self.if_live(focus_subject(self.pointer, event, self.wl_surfaces))
    }

    /// The window that a keyboard event goes to.
    pub open spec fn keyboard_target(self, event: FocusEvent) -> Option<WindowId> {
        self.if_live(focus_subject(self.keyboard, event, self.wl_surfaces))
    }

    /// The windows that a touch event goes to.
    pub open spec fn touch_targets(self, event: TouchEvent) -> Set<WindowId> {
        touch_subjects(self.touches, event, self.wl_surfaces).filter(|w: WindowId| self.live(w))
    }

    pub open spec fn after_pointer(self, event: FocusEvent) -> ManagerView<R, E> {
        ManagerView { pointer: focus_after(self.pointer, event, self.wl_surfaces), ..self }
    }

    pub open spec fn after_keyboard(self, event: FocusEvent) -> ManagerView<R, E> {
        ManagerView { keyboard: focus_after(self.keyboard, event, self.wl_surfaces), ..self }
    }

    pub open spec fn after_touch(self, event: TouchEvent) -> ManagerView<R, E> {
        ManagerView { touches: touches_after(self.touches, event, self.wl_surfaces), ..self }
    }

    /// What the end of the callback `object` calls for.
    pub open spec fn callback_outcome(self, object: Option<ObjectId>) -> CallbackOutcome {
        match object {
            None => CallbackOutcome::Nothing,
            Some(c) => if self.frame_callbacks.contains_key(c) {
                let w = self.frame_callbacks[c];
                if self.live(w) && self.windows[w.0].status.back_released {
                    CallbackOutcome::Render(RenderRequest { window: w, force_full: false })
                } else {
                    CallbackOutcome::Nothing
                }
            } else {
                CallbackOutcome::FlushPending
            },
        }
    }

    pub open spec fn after_callback(self, object: Option<ObjectId>) -> ManagerView<R, E> {
        match object {
            None => self,
            Some(c) => ManagerView { frame_callbacks: self.frame_callbacks.remove(c), ..self },
        }
    }
}

impl<R, E> WindowManager<R, E> {
    /// A global appeared: bind it if it is one that the manager uses. A global that appears
    /// again is bound again.
    pub fn on_registry_global(&mut self, interface: &String, name: u32, version: u32) -> (bind:
        Option<Bind>)
        requires
            old(self)@.wf(),
        ensures
            bind == bind_of(interface@, name, version),
            final(self)@ == (match global_named(interface@) {
                Some(global) => ManagerView {
                    globals: with_global(old(self)@.globals, global),
                    ..old(self)@
                },
                None => old(self)@,
            }),
            final(self)@.wf(),
    {
        let global: Global = if *interface == "wl_compositor".to_string() {
            self.globals.compositor = true;
            Global::Compositor
        } else if *interface == "zwlr_layer_shell_v1".to_string() {
            self.globals.layer_shell = true;
            Global::LayerShell
        } else if *interface == "wl_output".to_string() {
            self.globals.output = true;
            Global::Output
        } else if *interface == "xdg_wm_base".to_string() {
            self.globals.xdg_wm_base = true;
            Global::XdgWmBase
        } else if *interface == "zwp_linux_dmabuf_v1".to_string() {
            self.globals.dmabuf = true;
            Global::Dmabuf
        } else if *interface == "wl_seat".to_string() {
            self.globals.seat = true;
            Global::Seat
        } else {
            return None;
        };
        Some(Bind { global, name, version })
    }

    /// The seat told what it offers: get each device that it offers and that is still missing. A
    /// device that the seat stops offering is kept.
    pub fn on_seat_capabilities(&mut self, offered: SeatCapabilities) -> (devices: Vec<SeatDevice>)
        requires
            old(self)@.wf(),
            old(self)@.globals.seat,
        ensures
            devices@ == devices_to_get(old(self)@.globals, offered),
            devices@.contains(SeatDevice::Pointer) <==> offered.pointer
                && !old(self)@.globals.pointer,
            devices@.contains(SeatDevice::Keyboard) <==> offered.keyboard
                && !old(self)@.globals.keyboard,
            devices@.contains(SeatDevice::Touch) <==> offered.touch && !old(self)@.globals.touch,
            devices@.no_duplicates(),
            final(self)@ == (ManagerView {
                globals: with_devices(old(self)@.globals, offered),
                ..old(self)@
            }),
            final(self)@.wf(),
    {
        let mut devices: Vec<SeatDevice> = Vec::new();
        if offered.pointer && !self.globals.pointer {
            self.globals.pointer = true;
            devices.push(SeatDevice::Pointer);
        }
        if offered.keyboard && !self.globals.keyboard {
            self.globals.keyboard = true;
            devices.push(SeatDevice::Keyboard);
        }
        if offered.touch && !self.globals.touch {
            self.globals.touch = true;
            devices.push(SeatDevice::Touch);
        }
        assert(devices@ =~= devices_to_get(old(self)@.globals, offered));
        proof {
            offered_devices_are_got_once(old(self)@.globals, offered);
        }
        devices
    }

    fn window_of_surface(&self, surface: ObjectId) -> (id: Option<WindowId>)
        ensures
            id == (if self@.wl_surfaces.contains_key(surface) {
                Some(self@.wl_surfaces[surface])
            } else {
                None
            }),
    {
        match self.wl_surfaces.get(&surface) {
            Some(id) => Some(*id),
            None => None,
        }
    }

    fn only_if_live(&self, id: Option<WindowId>) -> (live: Option<WindowId>)
        ensures
            live == self@.if_live(id),
    {
        match id {
            Some(w) => if self.windows.contains_key(&w.0) {
                Some(w)
            } else {
                None
            },
            None => None,
        }
    }

    /// Follow the pointer, and say which window its event goes to.
    pub fn on_pointer_event(&mut self, event: FocusEvent) -> (target: Option<WindowId>)
        requires
            old(self)@.wf(),
        ensures
            target == old(self)@.pointer_target(event),
            final(self)@ == old(self)@.after_pointer(event),
            final(self)@.wf(),
    {
        match event {
            FocusEvent::Enter { surface } => {
                self.current_pointer_window = self.window_of_surface(surface);
                self.only_if_live(self.current_pointer_window)
            },
            FocusEvent::Leave => {
                let left = self.current_pointer_window;
                self.current_pointer_window = None;
                self.only_if_live(left)
            },
            FocusEvent::Other => self.only_if_live(self.current_pointer_window),
        }
    }

    /// Follow the keyboard focus, and say which window its event goes to.
    pub fn on_keyboard_event(&mut self, event: FocusEvent) -> (target: Option<WindowId>)
        requires
            old(self)@.wf(),
        ensures
            target == old(self)@.keyboard_target(event),
            final(self)@ == old(self)@.after_keyboard(event),
            final(self)@.wf(),
    {
        match event {
            FocusEvent::Enter { surface } => {
                self.current_keyboard_window = self.window_of_surface(surface);
                self.only_if_live(self.current_keyboard_window)
            },
            FocusEvent::Leave => {
                let left = self.current_keyboard_window;
                self.current_keyboard_window = None;
                self.only_if_live(left)
            },
            FocusEvent::Other => self.only_if_live(self.current_keyboard_window),
        }
    }

    /// The windows that exist and have a touch point, each once, in no particular order.
    fn touched_windows(&self) -> (ids: Vec<WindowId>)
        ensures
            ids@.no_duplicates(),
            ids@.to_set() == self@.touches.values().filter(|w: WindowId| self@.live(w)),
    {
        let mut seen: HashSet<u32> = HashSet::new();
        let mut ids: Vec<WindowId> = Vec::new();
        for w in it: self.touch_window_map.values()
            invariant
                it.seq().unref().to_set() == self.touch_window_map@.values(),
                ids@.no_duplicates(),
                forall|i: int|
                    0 <= i < ids@.len() ==> seen@.contains((#[trigger] ids@[i]).0) && self@.live(
                        ids@[i],
                    ) && self@.touches.values().contains(ids@[i]),
                forall|k: u32| #[trigger]
                    seen@.contains(k) && self@.live(WindowId(k)) ==> ids@.contains(WindowId(k)),
                forall|j: int| 0 <= j < it.index() ==> seen@.contains((#[trigger] it.seq()[j]).0),
                it.index() == it.seq().len() ==> (forall|x: WindowId| #[trigger]
                    self@.touches.values().contains(x) ==> seen@.contains(x.0)),
        {
            let ghost n = it.index() as int;
            let ghost before = ids@;
            assert(it.seq().unref()[n] == *w);
            assert(it.seq().unref().to_set().contains(*w));
            let first: bool = seen.insert(w.0);
            if first {
                if self.windows.contains_key(&w.0) {
                    ids.push(*w);
                    assert(ids@[ids@.len() - 1] == *w);
                }
            }
            assert forall|k: u32| #[trigger] seen@.contains(k) && self@.live(
                WindowId(k),
            ) implies ids@.contains(WindowId(k)) by {
                if first && k == w.0 {
                    assert(ids@.last() == WindowId(k));
                } else {
                    assert(before.contains(WindowId(k)));
                    let i = choose|i: int| 0 <= i < before.len() && before[i] == WindowId(k);
                    assert(ids@[i] == WindowId(k));
                }
            }
            assert forall|x: WindowId|
                n + 1 == it.seq().len() && #[trigger] self@.touches.values().contains(
                    x,
                ) implies seen@.contains(x.0) by {
                assert(it.seq().unref().to_set().contains(x));
                let j = choose|j: int| 0 <= j < it.seq().len() && it.seq().unref()[j] == x;
                assert(it.seq()[j].0 == x.0);
            }
        }
        proof {
            let wanted = self@.touches.values().filter(|w: WindowId| self@.live(w));
            assert forall|x: WindowId| #[trigger] ids@.to_set().contains(x) <==> wanted.contains(
                x,
            ) by {
                if ids@.contains(x) {
                    let i = choose|i: int| 0 <= i < ids@.len() && ids@[i] == x;
                    assert(self@.live(ids@[i]));
                }
            }
            assert(ids@.to_set() =~= wanted);
        }
        ids
    }

    /// Follow the touch points, and say which windows the event goes to, each once.
    pub fn on_touch_event(&mut self, event: TouchEvent) -> (targets: Vec<WindowId>)
        requires
            old(self)@.wf(),
        ensures
            targets@.no_duplicates(),
            targets@.to_set() == old(self)@.touch_targets(event),
            final(self)@ == old(self)@.after_touch(event),
            final(self)@.wf(),
    {
        let subject: Option<WindowId> = match event {
            TouchEvent::Down { surface, id } => {
                let window = match surface {
                    Some(s) => self.window_of_surface(s),
                    None => None,
                };
                if let Some(w) = window {
                    self.touch_window_map.insert(id, w);
                }
                window
            },
            TouchEvent::Up { id } => {
                let window = self.touch_window_map.remove(&id);
                assert(self@.touches =~= old(self)@.touches.remove(id));
                window
            },
            TouchEvent::Motion { id } => match self.touch_window_map.get(&id) {
                Some(w) => Some(*w),
                None => None,
            },
            TouchEvent::Frame => {
                return self.touched_windows();
            },
            TouchEvent::Cancel => {
                let targets = self.touched_windows();
                self.touch_window_map.clear();
                return targets;
            },
            TouchEvent::Other => None,
        };
        let mut targets: Vec<WindowId> = Vec::new();
        if let Some(w) = self.only_if_live(subject) {
            targets.push(w);
            assert(targets@[0] == w);
        }
        proof {
            let wanted = old(self)@.touch_targets(event);
            assert forall|x: WindowId| #[trigger] targets@.to_set().contains(x) <==>
                wanted.contains(x) by {
                assert(targets@.contains(x) <==> self@.if_live(subject) == Some(x));
            }
            assert(targets@.to_set() =~= wanted);
        }
        targets
    }

    /// Whether the application has events to take, to be asked after an input event was
    /// delivered.
    pub fn events_ready(&self) -> (ready: Option<UiEventsReady>)
        ensures
            ready is Some <==> self@.events.len() > 0,
    {
        if self.event_buffer.len() > 0 {
            Some(UiEventsReady)
        } else {
            None
        }
    }

    /// A callback is done: it either announces a window's next frame, or ends a round trip. The
    /// frame is drawn if there is a buffer to draw into, and is damage-driven.
    pub fn on_callback_done(&mut self, object: Option<ObjectId>) -> (outcome: CallbackOutcome)
        requires
            old(self)@.wf(),
        ensures
            outcome == old(self)@.callback_outcome(object),
            final(self)@ == old(self)@.after_callback(object),
            final(self)@.wf(),
    {
        let c: ObjectId = match object {
            Some(c) => c,
            None => {
                return CallbackOutcome::Nothing;
            },
        };
        let announced = self.frame_callbacks.remove(&c);
        assert(self@.frame_callbacks =~= old(self)@.frame_callbacks.remove(c));
        match announced {
            Some(id) => {
                let released: bool = match self.windows.get(&id.0) {
                    Some(w) => w.status.back_released,
                    None => false,
                };
                if released {
                    CallbackOutcome::Render(RenderRequest { window: id, force_full: false })
                } else {
                    CallbackOutcome::Nothing
                }
            },
            None => CallbackOutcome::FlushPending,
        }
    }

    /// The compositor gave `buffer` back: every window is told, in no particular order, for the
    /// manager does not know whose it is.
    pub fn on_buffer_release(&self, buffer: ObjectId) -> (releases: Vec<BufferRelease>)
        ensures
            releases@.no_duplicates(),
            forall|r: BufferRelease| #[trigger]
                releases@.contains(r) <==> r.buffer == buffer && self@.live(r.window),
    {
        let keys = keys_of(&self.windows);
        let mut releases: Vec<BufferRelease> = Vec::new();
        let mut i: usize = 0;
        while i < keys.len()
            invariant
                0 <= i <= keys@.len(),
                releases@ == keys@.take(i as int).map_values(
                    |k: u32| BufferRelease { window: WindowId(k), buffer },
                ),
            decreases keys@.len() - i,
        {
            releases.push(BufferRelease { window: WindowId(keys[i]), buffer });
            i = i + 1;
            assert(keys@.take(i as int) =~= keys@.take(i - 1).push(keys@[i - 1]));
        }
        proof {
            assert(keys@.take(i as int) =~= keys@);
            assert forall|r: BufferRelease| #[trigger] releases@.contains(r) <==> r.buffer == buffer
                && self@.live(r.window) by {
                assert(keys@.to_set().contains(r.window.0) <==> self@.live(r.window));
                if releases@.contains(r) {
                    let j = choose|j: int| 0 <= j < releases@.len() && releases@[j] == r;
                    assert(keys@[j] == r.window.0);
                }
                if r.buffer == buffer && keys@.contains(r.window.0) {
                    let j = choose|j: int| 0 <= j < keys@.len() && keys@[j] == r.window.0;
                    assert(releases@[j] == r);
                }
            }
        }
        releases
    }

    /// The serial to answer the shell's ping with.
    pub fn on_ping(&self, serial: u32) -> (pong: u32)
        ensures
            pong == serial,
    {
        serial
    }
}

/// Once the pointer has left, further pointer events go nowhere until it enters again; the same
/// for the keyboard.
pub proof fn nothing_after_leaving<R, E>(v: ManagerView<R, E>)
    ensures
        v.after_pointer(FocusEvent::Leave).pointer_target(FocusEvent::Other) is None,
        v.after_pointer(FocusEvent::Leave).pointer_target(FocusEvent::Leave) is None,
        v.after_keyboard(FocusEvent::Leave).keyboard_target(FocusEvent::Other) is None,
        v.after_keyboard(FocusEvent::Leave).keyboard_target(FocusEvent::Leave) is None,
{
}

/// Until the next enter or leave, events go where the enter event went, and so does the leave
/// event that ends the stay.
pub proof fn focus_stays<R, E>(v: ManagerView<R, E>, surface: ObjectId)
    ensures
        ({
            let enter = FocusEvent::Enter { surface };
            let p = v.after_pointer(enter);
            let k = v.after_keyboard(enter);
            &&& p.pointer_target(FocusEvent::Other) == v.pointer_target(enter)
            &&& p.after_pointer(FocusEvent::Other) == p
            &&& p.pointer_target(FocusEvent::Leave) == v.pointer_target(enter)
            &&& k.keyboard_target(FocusEvent::Other) == v.keyboard_target(enter)
            &&& k.after_keyboard(FocusEvent::Other) == k
            &&& k.keyboard_target(FocusEvent::Leave) == v.keyboard_target(enter)
        }),
{
}

/// A touch point belongs to the window that it went down on: its motion and its end go there.
pub proof fn touch_follows_its_window<R, E>(v: ManagerView<R, E>, surface: ObjectId, id: i32)
    requires
        v.wl_surfaces.contains_key(surface),
    ensures
        ({
            let down = TouchEvent::Down { surface: Some(surface), id };
            let d = v.after_touch(down);
            &&& d.touch_targets(TouchEvent::Motion { id }) == v.touch_targets(down)
            &&& d.touch_targets(TouchEvent::Up { id }) == v.touch_targets(down)
        }),
{
}

/// A touch point keeps its window through every event but its own next down or up and a cancel.
pub proof fn other_touches_do_not_interfere(
    touches: Map<i32, WindowId>,
    event: TouchEvent,
    surfaces: Map<u32, WindowId>,
    id: i32,
)
    requires
        touches.contains_key(id),
        !(event is Cancel),
        event matches TouchEvent::Up { id: other } ==> other != id,
        event matches TouchEvent::Down { surface, id: other } ==> other != id,
    ensures
        touches_after(touches, event, surfaces).contains_key(id),
        touches_after(touches, event, surfaces)[id] == touches[id],
{
}

/// A touch point that was lifted, or cancelled with all the others, is gone: its motion goes
/// nowhere.
pub proof fn ended_touch_is_gone<R, E>(v: ManagerView<R, E>, id: i32)
    ensures
        v.after_touch(TouchEvent::Up { id }).touch_targets(TouchEvent::Motion { id })
            == Set::<WindowId>::empty(),
        v.after_touch(TouchEvent::Cancel).touch_targets(TouchEvent::Motion { id })
            == Set::<WindowId>::empty(),
        v.after_touch(TouchEvent::Cancel).touch_targets(TouchEvent::Frame)
            == Set::<WindowId>::empty(),
{
    let up = v.after_touch(TouchEvent::Up { id });
    let cancelled = v.after_touch(TouchEvent::Cancel);
    assert(up.touch_targets(TouchEvent::Motion { id }) =~= Set::<WindowId>::empty());
    assert(cancelled.touch_targets(TouchEvent::Motion { id }) =~= Set::<WindowId>::empty());
    assert(cancelled.touches.values() =~= Set::<WindowId>::empty());
    assert(cancelled.touch_targets(TouchEvent::Frame) =~= Set::<WindowId>::empty());
}

/// A window that does not exist is sent nothing and drawn never, whatever still refers to it.
pub proof fn absent_window_gets_nothing<R, E>(
    v: ManagerView<R, E>,
    w: WindowId,
    focus: FocusEvent,
    touch: TouchEvent,
    object: Option<ObjectId>,
)
    requires
        !v.live(w),
    ensures
        v.pointer_target(focus) != Some(w),
        v.keyboard_target(focus) != Some(w),
        !v.touch_targets(touch).contains(w),
        v.callback_outcome(object) != CallbackOutcome::Render(
            RenderRequest { window: w, force_full: false },
        ),
        !v.due(w),
{
}

/// A frame callback announces one frame: once done, it announces none any more.
pub proof fn callback_fires_once<R, E>(v: ManagerView<R, E>, c: ObjectId)
    ensures
        !v.after_callback(Some(c)).frame_callbacks.contains_key(c),
        !(v.after_callback(Some(c)).callback_outcome(Some(c)) is Render),
{
}

/// When the only callback of a window is done, no frame of it is under way any more.
pub proof fn callback_ends_the_wait<R, E>(v: ManagerView<R, E>, w: WindowId, c: ObjectId)
    requires
        forall|other: u32| #[trigger]
            v.frame_callbacks.contains_key(other) && v.frame_callbacks[other] == w ==> other == c,
    ensures
        !v.after_callback(Some(c)).frame_in_flight(w),
{
    let after = v.after_callback(Some(c));
    if after.frame_in_flight(w) {
        let other = choose|other: u32| #[trigger]
            after.frame_callbacks.contains_key(other) && after.frame_callbacks[other] == w;
        assert(v.frame_callbacks.contains_key(other));
    }
}

/// A repaint that a finished callback calls for is of a window with a buffer to draw into.
pub proof fn callback_draws_released_windows<R, E>(
    v: ManagerView<R, E>,
    object: Option<ObjectId>,
    request: RenderRequest,
)
    requires
        v.callback_outcome(object) == CallbackOutcome::Render(request),
    ensures
        v.live(request.window),
        v.windows[request.window.0].status.back_released,
        !request.force_full,
{
}

/// Each device is got, once, exactly if the seat offers it and it was not got before, whatever
/// holds of the other devices.
pub proof fn offered_devices_are_got_once(globals: Globals, offered: SeatCapabilities)
    ensures
        ({
            let devices = devices_to_get(globals, offered);
            &&& devices.contains(SeatDevice::Pointer) <==> offered.pointer && !globals.pointer
            &&& devices.contains(SeatDevice::Keyboard) <==> offered.keyboard && !globals.keyboard
            &&& devices.contains(SeatDevice::Touch) <==> offered.touch && !globals.touch
            &&& devices.no_duplicates()
        }),
{
    let devices = devices_to_get(globals, offered);
    let p: int = if offered.pointer && !globals.pointer {
        1
    } else {
        0
    };
    let k: int = if offered.keyboard && !globals.keyboard {
        1
    } else {
        0
    };
    let t: int = if offered.touch && !globals.touch {
        1
    } else {
        0
    };
    assert(devices.len() == p + k + t);
    assert(p == 1 ==> devices[0] == SeatDevice::Pointer);
    assert(k == 1 ==> devices[p] == SeatDevice::Keyboard);
    assert(t == 1 ==> devices[p + k] == SeatDevice::Touch);
    assert forall|i: int| 0 <= i < devices.len() implies {
        &&& (#[trigger] devices[i]) == SeatDevice::Pointer <==> p == 1 && i == 0
        &&& devices[i] == SeatDevice::Keyboard <==> k == 1 && i == p
        &&& devices[i] == SeatDevice::Touch <==> t == 1 && i == p + k
    } by {}
}

/// A device counts as got exactly if it did before or is among those that are got now, and no
/// global is bound or lost on the way.
pub proof fn devices_count_as_got_when_they_are(globals: Globals, offered: SeatCapabilities)
    ensures
        ({
            let after = with_devices(globals, offered);
            let devices = devices_to_get(globals, offered);
            &&& after.pointer <==> globals.pointer || devices.contains(SeatDevice::Pointer)
            &&& after.keyboard <==> globals.keyboard || devices.contains(SeatDevice::Keyboard)
            &&& after.touch <==> globals.touch || devices.contains(SeatDevice::Touch)
            &&& after.compositor == globals.compositor && after.layer_shell == globals.layer_shell
            &&& after.output == globals.output && after.xdg_wm_base == globals.xdg_wm_base
            &&& after.dmabuf == globals.dmabuf && after.seat == globals.seat
        }),
{
    offered_devices_are_got_once(globals, offered);
}

/// Asked again with the same offer, the seat has no device left to get.
pub proof fn second_offer_brings_nothing(globals: Globals, offered: SeatCapabilities)
    ensures
        devices_to_get(with_devices(globals, offered), offered).len() == 0,
{
}

/// Two interfaces are never bound as the same global, and each global is bound under its own
/// interface.
pub proof fn interfaces_and_globals_correspond(a: Seq<char>, b: Seq<char>)
    ensures
        global_named(a) is Some && global_named(a) == global_named(b) ==> a == b,
        global_named("wl_compositor"@) == Some(Global::Compositor),
        global_named("zwlr_layer_shell_v1"@) == Some(Global::LayerShell),
        global_named("wl_output"@) == Some(Global::Output),
        global_named("xdg_wm_base"@) == Some(Global::XdgWmBase),
        global_named("zwp_linux_dmabuf_v1"@) == Some(Global::Dmabuf),
        global_named("wl_seat"@) == Some(Global::Seat),
{
    reveal_strlit("wl_compositor");
    reveal_strlit("zwlr_layer_shell_v1");
    reveal_strlit("wl_output");
    reveal_strlit("xdg_wm_base");
    reveal_strlit("zwp_linux_dmabuf_v1");
    reveal_strlit("wl_seat");
    assert("wl_compositor"@.len() == 13);
    assert("wl_output"@.len() == 9);
    assert("xdg_wm_base"@.len() == 11);
    assert("wl_seat"@.len() == 7);
    assert("zwlr_layer_shell_v1"@.len() == 19);
    assert("zwp_linux_dmabuf_v1"@.len() == 19);
    assert("zwlr_layer_shell_v1"@[2] != "zwp_linux_dmabuf_v1"@[2]);
}

/// Binding a global marks that one as bound and no other, and leaves the devices alone.
pub proof fn binding_marks_one_global(globals: Globals, global: Global)
    ensures
        ({
            let after = with_global(globals, global);
            &&& after.compositor <==> globals.compositor || global is Compositor
            &&& after.layer_shell <==> globals.layer_shell || global is LayerShell
            &&& after.output <==> globals.output || global is Output
            &&& after.xdg_wm_base <==> globals.xdg_wm_base || global is XdgWmBase
            &&& after.dmabuf <==> globals.dmabuf || global is Dmabuf
            &&& after.seat <==> globals.seat || global is Seat
            &&& after.pointer == globals.pointer && after.keyboard == globals.keyboard
                && after.touch == globals.touch
        }),
{
}

/// An enter event goes to the window of the surface that it names, if that window exists, and
/// leaves the focus on the window of the surface; on no window, if the surface is not known.
pub proof fn entering_goes_to_the_surfaces_window<R, E>(
    v: ManagerView<R, E>,
    surface: ObjectId,
    w: WindowId,
)
    ensures
        ({
            let enter = FocusEvent::Enter { surface };
            let known = v.wl_surfaces.contains_key(surface) && v.wl_surfaces[surface] == w;
            &&& v.pointer_target(enter) == Some(w) <==> known && v.windows.contains_key(w.0)
            &&& v.keyboard_target(enter) == Some(w) <==> known && v.windows.contains_key(w.0)
            &&& v.after_pointer(enter).pointer == Some(w) <==> known
            &&& v.after_keyboard(enter).keyboard == Some(w) <==> known
        }),
{
}

/// A leave event goes to the window that had the focus, if it exists, and leaves the focus nowhere;
/// any other event goes to that window too and leaves the focus where it is.
pub proof fn other_events_go_to_the_focus<R, E>(v: ManagerView<R, E>, w: WindowId)
    ensures
        v.pointer_target(FocusEvent::Leave) == Some(w) <==> v.pointer == Some(w)
            && v.windows.contains_key(w.0),
        v.pointer_target(FocusEvent::Other) == Some(w) <==> v.pointer == Some(w)
            && v.windows.contains_key(w.0),
        v.keyboard_target(FocusEvent::Leave) == Some(w) <==> v.keyboard == Some(w)
            && v.windows.contains_key(w.0),
        v.keyboard_target(FocusEvent::Other) == Some(w) <==> v.keyboard == Some(w)
            && v.windows.contains_key(w.0),
        v.after_pointer(FocusEvent::Leave).pointer is None,
        v.after_keyboard(FocusEvent::Leave).keyboard is None,
        v.after_pointer(FocusEvent::Other).pointer == v.pointer,
        v.after_keyboard(FocusEvent::Other).keyboard == v.keyboard,
{
}

/// An event of one device changes what is known of that device and nothing else.
pub proof fn events_change_their_own_device_only<R, E>(
    v: ManagerView<R, E>,
    focus: FocusEvent,
    touch: TouchEvent,
    object: Option<ObjectId>,
)
    ensures
        v.after_pointer(focus) == (ManagerView {
            pointer: v.after_pointer(focus).pointer,
            ..v
        }),
        v.after_keyboard(focus) == (ManagerView {
            keyboard: v.after_keyboard(focus).keyboard,
            ..v
        }),
        v.after_touch(touch) == (ManagerView { touches: v.after_touch(touch).touches, ..v }),
        v.after_callback(object) == (ManagerView {
            frame_callbacks: v.after_callback(object).frame_callbacks,
            ..v
        }),
{
}

/// A touch that goes down on a known surface belongs to that surface's window and its event goes
/// there; on another surface, or on none, it goes nowhere and changes nothing.
pub proof fn touch_goes_down_on_its_window<R, E>(
    v: ManagerView<R, E>,
    surface: ObjectId,
    id: i32,
    other: i32,
    w: WindowId,
)
    ensures
        ({
            let down = TouchEvent::Down { surface: Some(surface), id };
            let gone = TouchEvent::Down { surface: None, id };
            let after = v.after_touch(down).touches;
            let known = v.wl_surfaces.contains_key(surface);
            &&& v.touch_targets(down).contains(w) <==> known && v.wl_surfaces[surface] == w
                && v.windows.contains_key(w.0)
            &&& known ==> after.contains_key(id) && after[id] == v.wl_surfaces[surface]
            &&& known && other != id ==> (after.contains_key(other) <==> v.touches.contains_key(
                other,
            ))
            &&& known && other != id && v.touches.contains_key(other) ==> after[other]
                == v.touches[other]
            &&& !known ==> after == v.touches
            &&& !v.touch_targets(gone).contains(w)
            &&& v.after_touch(gone).touches == v.touches
        }),
{
}

/// The motion and the end of a touch go to the window that it belongs to, if that window exists.
/// Its end takes that touch away and no other; its motion takes none away.
pub proof fn touch_moves_and_ends_on_its_window<R, E>(
    v: ManagerView<R, E>,
    id: i32,
    other: i32,
    w: WindowId,
)
    ensures
        ({
            let up = TouchEvent::Up { id };
            let motion = TouchEvent::Motion { id };
            let its = v.touches.contains_key(id) && v.touches[id] == w && v.windows.contains_key(
                w.0,
            );
            &&& v.touch_targets(up).contains(w) <==> its
            &&& v.touch_targets(motion).contains(w) <==> its
            &&& v.after_touch(motion).touches == v.touches
            &&& !v.after_touch(up).touches.contains_key(id)
            &&& other != id ==> (v.after_touch(up).touches.contains_key(other)
                <==> v.touches.contains_key(other))
            &&& other != id && v.touches.contains_key(other) ==> v.after_touch(up).touches[other]
                == v.touches[other]
        }),
{
}

/// A frame and a cancel of touches go to every window that exists and has a touch on it, and to no
/// other; a cancel takes every touch away, a frame none.
pub proof fn frame_and_cancel_go_to_every_touched_window<R, E>(
    v: ManagerView<R, E>,
    w: WindowId,
    id: i32,
)
    ensures
        v.touch_targets(TouchEvent::Frame).contains(w) <==> v.windows.contains_key(w.0) && exists|
            t: i32,
        | #[trigger]
            v.touches.contains_key(t) && v.touches[t] == w,
        v.touch_targets(TouchEvent::Cancel).contains(w) <==> v.windows.contains_key(w.0) && exists|
            t: i32,
        | #[trigger]
            v.touches.contains_key(t) && v.touches[t] == w,
        v.after_touch(TouchEvent::Frame).touches == v.touches,
        !v.after_touch(TouchEvent::Cancel).touches.contains_key(id),
        !v.touch_targets(TouchEvent::Other).contains(w),
        v.after_touch(TouchEvent::Other).touches == v.touches,
{
}

/// A callback that is done draws its window, damage-driven, exactly if it was out for that window
/// and the window exists with its back buffer; it lets the pending windows be registered exactly if
/// it was out for none; and one that is gone does nothing.
pub proof fn callbacks_draw_or_flush<R, E>(v: ManagerView<R, E>, c: ObjectId, w: WindowId)
    ensures
        v.callback_outcome(Some(c)) == CallbackOutcome::Render(
            RenderRequest { window: w, force_full: false },
        ) <==> v.frame_callbacks.contains_key(c) && v.frame_callbacks[c] == w
            && v.windows.contains_key(w.0) && v.windows[w.0].status.back_released,
        v.callback_outcome(Some(c)) != CallbackOutcome::Render(
            RenderRequest { window: w, force_full: true },
        ),
        v.callback_outcome(Some(c)) is FlushPending <==> !v.frame_callbacks.contains_key(c),
        v.callback_outcome(None) is Nothing,
{
}

/// A callback that is done is out no more, and every other one is out as before.
pub proof fn done_callback_is_out_no_more<R, E>(v: ManagerView<R, E>, c: ObjectId, other: u32)
    ensures
        ({
            let after = v.after_callback(Some(c)).frame_callbacks;
            &&& !after.contains_key(c)
            &&& other != c ==> (after.contains_key(other) <==> v.frame_callbacks.contains_key(other))
            &&& other != c && v.frame_callbacks.contains_key(other) ==> after[other]
                == v.frame_callbacks[other]
            &&& v.after_callback(None).frame_callbacks == v.frame_callbacks
        }),
{
}

/// A global is bound under the name and in the version that it appeared with.
pub proof fn globals_are_bound_as_they_appear(interface: Seq<char>, name: u32, version: u32)
    ensures
        bind_of(interface, name, version) is Some <==> global_named(interface) is Some,
        bind_of(interface, name, version) matches Some(b) ==> b.name == name && b.version == version
            && global_named(interface) == Some(b.global),
{
}

} // verus!
