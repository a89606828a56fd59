//! A lock screen: a control window that locks the session when clicked, and a lock window that
//! unlocks it when clicked.

use vstd::prelude::*;

use crate::counter::{Rgb, BTN_LEFT};
use crate::manager::{ConfigureStep, ManagerView, WindowManager};
use crate::window::{
    ColorBits, ObjectId, UiKind, Window, WindowHandle, WindowId, WindowKind, WindowSettings,
    WindowSpec, WindowStatus,
};

verus! {

/// The colour of the control window.
pub const PANEL_GREEN: Rgb = 0x245C38;

/// The colour of the lock window.
pub const LOCK_RED: Rgb = 0x782228;

/// The role of the lock window. `locked` is set once the compositor has confirmed the lock.
#[derive(Debug, Clone, Copy, PartialEq, Eq, Structural)]
pub struct SessionLock {
    pub lock: ObjectId,
    pub lock_surface: ObjectId,
    pub locked: bool,
}

/// The role of a window of the lock screen: an ordinary shell role `X`, or the session lock.
#[derive(Debug)]
pub enum LockRole<X> {
    Shell(X),
    Lock(SessionLock),
}

/// A request about the lock.
#[derive(Debug, Clone, Copy, PartialEq, Eq, Structural)]
pub enum LockRequest {
    AckConfigure { lock_surface: ObjectId, serial: u32 },
    /// End a lock that was confirmed.
    UnlockAndDestroy { lock: ObjectId },
    /// Give a lock up that was not confirmed.
    DestroyLock { lock: ObjectId },
    DestroyLockSurface { lock_surface: ObjectId },
}

/// A global to bind.
#[derive(Debug, Clone, Copy, PartialEq, Eq, Structural)]
pub enum LockGlobal {
    SessionLockManager,
    Output,
}

/// What the compositor says of the lock.
#[derive(Debug, Clone, Copy, PartialEq, Eq, Structural)]
pub enum LockEvent {
    Locked,
    Finished,
}

/// What a click calls for.
#[derive(Debug, Clone, Copy, PartialEq, Eq, Structural)]
pub enum ClickOutcome {
    Nothing,
    /// Create a surface, a lock and a lock surface for [`LockScreen::lock`].
    Lock,
    /// The lock window was given up: release its role and buffers.
    Unlock(WindowId),
}

#[derive(Debug, Clone, Copy, PartialEq, Eq, Structural)]
pub struct LockScreen {
    pub control: WindowId,
    pub manager: bool,
    pub output: bool,
    pub lock_window: Option<WindowId>,
}

impl SessionLock {
    /// The requests that release the role: a confirmed lock is ended by unlocking.
    pub open spec fn release(self) -> Seq<LockRequest> {
        seq![
            if self.locked {
                LockRequest::UnlockAndDestroy { lock: self.lock }
            } else {
                LockRequest::DestroyLock { lock: self.lock }
            },
            LockRequest::DestroyLockSurface { lock_surface: self.lock_surface },
        ]
    }

    pub fn ack_configure(&self, serial: u32) -> (request: LockRequest)
        ensures
            request == (LockRequest::AckConfigure { lock_surface: self.lock_surface, serial }),
    {
        LockRequest::AckConfigure { lock_surface: self.lock_surface, serial }
    }

    pub fn destroy(&self) -> (requests: Vec<LockRequest>)
        ensures
            requests@ == self.release(),
    {
        let first: LockRequest = if self.locked {
            LockRequest::UnlockAndDestroy { lock: self.lock }
        } else {
            LockRequest::DestroyLock { lock: self.lock }
        };
        vec![first, LockRequest::DestroyLockSurface { lock_surface: self.lock_surface }]
    }
}

/// The global that the lock screen binds under an interface name. Of several outputs it takes the
/// first.
pub open spec fn lock_global_named(interface: Seq<char>, output: bool) -> Option<LockGlobal> {
    if interface == "ext_session_lock_manager_v1"@ {
        Some(LockGlobal::SessionLockManager)
    } else if interface == "wl_output"@ && !output {
        Some(LockGlobal::Output)
    } else {
        None
    }
}

impl LockScreen {
    /// What a press of `button` calls for, when the pointer is over `target`.
    pub open spec fn click_outcome(
        self,
        pressed: bool,
        button: u32,
        target: Option<WindowId>,
    ) -> ClickOutcome {
        if !pressed || button != BTN_LEFT {
            ClickOutcome::Nothing
        } else {
            match (self.lock_window, target) {
                (None, Some(w)) => if w == self.control && self.manager && self.output {
                    ClickOutcome::Lock
                } else {
                    ClickOutcome::Nothing
                },
                (Some(l), Some(w)) => if w == l {
                    ClickOutcome::Unlock(l)
                } else {
                    ClickOutcome::Nothing
                },
                _ => ClickOutcome::Nothing,
            }
        }
    }

    /// A lock screen over its control window, with nothing bound and nothing locked.
    pub fn new(control: WindowId) -> (s: LockScreen)
        ensures
            s == (LockScreen { control, manager: false, output: false, lock_window: None }),
    {
        LockScreen { control, manager: false, output: false, lock_window: None }
    }

    /// A global appeared: what to bind it as, if at all.
    pub fn on_registry(&mut self, interface: &String) -> (bind: Option<LockGlobal>)
        ensures
            bind == lock_global_named(interface@, old(self).output),
            *final(self) == (LockScreen {
                manager: old(self).manager || bind == Some(LockGlobal::SessionLockManager),
                output: old(self).output || bind == Some(LockGlobal::Output),
                ..*old(self)
            }),
    {
        if *interface == "ext_session_lock_manager_v1".to_string() {
            self.manager = true;
            Some(LockGlobal::SessionLockManager)
        } else if *interface == "wl_output".to_string() && !self.output {
            self.output = true;
            Some(LockGlobal::Output)
        } else {
            None
        }
    }

    /// A button changed over the window that the manager takes the pointer to be in. A click on
    /// the lock window destroys it, and what the manager knew of it comes back.
    pub fn on_pointer<X, E>(
        &mut self,
        wm: &mut WindowManager<LockRole<X>, E>,
        pressed: bool,
        button: u32,
    ) -> (r: (ClickOutcome, Option<Window<LockRole<X>>>))
        requires
            old(wm)@.wf(),
        ensures
            r.0 == old(self).click_outcome(pressed, button, old(wm)@.pointer),
            match r.0 {
                ClickOutcome::Unlock(w) => {
                    &&& *final(self) == (LockScreen { lock_window: None, ..*old(self) })
                    &&& final(wm)@ == old(wm)@.without(w)
                    &&& r.1 == (if old(wm)@.live(w) {
                        Some(old(wm)@.windows[w.0])
                    } else {
                        None
                    })
                },
                _ => *final(self) == *old(self) && final(wm)@ == old(wm)@ && r.1 is None,
            },
            final(wm)@.wf(),
    {
        if !pressed || button != BTN_LEFT {
            return (ClickOutcome::Nothing, None);
        }
        let target: WindowId = match wm.current_pointer_window() {
            Some(w) => w,
            None => {
                return (ClickOutcome::Nothing, None);
            },
        };
        match self.lock_window {
            None => if target == self.control && self.manager && self.output {
                (ClickOutcome::Lock, None)
            } else {
                (ClickOutcome::Nothing, None)
            },
            Some(l) => if target == l {
                let gone = wm.destroy(l);
                self.lock_window = None;
                (ClickOutcome::Unlock(l), gone)
            } else {
                (ClickOutcome::Nothing, None)
            },
        }
    }

    /// Spawn the lock window over a surface, a lock and a lock surface that were just created, and
    /// remember it. Its size is the compositor's to say; the lock is not confirmed yet.
    pub fn lock<X, E, T, G>(
        &mut self,
        wm: &mut WindowManager<LockRole<X>, E>,
        clear_color: ColorBits,
        ui: UiKind,
        ui_touch_config: Option<T>,
        ui_gesture_config: Option<G>,
        surface: ObjectId,
        lock: ObjectId,
        lock_surface: ObjectId,
        status: WindowStatus,
    ) -> (spec: WindowSpec<T, G>)
        requires
            old(wm)@.wf(),
            old(wm)@.next_window < u32::MAX,
        ensures
            *final(self) == (LockScreen {
                lock_window: Some(WindowId(old(wm)@.next_window)),
                ..*old(self)
            }),
            final(wm)@ == old(wm)@.with_window(
                Window {
                    surface,
                    role: LockRole::Lock(SessionLock { lock, lock_surface, locked: false }),
                    ui,
                    status,
                },
            ),
            final(wm)@.wf(),
            spec == (WindowSpec {
                id: WindowId(old(wm)@.next_window),
                width: 0,
                height: 0,
                clear_color,
                touch_config: ui_touch_config,
                gesture_config: ui_gesture_config,
                color_texture: false,
            }),
    {
        let role = LockRole::Lock(SessionLock { lock, lock_surface, locked: false });
        let (handle, spec): (WindowHandle<()>, WindowSpec<T, G>) = wm.spawn_window_with(
            0,
            0,
            clear_color,
            ui,
            ui_touch_config,
            ui_gesture_config,
            surface,
            role,
            status,
        );
        self.lock_window = Some(handle.id());
        spec
    }

    /// The compositor told the lock surface its size: configure the lock window, if there is one.
    pub fn on_configure<X, E>(
        &self,
        wm: &WindowManager<LockRole<X>, E>,
        serial: u32,
        width: u32,
        height: u32,
    ) -> (steps: Vec<ConfigureStep>)
        requires
            self.lock_window is Some ==> wm@.globals.dmabuf,
        ensures
            steps@ == (match self.lock_window {
                Some(w) => wm@.configure_steps(w, serial, width, height),
                None => Seq::empty(),
            }),
    {
        match self.lock_window {
            Some(w) => wm.configure(w, serial, width, height),
            None => Vec::new(),
        }
    }

    /// The compositor spoke of the lock: a confirmed lock is marked as such, unless the window has
    /// another role than a lock, and a finished one takes its window with it.
    pub fn on_lock<X, E>(
        &mut self,
        wm: &mut WindowManager<LockRole<X>, E>,
        event: LockEvent,
    ) -> (gone: Option<Window<LockRole<X>>>)
        requires
            old(wm)@.wf(),
        ensures
            match event {
                LockEvent::Locked => {
                    &&& gone is None
                    &&& *final(self) == *old(self)
                    &&& final(wm)@ == (match old(self).lock_window {
                        Some(w) => if old(wm)@.live(w) {
                            confirmed(old(wm)@, w)
                        } else {
                            old(wm)@
                        },
                        None => old(wm)@,
                    })
                },
                LockEvent::Finished => {
                    &&& *final(self) == (LockScreen { lock_window: None, ..*old(self) })
                    &&& match old(self).lock_window {
                        Some(w) => {
                            &&& gone == (if old(wm)@.live(w) {
                                Some(old(wm)@.windows[w.0])
                            } else {
                                None
                            })
                            &&& final(wm)@ == old(wm)@.without(w)
                        },
                        None => gone is None && final(wm)@ == old(wm)@,
                    }
                },
            },
            final(wm)@.wf(),
    {
        match event {
            LockEvent::Locked => {
                if let Some(w) = self.lock_window {
                    match wm.surface_mut(w) {
                        Some(LockRole::Lock(role)) => {
                            role.locked = true;
                        },
                        _ => {},
                    }
                }
                None
            },
            LockEvent::Finished => {
                let lock_window = self.lock_window;
                self.lock_window = None;
                match lock_window {
                    Some(w) => wm.destroy(w),
                    None => None,
                }
            },
        }
    }
}

/// The control window, in the colour `clear_color`.
pub fn control_settings<T, G>(clear_color: ColorBits) -> (settings: WindowSettings<T, G>)
    ensures
        settings.width == 400,
        settings.height == 300,
        settings.clear_color == clear_color,
        settings.kind matches WindowKind::Xdg { title } && title@
            == "lock control — click to lock"@,
        settings.touch_config is None,
        settings.gesture_config is None,
        !settings.color_texture,
{
    WindowSettings {
        width: 400,
        height: 300,
        clear_color,
        kind: WindowKind::Xdg { title: "lock control — click to lock".to_string() },
        touch_config: None,
        gesture_config: None,
        color_texture: false,
    }
}

/// The manager with the lock of window `w` confirmed. A shell role is left alone.
pub open spec fn confirmed<X, E>(v: ManagerView<LockRole<X>, E>, w: WindowId) -> ManagerView<
    LockRole<X>,
    E,
> {
    match v.windows[w.0].role {
        LockRole::Shell(_) => v,
        LockRole::Lock(role) => ManagerView {
            windows: v.windows.insert(
                w.0,
                Window {
                    role: LockRole::Lock(SessionLock { locked: true, ..role }),
                    ..v.windows[w.0]
                },
            ),
            ..v
        },
    }
}

/// Confirming a lock changes no other window, and no window of another role.
pub proof fn confirming_touches_locks_only<X, E>(
    v: ManagerView<LockRole<X>, E>,
    w: WindowId,
    other: u32,
)
    requires
        v.live(w),
        v.windows.contains_key(other),
        other != w.0 || v.windows[other].role is Shell,
    ensures
        confirmed(v, w).windows.contains_key(other),
        confirmed(v, w).windows[other] == v.windows[other],
{
}

/// The session is unlocked only by releasing a lock that was confirmed, and a confirmed lock is
/// never just dropped.
pub proof fn unlocking_needs_confirmation(role: SessionLock)
    ensures
        role.release().contains(LockRequest::UnlockAndDestroy { lock: role.lock }) <==> role.locked,
        role.release().contains(LockRequest::DestroyLock { lock: role.lock }) <==> !role.locked,
{
    assert(role.release()[0] == (if role.locked {
        LockRequest::UnlockAndDestroy { lock: role.lock }
    } else {
        LockRequest::DestroyLock { lock: role.lock }
    }));
}

/// While the session is locked, no click locks it again; while it is not, none unlocks it.
pub proof fn clicks_alternate(
    s: LockScreen,
    pressed: bool,
    button: u32,
    target: Option<WindowId>,
)
    ensures
        s.lock_window is Some ==> !(s.click_outcome(pressed, button, target) is Lock),
        s.lock_window is None ==> !(s.click_outcome(pressed, button, target) is Unlock),
{
}

/// A locked session is unlocked by a click on its lock window, and by that only: with `w` the lock
/// window, a left press calls for unlocking exactly if the pointer is over `w`.
pub proof fn the_lock_window_unlocks(s: LockScreen, w: WindowId, target: Option<WindowId>)
    requires
        s.lock_window == Some(w),
    ensures
        s.click_outcome(true, BTN_LEFT, target) == ClickOutcome::Unlock(w) <==> target == Some(w),
        target != Some(w) ==> s.click_outcome(true, BTN_LEFT, target) is Nothing,
{
}

/// A click locks exactly if it is a left press on the control window while nothing is locked and
/// the session-lock manager and an output are there; it unlocks exactly if it is a left press on
/// the lock window. Anything else does nothing.
pub proof fn clicks_lock_and_unlock_where_they_land(
    s: LockScreen,
    pressed: bool,
    button: u32,
    target: Option<WindowId>,
    w: WindowId,
)
    ensures
        s.click_outcome(pressed, button, target) is Lock <==> pressed && button == 0x110
            && s.lock_window is None && target == Some(s.control) && s.manager && s.output,
        s.click_outcome(pressed, button, target) == ClickOutcome::Unlock(w) <==> pressed && button
            == 0x110 && s.lock_window == Some(w) && target == Some(w),
{
}

/// Releasing a lock makes two requests: one that ends the lock itself, by unlocking exactly if it
/// was confirmed, and then one that destroys its surface.
pub proof fn release_ends_lock_and_surface(role: SessionLock)
    ensures
        role.release().len() == 2,
        role.locked ==> role.release()[0] == (LockRequest::UnlockAndDestroy { lock: role.lock }),
        !role.locked ==> role.release()[0] == (LockRequest::DestroyLock { lock: role.lock }),
        role.release()[1] == (LockRequest::DestroyLockSurface { lock_surface: role.lock_surface }),
{
}

/// The session-lock manager is bound whenever it appears, an output only while there is none, and
/// nothing else is bound.
pub proof fn lock_screen_binds_two_globals(interface: Seq<char>, output: bool)
    ensures
        lock_global_named(interface, output) == Some(LockGlobal::SessionLockManager) <==> interface
            == "ext_session_lock_manager_v1"@,
        lock_global_named("wl_output"@, false) == Some(LockGlobal::Output),
        lock_global_named(interface, output) == Some(LockGlobal::Output) ==> interface
            == "wl_output"@ && !output,
{
    reveal_strlit("ext_session_lock_manager_v1");
    reveal_strlit("wl_output");
    assert("ext_session_lock_manager_v1"@.len() != "wl_output"@.len());
}

/// Confirming marks the lock of the window as locked and changes nothing else: the lock stays over
/// the same objects, and the manager is otherwise as it was.
pub proof fn confirming_only_marks_the_lock<X, E>(v: ManagerView<LockRole<X>, E>, w: WindowId)
    requires
        v.live(w),
        v.windows[w.0].role is Lock,
    ensures
        ({
            let after = confirmed(v, w);
            let role = v.windows[w.0].role->Lock_0;
            &&& after.windows.contains_key(w.0)
            &&& after.windows[w.0].role matches LockRole::Lock(now) && now.locked && now.lock
                == role.lock && now.lock_surface == role.lock_surface
            &&& after.windows[w.0].surface == v.windows[w.0].surface
            &&& after.windows[w.0].status == v.windows[w.0].status
            &&& after.windows[w.0].ui == v.windows[w.0].ui
            &&& after.windows.dom() == v.windows.dom()
            &&& after.wl_surfaces == v.wl_surfaces
            &&& after.roles == v.roles
            &&& after.frame_callbacks == v.frame_callbacks
            &&& after.pointer == v.pointer && after.keyboard == v.keyboard
            &&& after.touches == v.touches
            &&& after.pending == v.pending && after.next_window == v.next_window
        }),
{
    assert(confirmed(v, w).windows.dom() =~= v.windows.dom());
}

} // verus!
