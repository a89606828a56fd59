use mecha_wayland::lockscreen::{
    control_settings, ClickOutcome, LockEvent, LockGlobal, LockRequest, LockRole, LockScreen,
    SessionLock, LOCK_RED, PANEL_GREEN,
};
use mecha_wayland::manager::{ConfigureStep, RenderRequest, WindowManager};
use mecha_wayland::renderer::Renderer;
use mecha_wayland::routing::FocusEvent;
use mecha_wayland::window::{
    ColorBits, UiKind, WindowHandle, WindowId, WindowKind, WindowSettings, WindowSpec,
    WindowStatus,
};

type Manager = WindowManager<LockRole<&'static str>, ()>;

/// The kind of a window without widgets.
const UNIT: UiKind = UiKind(0);

const BLACK: ColorBits = ColorBits { r: 0, g: 0, b: 0, a: 0 };

const STATUS: WindowStatus = WindowStatus {
    configured: false,
    needs_render: false,
    back_released: false,
    wants_input: true,
    input_enabled: true,
    width: 0,
    height: 0,
};

/// Spawn a window with an ordinary shell role.
fn spawn(wm: &mut Manager, surface: u32) -> WindowId {
    let role = LockRole::Shell("xdg");
    let (handle, _): (WindowHandle<()>, WindowSpec<u8, u8>) =
        wm.spawn_window_with(0, 0, BLACK, UNIT, None, None, surface, role, STATUS);
    handle.id()
}

/// Lock over the surface `surface`, with lock 70 and lock surface 71.
fn lock(s: &mut LockScreen, wm: &mut Manager, surface: u32) -> WindowSpec<u8, u8> {
    s.lock(wm, BLACK, UNIT, None, None, surface, 70, 71, STATUS)
}

/// The lock that a role is.
fn lock_of(role: &LockRole<&'static str>) -> SessionLock {
    match role {
        LockRole::Lock(lock) => *lock,
        LockRole::Shell(shell) => panic!("{}", shell),
    }
}

#[test]
fn globals_are_bound_as_they_appear() {
    let mut s = LockScreen::new(WindowId(0));
    assert_eq!(
        s.on_registry(&"ext_session_lock_manager_v1".to_string()),
        Some(LockGlobal::SessionLockManager)
    );
    assert_eq!(s.on_registry(&"wl_output".to_string()), Some(LockGlobal::Output));
    assert_eq!(s.on_registry(&"wl_output".to_string()), None);
    assert_eq!(s.on_registry(&"wl_seat".to_string()), None);
    assert!(s.manager && s.output);
}

#[test]
fn a_session_is_locked_and_unlocked_by_clicks() {
    let mut wm: Manager = WindowManager::new(Renderer::new());
    let control = spawn(&mut wm, 10);
    let mut s = LockScreen::new(control);
    wm.on_pointer_event(FocusEvent::Enter { surface: 10 });
    // Nothing to lock with yet.
    assert_eq!(s.on_pointer(&mut wm, true, 0x110).0, ClickOutcome::Nothing);
    s.on_registry(&"ext_session_lock_manager_v1".to_string());
    s.on_registry(&"wl_output".to_string());
    assert_eq!(s.on_pointer(&mut wm, true, 0x111).0, ClickOutcome::Nothing);
    assert_eq!(s.on_pointer(&mut wm, false, 0x110).0, ClickOutcome::Nothing);
    assert_eq!(s.on_pointer(&mut wm, true, 0x110).0, ClickOutcome::Lock);
    let spec = lock(&mut s, &mut wm, 11);
    assert_eq!((spec.id, spec.width, spec.height), (WindowId(1), 0, 0));
    assert_eq!(s.lock_window, Some(spec.id));
    // The control window no longer locks.
    assert_eq!(s.on_pointer(&mut wm, true, 0x110).0, ClickOutcome::Nothing);
    wm.on_pointer_event(FocusEvent::Enter { surface: 11 });
    let (outcome, gone) = s.on_pointer(&mut wm, true, 0x110);
    assert_eq!(outcome, ClickOutcome::Unlock(spec.id));
    let gone = gone.unwrap();
    assert_eq!(gone.surface, 11);
    let role = SessionLock { lock: 70, lock_surface: 71, locked: false };
    assert_eq!(lock_of(&gone.role), role);
    assert_eq!(s.lock_window, None);
    assert_eq!(wm.window_dimensions(spec.id), None);
    assert_eq!(wm.window_dimensions(control), Some((0, 0)));
}

#[test]
fn a_confirmed_lock_is_ended_by_unlocking() {
    let mut wm: Manager = WindowManager::new(Renderer::new());
    let mut s = LockScreen::new(WindowId(9));
    assert!(s.on_lock(&mut wm, LockEvent::Locked).is_none());
    let w = lock(&mut s, &mut wm, 10).id;
    assert_eq!(
        lock_of(wm.surface_mut(w).unwrap()).destroy(),
        vec![
            LockRequest::DestroyLock { lock: 70 },
            LockRequest::DestroyLockSurface { lock_surface: 71 },
        ]
    );
    assert!(s.on_lock(&mut wm, LockEvent::Locked).is_none());
    assert_eq!(
        lock_of(wm.surface_mut(w).unwrap()).destroy(),
        vec![
            LockRequest::UnlockAndDestroy { lock: 70 },
            LockRequest::DestroyLockSurface { lock_surface: 71 },
        ]
    );
    let gone = s.on_lock(&mut wm, LockEvent::Finished).unwrap();
    assert!(lock_of(&gone.role).locked);
    assert_eq!(s.lock_window, None);
    assert_eq!(wm.window_dimensions(w), None);
    assert!(s.on_lock(&mut wm, LockEvent::Finished).is_none());
}

#[test]
fn a_shell_role_is_not_confirmed() {
    let mut wm: Manager = WindowManager::new(Renderer::new());
    let shell = spawn(&mut wm, 10);
    let mut s = LockScreen::new(WindowId(9));
    let lock_window = lock(&mut s, &mut wm, 11).id;
    s.lock_window = Some(shell);
    assert!(s.on_lock(&mut wm, LockEvent::Locked).is_none());
    assert!(matches!(wm.surface_mut(shell), Some(LockRole::Shell("xdg"))));
    assert!(!lock_of(wm.surface_mut(lock_window).unwrap()).locked);
}

#[test]
fn the_lock_window_is_configured() {
    let mut wm: Manager = WindowManager::new(Renderer::new());
    let mut s = LockScreen::new(WindowId(9));
    assert!(s.on_configure(&wm, 5, 800, 600).is_empty());
    wm.on_registry_global(&"zwp_linux_dmabuf_v1".to_string(), 1, 1);
    let w = lock(&mut s, &mut wm, 10).id;
    assert_eq!(
        s.on_configure(&wm, 5, 800, 600),
        vec![
            ConfigureStep::Acknowledge { window: w, serial: 5 },
            ConfigureStep::Resize { window: w, width: 800, height: 600 },
            ConfigureStep::Render(RenderRequest { window: w, force_full: true }),
        ]
    );
    assert_eq!(
        lock_of(wm.surface_mut(w).unwrap()).ack_configure(5),
        LockRequest::AckConfigure { lock_surface: 71, serial: 5 }
    );
}

#[test]
fn the_control_window_says_what_it_is_for() {
    let settings: WindowSettings<u8, u8> = control_settings(BLACK);
    assert_eq!((settings.width, settings.height), (400, 300));
    let title = "lock control \u{2014} click to lock";
    assert!(matches!(settings.kind, WindowKind::Xdg { title: t } if t == title));
    assert!(!settings.color_texture);
    assert_eq!(PANEL_GREEN, (36 << 16) | (92 << 8) | 56);
    assert_eq!(LOCK_RED, (120 << 16) | (34 << 8) | 40);
}
