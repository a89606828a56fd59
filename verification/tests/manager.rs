use mecha_wayland::atlas::{AtlasData, AtlasError, AtlasId};
use mecha_wayland::counter::Counter;
use mecha_wayland::manager::{
    ConfigureStep, CreatedWindow, Global, InputRegion, RenderRequest, StartStep, SurfaceRequest,
    WindowManager,
};
use mecha_wayland::renderer::{Renderer, TextureId};
use mecha_wayland::routing::{
    Bind, BufferRelease, CallbackOutcome, FocusEvent, SeatCapabilities, SeatDevice, TouchEvent,
    UiEventsReady,
};
use mecha_wayland::window::{
    ColorBits, UiKind, WindowHandle, WindowId, WindowKind, WindowSettings, WindowSpec,
    WindowStatus,
    ZwlrLayerShellV1Layer, ZwlrLayerSurfaceV1Anchor, ZwlrLayerSurfaceV1KeyboardInteractivity,
};

type Manager = WindowManager<&'static str, String>;

const COUNTER: UiKind = UiKind(1);

const PANEL: UiKind = UiKind(2);

const BLACK: ColorBits = ColorBits { r: 0, g: 0, b: 0, a: 0 };

const STATUS: WindowStatus = WindowStatus {
    configured: false,
    needs_render: false,
    back_released: false,
    wants_input: true,
    input_enabled: true,
    width: 10,
    height: 20,
};

fn manager() -> Manager {
    WindowManager::new(Renderer::new())
}

fn xdg(title: &str) -> WindowSettings<u8, u16> {
    WindowSettings {
        width: 300,
        height: 200,
        clear_color: BLACK,
        kind: WindowKind::Xdg { title: title.to_string() },
        touch_config: None,
        gesture_config: Some(7),
        color_texture: true,
    }
}

fn layer() -> WindowSettings<u8, u16> {
    WindowSettings {
        width: 100,
        height: 30,
        clear_color: BLACK,
        kind: WindowKind::LayerShell {
            layer: ZwlrLayerShellV1Layer::Top,
            anchor: ZwlrLayerSurfaceV1Anchor(5),
            exclusive_zone: 30,
            namespace: "bar".to_string(),
            keyboard_interactivity: ZwlrLayerSurfaceV1KeyboardInteractivity::OnDemand,
        },
        touch_config: None,
        gesture_config: None,
        color_texture: false,
    }
}

/// Spawn a window with surface `surface` and status `status`.
fn window(wm: &mut Manager, surface: u32, status: WindowStatus) -> WindowId {
    let (handle, _): (WindowHandle<Counter>, WindowSpec<u8, u8>) =
        wm.spawn_window_with(1, 1, BLACK, COUNTER, None, None, surface, "role", status);
    handle.id()
}

fn bind(wm: &mut Manager, interface: &str) -> Option<Bind> {
    wm.on_registry_global(&interface.to_string(), 1, 1)
}

#[test]
fn spawning_numbers_windows_and_settles_configurations() {
    let mut wm = manager();
    let (a, spec): (WindowHandle<Counter>, WindowSpec<u8, u16>) =
        wm.spawn_window(xdg("a"), COUNTER, Some(1), Some(2));
    assert_eq!(a.id(), WindowId(0));
    assert_eq!((spec.id, spec.width, spec.height), (WindowId(0), 300, 200));
    assert_eq!((spec.touch_config, spec.gesture_config), (Some(1), Some(7)));
    assert!(spec.color_texture);
    let (b, spec): (WindowHandle<Counter>, WindowSpec<u8, u16>) =
        wm.spawn_window_with(5, 6, BLACK, COUNTER, None, Some(9), 40, "role", STATUS);
    assert_eq!(b.id(), WindowId(1));
    assert_eq!((spec.width, spec.height, spec.color_texture), (5, 6, false));
    assert_eq!((spec.touch_config, spec.gesture_config), (None, Some(9)));
    // The first window has no surface yet.
    assert_eq!(wm.window_dimensions(a.id()), None);
    assert_eq!(wm.window_dimensions(b.id()), Some((10, 20)));
    assert!(a.set(3, &wm).is_none());
    let copy = b.clone();
    let assignment = copy.set(3, &wm).unwrap();
    assert_eq!((assignment.window, assignment.value), (WindowId(1), 3));
}

#[test]
fn handles_reach_windows_of_their_kind_only() {
    let mut first = manager();
    let mut second = manager();
    let (handle, _): (WindowHandle<Counter>, WindowSpec<u8, u8>) =
        first.spawn_window_with(1, 1, BLACK, COUNTER, None, None, 40, "role", STATUS);
    let (other, _): (WindowHandle<()>, WindowSpec<u8, u8>) =
        second.spawn_window_with(1, 1, BLACK, PANEL, None, None, 41, "role", STATUS);
    assert_eq!(handle.id(), other.id());
    assert!(handle.set('x', &first).is_some());
    assert!(handle.set('x', &second).is_none());
    assert!(other.set('x', &second).is_some());
    assert!(other.set('x', &first).is_none());
    first.destroy(handle.id());
    assert!(handle.set('x', &first).is_none());
}

#[test]
fn pending_windows_need_their_globals() {
    let mut wm = manager();
    assert_eq!(wm.missing_global(), None);
    let _: (WindowHandle<()>, _) = wm.spawn_window(xdg("a"), PANEL, None, None);
    let _: (WindowHandle<()>, _) = wm.spawn_window(layer(), PANEL, None, None);
    assert_eq!(wm.missing_global(), Some(Global::Compositor));
    bind(&mut wm, "wl_compositor");
    assert_eq!(wm.missing_global(), Some(Global::XdgWmBase));
    bind(&mut wm, "xdg_wm_base");
    assert_eq!(wm.missing_global(), Some(Global::LayerShell));
    bind(&mut wm, "zwlr_layer_shell_v1");
    assert_eq!(wm.missing_global(), None);
}

#[test]
fn pending_windows_get_surface_and_role() {
    let mut wm = manager();
    bind(&mut wm, "wl_compositor");
    bind(&mut wm, "xdg_wm_base");
    bind(&mut wm, "zwlr_layer_shell_v1");
    let (a, _): (WindowHandle<()>, _) = wm.spawn_window(xdg("title"), PANEL, None, None);
    let (b, _): (WindowHandle<()>, _) = wm.spawn_window(layer(), PANEL, None, None);
    let requests: Vec<String> =
        wm.pending_requests().iter().map(|r| format!("{:?}", r)).collect();
    assert_eq!(
        requests,
        vec![
            "CreateSurface",
            "GetXdgSurface",
            "GetToplevel",
            "SetTitle(\"title\")",
            "Commit",
            "CreateSurface",
            "GetLayerSurface { layer: Top, namespace: \"bar\" }",
            "SetSize { width: 100, height: 30 }",
            "SetAnchor(ZwlrLayerSurfaceV1Anchor(5))",
            "SetExclusiveZone(30)",
            "SetKeyboardInteractivity(OnDemand)",
            "Commit",
        ]
    );
    wm.flush_pending(vec![
        CreatedWindow { surface: 50, role_object: 51, role: "xdg", status: STATUS },
        CreatedWindow { surface: 60, role_object: 61, role: "layer", status: STATUS },
    ]);
    assert_eq!(wm.window_for_role(51), Some(a.id()));
    assert_eq!(a.set(4, &wm).map(|x| (x.window, x.value)), Some((a.id(), 4)));
    assert_eq!(wm.window_for_role(61), Some(b.id()));
    assert_eq!(wm.window_for_role(50), None);
    assert_eq!(wm.surface_mut(b.id()).copied(), Some("layer"));
    assert_eq!(wm.on_pointer_event(FocusEvent::Enter { surface: 50 }), Some(a.id()));
    assert_eq!(wm.on_pointer_event(FocusEvent::Enter { surface: 60 }), Some(b.id()));
    assert!(wm.pending_requests().is_empty());
}

#[test]
fn a_bare_surface_can_be_requested() {
    let mut wm = manager();
    bind(&mut wm, "wl_compositor");
    assert!(matches!(wm.create_surface(), SurfaceRequest::CreateSurface));
}

#[test]
fn a_role_is_changed_in_place() {
    let mut wm = manager();
    let id = window(&mut wm, 4, STATUS);
    *wm.surface_mut(id).unwrap() = "changed";
    assert_eq!(wm.surface_mut(id).copied(), Some("changed"));
    assert!(wm.surface_mut(WindowId(9)).is_none());
    assert_eq!(wm.surface_of(id), Some(4));
    assert_eq!(wm.surface_of(WindowId(9)), None);
}

#[test]
fn starting_compiles_the_pipelines_once() {
    let mut wm = manager();
    assert_eq!(
        wm.start(),
        vec![StartStep::CompilePipelines, StartStep::GetRegistry, StartStep::Sync]
    );
    assert_eq!(wm.start(), vec![StartStep::GetRegistry, StartStep::Sync]);
    wm.poll();
}

#[test]
fn an_atlas_goes_to_the_renderer() {
    let mut file: Vec<u8> = Vec::new();
    {
        let mut encoder = png::Encoder::new(&mut file, 1, 2);
        encoder.set_color(png::ColorType::Grayscale);
        encoder.set_depth(png::BitDepth::Eight);
        let mut writer = encoder.write_header().unwrap();
        writer.write_image_data(&[8, 9]).unwrap();
    }
    let mut wm = manager();
    let atlas = AtlasData { id: AtlasId(3), png_bytes: &file };
    let up = wm.upload_atlas(atlas, Ok(70)).unwrap();
    assert_eq!((up.id, up.data), (TextureId(0), vec![8, 9]));
    let bad = AtlasData { id: AtlasId(4), png_bytes: &[] };
    assert!(matches!(wm.upload_atlas(bad, Ok(71)), Err(AtlasError::Header(_))));
    assert_eq!(wm.upload_atlas(atlas, Ok(72)).unwrap().id, TextureId(1));
}

#[test]
fn windows_draw_with_the_managers_renderer() {
    let mut wm = manager();
    assert!(wm.renderer_mut().init_pipelines());
    // What was done through the renderer is the manager's.
    assert_eq!(wm.start(), vec![StartStep::GetRegistry, StartStep::Sync]);
}

#[test]
fn due_windows_are_kicked_once() {
    let mut wm = manager();
    let due = WindowStatus { needs_render: true, back_released: true, ..STATUS };
    let a = window(&mut wm, 1, due);
    let _held = window(&mut wm, 2, WindowStatus { back_released: false, ..due });
    let _quiet = window(&mut wm, 3, WindowStatus { needs_render: false, ..due });
    let b = window(&mut wm, 4, due);
    let busy = window(&mut wm, 5, due);
    wm.frame_requested(busy, 900);
    let mut kicked = wm.pre_poll();
    kicked.sort_by_key(|r| r.window.0);
    assert_eq!(
        kicked,
        vec![
            RenderRequest { window: a, force_full: false },
            RenderRequest { window: b, force_full: false },
        ]
    );
    assert!(wm.rearm_frames().is_empty());
    // Once its frame is done, the busy window is due as well.
    wm.on_callback_done(Some(900));
    assert_eq!(wm.rearm_frames(), vec![busy]);
}

#[test]
fn a_rendered_frame_settles_input_and_callback() {
    let mut wm = manager();
    let id = window(&mut wm, 1, STATUS);
    assert_eq!(
        wm.do_render_frame(id, true),
        Some(RenderRequest { window: id, force_full: true })
    );
    assert_eq!(wm.do_render_frame(WindowId(8), true), None);
    assert_eq!(wm.frame_rendered(id, true, None), InputRegion::Keep);
    // Without a compositor there is no region to make.
    assert_eq!(wm.frame_rendered(id, false, None), InputRegion::Keep);
    assert_eq!(wm.frame_rendered(id, true, None), InputRegion::Whole);
    bind(&mut wm, "wl_compositor");
    assert_eq!(wm.frame_rendered(id, false, Some(77)), InputRegion::Empty);
    assert_eq!(wm.frame_rendered(id, false, None), InputRegion::Keep);
    assert_eq!(wm.frame_rendered(WindowId(8), true, Some(78)), InputRegion::Keep);
    assert_eq!(wm.on_callback_done(Some(78)), CallbackOutcome::FlushPending);
    assert_eq!(wm.on_callback_done(Some(77)), CallbackOutcome::Nothing);
}

#[test]
fn configuring_acknowledges_resizes_and_repaints() {
    let mut wm = manager();
    bind(&mut wm, "zwp_linux_dmabuf_v1");
    let id = window(&mut wm, 1, STATUS);
    assert_eq!(
        wm.configure(id, 12, 800, 600),
        vec![
            ConfigureStep::Acknowledge { window: id, serial: 12 },
            ConfigureStep::Resize { window: id, width: 800, height: 600 },
            ConfigureStep::Render(RenderRequest { window: id, force_full: true }),
        ]
    );
    assert!(wm.configure(WindowId(9), 12, 800, 600).is_empty());
    wm.update_window(id, WindowStatus { configured: true, width: 800, height: 600, ..STATUS });
    assert_eq!(wm.window_dimensions(id), Some((800, 600)));
    wm.update_window(WindowId(9), STATUS);
    assert_eq!(wm.window_dimensions(WindowId(9)), None);
}

#[test]
fn only_configured_windows_ask_for_frames() {
    let mut wm = manager();
    let a = window(&mut wm, 1, STATUS);
    let b = window(&mut wm, 2, WindowStatus { configured: true, ..STATUS });
    assert!(!wm.request_frame(a));
    assert!(wm.request_frame(b));
}

#[test]
fn a_destroyed_window_gets_nothing() {
    let mut wm = manager();
    let due = WindowStatus { needs_render: true, back_released: true, ..STATUS };
    let id = window(&mut wm, 30, due);
    wm.on_pointer_event(FocusEvent::Enter { surface: 30 });
    wm.on_keyboard_event(FocusEvent::Enter { surface: 30 });
    wm.on_touch_event(TouchEvent::Down { surface: Some(30), id: 1 });
    wm.frame_requested(id, 500);
    let gone = wm.destroy(id).unwrap();
    assert_eq!((gone.surface, gone.role), (30, "role"));
    assert!(wm.destroy(id).is_none());
    assert_eq!(wm.current_pointer_window(), Some(id));
    assert_eq!(wm.on_pointer_event(FocusEvent::Other), None);
    assert_eq!(wm.on_keyboard_event(FocusEvent::Other), None);
    assert!(wm.on_touch_event(TouchEvent::Motion { id: 1 }).is_empty());
    assert!(wm.on_touch_event(TouchEvent::Frame).is_empty());
    assert_eq!(wm.on_callback_done(Some(500)), CallbackOutcome::Nothing);
    assert!(wm.pre_poll().is_empty());
    // Its number is not used again.
    assert_ne!(window(&mut wm, 31, STATUS), id);
}

#[test]
fn globals_are_bound_by_interface() {
    let mut wm = manager();
    let cases = [
        ("wl_compositor", Global::Compositor),
        ("zwlr_layer_shell_v1", Global::LayerShell),
        ("wl_output", Global::Output),
        ("xdg_wm_base", Global::XdgWmBase),
        ("zwp_linux_dmabuf_v1", Global::Dmabuf),
        ("wl_seat", Global::Seat),
    ];
    for (interface, global) in cases {
        assert_eq!(
            wm.on_registry_global(&interface.to_string(), 17, 3),
            Some(Bind { global, name: 17, version: 3 })
        );
    }
    assert_eq!(bind(&mut wm, "wl_shm"), None);
    assert_eq!(bind(&mut wm, ""), None);
    // A global that appears again is bound again.
    assert!(bind(&mut wm, "wl_output").is_some());
}

#[test]
fn seat_devices_are_got_once() {
    let mut wm = manager();
    bind(&mut wm, "wl_seat");
    let offer = |pointer, keyboard, touch| SeatCapabilities { pointer, keyboard, touch };
    assert_eq!(wm.on_seat_capabilities(offer(false, true, false)), vec![SeatDevice::Keyboard]);
    assert_eq!(
        wm.on_seat_capabilities(offer(true, true, true)),
        vec![SeatDevice::Pointer, SeatDevice::Touch]
    );
    assert_eq!(wm.on_seat_capabilities(offer(false, false, false)), vec![]);
    assert_eq!(wm.on_seat_capabilities(offer(true, true, true)), vec![]);
}

#[test]
fn the_pointer_is_followed() {
    let mut wm = manager();
    let a = window(&mut wm, 1, STATUS);
    let b = window(&mut wm, 2, STATUS);
    assert_eq!(wm.current_pointer_window(), None);
    assert_eq!(wm.on_pointer_event(FocusEvent::Other), None);
    assert_eq!(wm.on_pointer_event(FocusEvent::Enter { surface: 1 }), Some(a));
    assert_eq!(wm.current_pointer_window(), Some(a));
    assert_eq!(wm.on_pointer_event(FocusEvent::Other), Some(a));
    assert_eq!(wm.on_pointer_event(FocusEvent::Enter { surface: 2 }), Some(b));
    assert_eq!(wm.on_pointer_event(FocusEvent::Leave), Some(b));
    assert_eq!(wm.current_pointer_window(), None);
    assert_eq!(wm.on_pointer_event(FocusEvent::Leave), None);
    assert_eq!(wm.on_pointer_event(FocusEvent::Enter { surface: 99 }), None);
}

#[test]
fn the_keyboard_is_followed_apart_from_the_pointer() {
    let mut wm = manager();
    let a = window(&mut wm, 1, STATUS);
    let b = window(&mut wm, 2, STATUS);
    assert_eq!(wm.on_keyboard_event(FocusEvent::Enter { surface: 1 }), Some(a));
    assert_eq!(wm.on_pointer_event(FocusEvent::Enter { surface: 2 }), Some(b));
    assert_eq!(wm.on_keyboard_event(FocusEvent::Other), Some(a));
    assert_eq!(wm.on_keyboard_event(FocusEvent::Leave), Some(a));
    assert_eq!(wm.on_keyboard_event(FocusEvent::Other), None);
    assert_eq!(wm.on_pointer_event(FocusEvent::Other), Some(b));
}

#[test]
fn touches_belong_to_the_window_they_went_down_on() {
    let mut wm = manager();
    let a = window(&mut wm, 1, STATUS);
    let b = window(&mut wm, 2, STATUS);
    assert_eq!(wm.on_touch_event(TouchEvent::Down { surface: Some(1), id: 7 }), vec![a]);
    assert_eq!(wm.on_touch_event(TouchEvent::Down { surface: Some(2), id: 8 }), vec![b]);
    assert_eq!(wm.on_touch_event(TouchEvent::Down { surface: Some(1), id: 9 }), vec![a]);
    assert_eq!(wm.on_touch_event(TouchEvent::Down { surface: Some(44), id: 10 }), vec![]);
    assert_eq!(wm.on_touch_event(TouchEvent::Down { surface: None, id: 11 }), vec![]);
    assert_eq!(wm.on_touch_event(TouchEvent::Motion { id: 8 }), vec![b]);
    assert_eq!(wm.on_touch_event(TouchEvent::Motion { id: 10 }), vec![]);
    assert_eq!(wm.on_touch_event(TouchEvent::Other), vec![]);
    let mut all = wm.on_touch_event(TouchEvent::Frame);
    all.sort_by_key(|w| w.0);
    assert_eq!(all, vec![a, b]);
    assert_eq!(wm.on_touch_event(TouchEvent::Up { id: 8 }), vec![b]);
    assert_eq!(wm.on_touch_event(TouchEvent::Motion { id: 8 }), vec![]);
    assert_eq!(wm.on_touch_event(TouchEvent::Up { id: 8 }), vec![]);
    assert_eq!(wm.on_touch_event(TouchEvent::Cancel), vec![a]);
    assert_eq!(wm.on_touch_event(TouchEvent::Motion { id: 7 }), vec![]);
    assert_eq!(wm.on_touch_event(TouchEvent::Frame), vec![]);
}

#[test]
fn events_are_announced_while_there_are_any() {
    let mut wm = manager();
    assert_eq!(wm.events_ready(), None);
    wm.event_buffer.push("tap".to_string());
    assert_eq!(wm.events_ready(), Some(UiEventsReady));
    wm.event_buffer.clear();
    assert_eq!(wm.events_ready(), None);
}

#[test]
fn a_callback_announces_one_frame() {
    let mut wm = manager();
    let free = window(&mut wm, 1, WindowStatus { back_released: true, ..STATUS });
    let held = window(&mut wm, 2, STATUS);
    wm.frame_requested(free, 100);
    wm.frame_requested(held, 101);
    assert_eq!(wm.on_callback_done(None), CallbackOutcome::Nothing);
    assert_eq!(
        wm.on_callback_done(Some(100)),
        CallbackOutcome::Render(RenderRequest { window: free, force_full: false })
    );
    assert_eq!(wm.on_callback_done(Some(101)), CallbackOutcome::Nothing);
    assert_eq!(wm.on_callback_done(Some(100)), CallbackOutcome::FlushPending);
}

#[test]
fn a_released_buffer_is_told_to_every_window() {
    let mut wm = manager();
    assert!(wm.on_buffer_release(5).is_empty());
    let a = window(&mut wm, 1, STATUS);
    let b = window(&mut wm, 2, STATUS);
    let mut told = wm.on_buffer_release(5);
    told.sort_by_key(|r| r.window.0);
    assert_eq!(
        told,
        vec![BufferRelease { window: a, buffer: 5 }, BufferRelease { window: b, buffer: 5 }]
    );
    assert_eq!(wm.on_ping(33), 33);
}
