use mecha_wayland::startup;
use mecha_wayland::startup::{
    config_attribs, context_attribs, first_step, next_node, next_step, render_node_path, symbol,
    InitError, InitProgress, InitStep, NodeProgress, StepOutcome, FIRST_RENDER_NODE,
    LAST_RENDER_NODE,
};
use mecha_wayland::text::decimal_text;

#[test]
fn enumerants_match_egl() {
    assert_eq!(
        config_attribs(),
        [
            khronos_egl::RED_SIZE,
            8,
            khronos_egl::GREEN_SIZE,
            8,
            khronos_egl::BLUE_SIZE,
            8,
            khronos_egl::ALPHA_SIZE,
            8,
            khronos_egl::RENDERABLE_TYPE,
            khronos_egl::OPENGL_ES2_BIT,
            khronos_egl::NONE,
        ]
    );
    assert_eq!(
        context_attribs(),
        [khronos_egl::CONTEXT_CLIENT_VERSION, 2, khronos_egl::NONE]
    );
    assert_eq!(startup::EGL_OPENGL_ES_API, khronos_egl::OPENGL_ES_API);
    assert_eq!(startup::EGL_PLATFORM_GBM_MESA, 0x31D7);
}

const ORDER: [InitStep; 15] = [
    InitStep::OpenRenderNode,
    InitStep::OpenGbmDevice,
    InitStep::LoadEgl,
    InitStep::ResolvePlatformDisplay,
    InitStep::GetDisplay,
    InitStep::Initialize,
    InitStep::ChooseConfig,
    InitStep::BindApi,
    InitStep::CreateContext,
    InitStep::MakeCurrent,
    InitStep::LoadGl,
    InitStep::ResolveCreateImage,
    InitStep::ResolveDestroyImage,
    InitStep::ResolveRenderbufferImage,
    InitStep::ResolveTextureImage,
];

#[test]
fn good_steps_lead_through_in_order() {
    let mut step = first_step();
    for i in 0..15 {
        assert_eq!(step, ORDER[i]);
        match next_step(step, StepOutcome::Done) {
            InitProgress::Next(next) => step = next,
            InitProgress::Ready { texture_images } => {
                assert!(texture_images);
                assert_eq!(i, 14);
            }
            InitProgress::Failed(e) => panic!("{:?}", e),
        }
    }
}

#[test]
fn a_failed_step_ends_startup_with_its_error() {
    let errors = [
        Some(InitError::NoRenderNode),
        Some(InitError::GbmDevice),
        Some(InitError::LoadEgl),
        Some(InitError::NoPlatformDisplay),
        Some(InitError::NoDisplay),
        Some(InitError::Initialize),
        Some(InitError::ChooseConfig),
        Some(InitError::BindApi),
        Some(InitError::CreateContext),
        Some(InitError::MakeCurrent),
        None,
        Some(InitError::NoCreateImage),
        Some(InitError::NoDestroyImage),
        Some(InitError::NoRenderbufferImage),
        None,
    ];
    for i in 0..15 {
        if let Some(e) = errors[i] {
            assert_eq!(next_step(ORDER[i], StepOutcome::Failed), InitProgress::Failed(e));
        }
    }
    assert_eq!(
        next_step(InitStep::ChooseConfig, StepOutcome::Missing),
        InitProgress::Failed(InitError::NoConfig)
    );
    assert_eq!(
        next_step(InitStep::LoadGl, StepOutcome::Failed),
        InitProgress::Next(InitStep::ResolveCreateImage)
    );
}

#[test]
fn texture_images_are_optional() {
    assert_eq!(
        next_step(InitStep::ResolveTextureImage, StepOutcome::Missing),
        InitProgress::Ready { texture_images: false }
    );
}

#[test]
fn symbols_are_looked_up_by_name() {
    assert_eq!(symbol(InitStep::ResolvePlatformDisplay), Some("eglGetPlatformDisplayEXT"));
    assert_eq!(symbol(InitStep::ResolveCreateImage), Some("eglCreateImageKHR"));
    assert_eq!(symbol(InitStep::ResolveDestroyImage), Some("eglDestroyImageKHR"));
    assert_eq!(
        symbol(InitStep::ResolveRenderbufferImage),
        Some("glEGLImageTargetRenderbufferStorageOES")
    );
    assert_eq!(symbol(InitStep::ResolveTextureImage), Some("glEGLImageTargetTexture2DOES"));
    assert_eq!(symbol(InitStep::BindApi), None);
}

#[test]
fn errors_say_what_is_missing() {
    assert_eq!(
        InitError::NoRenderNode.message(),
        Some("no DRM render node found in /dev/dri/renderD128..255")
    );
    assert_eq!(InitError::NoConfig.message(), Some("no EGL config matched RGBA8 + GLES2"));
    assert_eq!(
        InitError::NoDisplay.message(),
        Some("eglGetPlatformDisplayEXT returned EGL_NO_DISPLAY")
    );
    assert_eq!(InitError::GbmDevice.message(), None);
}

#[test]
fn render_nodes_have_paths() {
    assert_eq!((FIRST_RENDER_NODE, LAST_RENDER_NODE), (128, 255));
    assert_eq!(render_node_path(128), "/dev/dri/renderD128");
    assert_eq!(render_node_path(200), "/dev/dri/renderD200");
    assert_eq!(render_node_path(255), "/dev/dri/renderD255");
}

/// The node that is used when exactly the nodes `open` open, and the nodes that were tried.
fn search(open: &[u32]) -> (Option<u32>, u32) {
    let mut node = FIRST_RENDER_NODE;
    let mut tries = 1;
    loop {
        match next_node(node, open.contains(&node)) {
            NodeProgress::Try(next) => node = next,
            NodeProgress::Use(used) => return (Some(used), tries),
            NodeProgress::NoNode => return (None, tries),
        }
        tries += 1;
    }
}

#[test]
fn the_first_node_that_opens_is_used() {
    assert_eq!(search(&[128]), (Some(128), 1));
    assert_eq!(search(&[200, 131, 140]), (Some(131), 4));
    assert_eq!(search(&[255]), (Some(255), 128));
    assert_eq!(search(&[127, 256]), (None, 128));
    assert_eq!(next_node(128, false), NodeProgress::Try(129));
    assert_eq!(next_node(255, false), NodeProgress::NoNode);
}

#[test]
fn numbers_are_written_in_decimal() {
    for n in [0u32, 7, 10, 99, 100, 4294967295] {
        assert_eq!(decimal_text(n), format!("{}", n));
    }
}
