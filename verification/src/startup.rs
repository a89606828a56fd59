//! Bringing the GPU up: which device node, which EGL configuration, and in which order.
//!
//! Start-up is a fixed sequence of questions to the system. [`next_step`] takes what came of one
//! and says what comes next, or why start-up ends.

use vstd::prelude::*;

use crate::dmabuf::EGL_NONE;
use crate::text::{decimal, decimal_text};

verus! {

pub const EGL_ALPHA_SIZE: i32 = 0x3021;

pub const EGL_BLUE_SIZE: i32 = 0x3022;

pub const EGL_GREEN_SIZE: i32 = 0x3023;

pub const EGL_RED_SIZE: i32 = 0x3024;

pub const EGL_RENDERABLE_TYPE: i32 = 0x3040;

pub const EGL_CONTEXT_CLIENT_VERSION: i32 = 0x3098;

pub const EGL_OPENGL_ES2_BIT: i32 = 0x0004;

pub const EGL_OPENGL_ES_API: u32 = 0x30A0;

/// The platform of displays over a GBM device. The core headers lack it.
pub const EGL_PLATFORM_GBM_MESA: u32 = 0x31D7;

/// The first and the last number of a DRM render node.
pub const FIRST_RENDER_NODE: u32 = 128;

pub const LAST_RENDER_NODE: u32 = 255;

/// A question to the system.
#[derive(Debug, Clone, Copy, PartialEq, Eq, Structural)]
pub enum InitStep {
    OpenRenderNode,
    OpenGbmDevice,
    LoadEgl,
    ResolvePlatformDisplay,
    GetDisplay,
    Initialize,
    ChooseConfig,
    BindApi,
    CreateContext,
    MakeCurrent,
    LoadGl,
    ResolveCreateImage,
    ResolveDestroyImage,
    ResolveRenderbufferImage,
    ResolveTextureImage,
}

/// What came of a step.
#[derive(Debug, Clone, Copy, PartialEq, Eq, Structural)]
pub enum StepOutcome {
    Done,
    /// The call reported an error.
    Failed,
    /// The call went through and found nothing.
    Missing,
}

#[derive(Debug, Clone, Copy, PartialEq, Eq, Structural)]
pub enum InitError {
    NoRenderNode,
    GbmDevice,
    LoadEgl,
    NoPlatformDisplay,
    NoDisplay,
    Initialize,
    ChooseConfig,
    NoConfig,
    BindApi,
    CreateContext,
    MakeCurrent,
    NoCreateImage,
    NoDestroyImage,
    NoRenderbufferImage,
}

#[derive(Debug, Clone, Copy, PartialEq, Eq, Structural)]
pub enum InitProgress {
    Next(InitStep),
    /// Everything is there; textures over images are optional.
    Ready { texture_images: bool },
    Failed(InitError),
}

/// The step after `step`, if there is one.
pub open spec fn following(step: InitStep) -> Option<InitStep> {
    match step {
        InitStep::OpenRenderNode => Some(InitStep::OpenGbmDevice),
        InitStep::OpenGbmDevice => Some(InitStep::LoadEgl),
        InitStep::LoadEgl => Some(InitStep::ResolvePlatformDisplay),
        InitStep::ResolvePlatformDisplay => Some(InitStep::GetDisplay),
        InitStep::GetDisplay => Some(InitStep::Initialize),
        InitStep::Initialize => Some(InitStep::ChooseConfig),
        InitStep::ChooseConfig => Some(InitStep::BindApi),
        InitStep::BindApi => Some(InitStep::CreateContext),
        InitStep::CreateContext => Some(InitStep::MakeCurrent),
        InitStep::MakeCurrent => Some(InitStep::LoadGl),
        InitStep::LoadGl => Some(InitStep::ResolveCreateImage),
        InitStep::ResolveCreateImage => Some(InitStep::ResolveDestroyImage),
        InitStep::ResolveDestroyImage => Some(InitStep::ResolveRenderbufferImage),
        InitStep::ResolveRenderbufferImage => Some(InitStep::ResolveTextureImage),
        InitStep::ResolveTextureImage => None,
    }
}

/// Why start-up ends at `step` when it did not go well; nothing if it goes on all the same.
pub open spec fn error_at(step: InitStep, outcome: StepOutcome) -> Option<InitError> {
    match step {
        InitStep::OpenRenderNode => Some(InitError::NoRenderNode),
        InitStep::OpenGbmDevice => Some(InitError::GbmDevice),
        InitStep::LoadEgl => Some(InitError::LoadEgl),
        InitStep::ResolvePlatformDisplay => Some(InitError::NoPlatformDisplay),
        InitStep::GetDisplay => Some(InitError::NoDisplay),
        InitStep::Initialize => Some(InitError::Initialize),
        InitStep::ChooseConfig => if outcome is Missing {
            Some(InitError::NoConfig)
        } else {
            Some(InitError::ChooseConfig)
        },
        InitStep::BindApi => Some(InitError::BindApi),
        InitStep::CreateContext => Some(InitError::CreateContext),
        InitStep::MakeCurrent => Some(InitError::MakeCurrent),
        InitStep::LoadGl => None,
        InitStep::ResolveCreateImage => Some(InitError::NoCreateImage),
        InitStep::ResolveDestroyImage => Some(InitError::NoDestroyImage),
        InitStep::ResolveRenderbufferImage => Some(InitError::NoRenderbufferImage),
        InitStep::ResolveTextureImage => None,
    }
}

/// How the search for a render node goes on.
#[derive(Debug, Clone, Copy, PartialEq, Eq, Structural)]
pub enum NodeProgress {
    /// Try to open the node with this number.
    Try(u32),
    /// Use the node with this number, which opened.
    Use(u32),
    /// No node opens.
    NoNode,
}

/// How the search goes on after the node `tried` did or did not open.
pub open spec fn node_progress(tried: u32, opened: bool) -> NodeProgress {
    if opened {
        NodeProgress::Use(tried)
    } else if tried < LAST_RENDER_NODE {
        NodeProgress::Try((tried + 1) as u32)
    } else {
        NodeProgress::NoNode
    }
}

/// The node that a search from `tried` on ends with, when `opens` says which nodes open.
pub open spec fn node_found(tried: u32, opens: spec_fn(u32) -> bool) -> Option<u32>
    decreases LAST_RENDER_NODE - tried,
{
    match node_progress(tried, opens(tried)) {
        NodeProgress::Try(next) => node_found(next, opens),
        NodeProgress::Use(node) => Some(node),
        NodeProgress::NoNode => None,
    }
}

/// Where start-up stands after `step`.
pub open spec fn init_progress(step: InitStep, outcome: StepOutcome) -> InitProgress {
    if !(outcome is Done) && error_at(step, outcome) is Some {
        InitProgress::Failed(error_at(step, outcome)->0)
    } else {
        match following(step) {
            Some(next) => InitProgress::Next(next),
            None => InitProgress::Ready { texture_images: outcome is Done },
        }
    }
}

/// The first question.
pub fn first_step() -> (step: InitStep)
    ensures
        step is OpenRenderNode,
{
    InitStep::OpenRenderNode
}

/// What comes after `step` went as `outcome` says.
pub fn next_step(step: InitStep, outcome: StepOutcome) -> (progress: InitProgress)
    ensures
        progress == init_progress(step, outcome),
{
    let well: bool = outcome == StepOutcome::Done;
    let (next, error): (InitStep, InitError) = match step {
        InitStep::OpenRenderNode => (InitStep::OpenGbmDevice, InitError::NoRenderNode),
        InitStep::OpenGbmDevice => (InitStep::LoadEgl, InitError::GbmDevice),
        InitStep::LoadEgl => (InitStep::ResolvePlatformDisplay, InitError::LoadEgl),
        InitStep::ResolvePlatformDisplay => (InitStep::GetDisplay, InitError::NoPlatformDisplay),
        InitStep::GetDisplay => (InitStep::Initialize, InitError::NoDisplay),
        InitStep::Initialize => (InitStep::ChooseConfig, InitError::Initialize),
        InitStep::ChooseConfig => (
            InitStep::BindApi,
            if outcome == StepOutcome::Missing {
                InitError::NoConfig
            } else {
                InitError::ChooseConfig
            },
        ),
        InitStep::BindApi => (InitStep::CreateContext, InitError::BindApi),
        InitStep::CreateContext => (InitStep::MakeCurrent, InitError::CreateContext),
        InitStep::MakeCurrent => (InitStep::LoadGl, InitError::MakeCurrent),
        InitStep::LoadGl => {
            return InitProgress::Next(InitStep::ResolveCreateImage);
        },
        InitStep::ResolveCreateImage => (InitStep::ResolveDestroyImage, InitError::NoCreateImage),
        InitStep::ResolveDestroyImage => (
            InitStep::ResolveRenderbufferImage,
            InitError::NoDestroyImage,
        ),
        InitStep::ResolveRenderbufferImage => (
            InitStep::ResolveTextureImage,
            InitError::NoRenderbufferImage,
        ),
        InitStep::ResolveTextureImage => {
            return InitProgress::Ready { texture_images: well };
        },
    };
    if well {
        InitProgress::Next(next)
    } else {
        InitProgress::Failed(error)
    }
}

/// The function that a step looks up.
pub open spec fn symbol_of(step: InitStep) -> Option<Seq<char>> {
    match step {
        InitStep::ResolvePlatformDisplay => Some("eglGetPlatformDisplayEXT"@),
        InitStep::ResolveCreateImage => Some("eglCreateImageKHR"@),
        InitStep::ResolveDestroyImage => Some("eglDestroyImageKHR"@),
        InitStep::ResolveRenderbufferImage => Some("glEGLImageTargetRenderbufferStorageOES"@),
        InitStep::ResolveTextureImage => Some("glEGLImageTargetTexture2DOES"@),
        _ => None,
    }
}

/// The function that a step looks up, if it looks one up.
pub fn symbol(step: InitStep) -> (name: Option<&'static str>)
    ensures
        match name {
            Some(n) => symbol_of(step) == Some(n@),
            None => symbol_of(step) is None,
        },
{
    match step {
        InitStep::ResolvePlatformDisplay => Some("eglGetPlatformDisplayEXT"),
        InitStep::ResolveCreateImage => Some("eglCreateImageKHR"),
        InitStep::ResolveDestroyImage => Some("eglDestroyImageKHR"),
        InitStep::ResolveRenderbufferImage => Some("glEGLImageTargetRenderbufferStorageOES"),
        InitStep::ResolveTextureImage => Some("glEGLImageTargetTexture2DOES"),
        _ => None,
    }
}

/// What is said of a failed start-up; nothing where the device's own error is passed on.
pub open spec fn message_of(error: InitError) -> Option<Seq<char>> {
    match error {
        InitError::NoRenderNode => Some("no DRM render node found in /dev/dri/renderD128..255"@),
        InitError::GbmDevice => None,
        InitError::LoadEgl => Some("load EGL"@),
        InitError::NoPlatformDisplay =>
        Some("eglGetPlatformDisplayEXT not found — driver lacks EGL_EXT_platform_base"@),
        InitError::NoDisplay => Some("eglGetPlatformDisplayEXT returned EGL_NO_DISPLAY"@),
        InitError::Initialize => Some("eglInitialize"@),
        InitError::ChooseConfig => Some("eglChooseConfig"@),
        InitError::NoConfig => Some("no EGL config matched RGBA8 + GLES2"@),
        InitError::BindApi => Some("eglBindAPI"@),
        InitError::CreateContext => Some("eglCreateContext"@),
        InitError::MakeCurrent => Some("eglMakeCurrent (surfaceless)"@),
        InitError::NoCreateImage =>
        Some("eglCreateImageKHR not found — driver lacks EGL_KHR_image_base"@),
        InitError::NoDestroyImage => Some("eglDestroyImageKHR not found"@),
        InitError::NoRenderbufferImage =>
        Some("glEGLImageTargetRenderbufferStorageOES not found — driver lacks GL_OES_EGL_image"@),
    }
}

impl InitError {
    /// What is said of the failure; nothing where the device's own error is passed on.
    pub fn message(self) -> (text: Option<&'static str>)
        ensures
            match text {
                Some(t) => message_of(self) == Some(t@),
                None => message_of(self) is None,
            },
    {
        match self {
            InitError::NoRenderNode => Some("no DRM render node found in /dev/dri/renderD128..255"),
            InitError::GbmDevice => None,
            InitError::LoadEgl => Some("load EGL"),
            InitError::NoPlatformDisplay =>
            Some("eglGetPlatformDisplayEXT not found — driver lacks EGL_EXT_platform_base"),
            InitError::NoDisplay => Some("eglGetPlatformDisplayEXT returned EGL_NO_DISPLAY"),
            InitError::Initialize => Some("eglInitialize"),
            InitError::ChooseConfig => Some("eglChooseConfig"),
            InitError::NoConfig => Some("no EGL config matched RGBA8 + GLES2"),
            InitError::BindApi => Some("eglBindAPI"),
            InitError::CreateContext => Some("eglCreateContext"),
            InitError::MakeCurrent => Some("eglMakeCurrent (surfaceless)"),
            InitError::NoCreateImage =>
            Some("eglCreateImageKHR not found — driver lacks EGL_KHR_image_base"),
            InitError::NoDestroyImage => Some("eglDestroyImageKHR not found"),
            InitError::NoRenderbufferImage =>
            Some("glEGLImageTargetRenderbufferStorageOES not found — driver lacks GL_OES_EGL_image"),
        }
    }
}

/// The EGL configuration to look for: eight bits per channel, renderable by GLES 2.
pub fn config_attribs() -> (attribs: [i32; 11])
    ensures
        attribs@ == seq![
            EGL_RED_SIZE,
            8i32,
            EGL_GREEN_SIZE,
            8i32,
            EGL_BLUE_SIZE,
            8i32,
            EGL_ALPHA_SIZE,
            8i32,
            EGL_RENDERABLE_TYPE,
            EGL_OPENGL_ES2_BIT,
            EGL_NONE,
        ],
{
    let attribs = [
        EGL_RED_SIZE,
        8,
        EGL_GREEN_SIZE,
        8,
        EGL_BLUE_SIZE,
        8,
        EGL_ALPHA_SIZE,
        8,
        EGL_RENDERABLE_TYPE,
        EGL_OPENGL_ES2_BIT,
        EGL_NONE,
    ];
    assert(attribs@ =~= seq![
        EGL_RED_SIZE,
        8i32,
        EGL_GREEN_SIZE,
        8i32,
        EGL_BLUE_SIZE,
        8i32,
        EGL_ALPHA_SIZE,
        8i32,
        EGL_RENDERABLE_TYPE,
        EGL_OPENGL_ES2_BIT,
        EGL_NONE,
    ]);
    attribs
}

/// The context to create: GLES 2.
pub fn context_attribs() -> (attribs: [i32; 3])
    ensures
        attribs@ == seq![EGL_CONTEXT_CLIENT_VERSION, 2i32, EGL_NONE],
{
    let attribs = [EGL_CONTEXT_CLIENT_VERSION, 2, EGL_NONE];
    assert(attribs@ =~= seq![EGL_CONTEXT_CLIENT_VERSION, 2i32, EGL_NONE]);
    attribs
}

/// The path of the render node with a number.
pub open spec fn node_path(number: nat) -> Seq<char> {
    "/dev/dri/renderD"@ + decimal(number)
}

/// The path of the render node with a number.
pub fn render_node_path(number: u32) -> (path: String)
    ensures
        path@ == node_path(number as nat),
{
    let mut path = "/dev/dri/renderD".to_string();
    let digits = decimal_text(number);
    path.append(digits.as_str());
    path
}

/// The search for a render node, which begins at [`FIRST_RENDER_NODE`]: the first that opens is
/// used, and one that does not is passed over.
pub fn next_node(tried: u32, opened: bool) -> (progress: NodeProgress)
    ensures
        progress == node_progress(tried, opened),
{
    if opened {
        NodeProgress::Use(tried)
    } else if tried < LAST_RENDER_NODE {
        NodeProgress::Try(tried + 1)
    } else {
        NodeProgress::NoNode
    }
}

/// The number of steps from `step` to the end.
pub open spec fn steps_left(step: InitStep) -> nat {
    match step {
        InitStep::OpenRenderNode => 15,
        InitStep::OpenGbmDevice => 14,
        InitStep::LoadEgl => 13,
        InitStep::ResolvePlatformDisplay => 12,
        InitStep::GetDisplay => 11,
        InitStep::Initialize => 10,
        InitStep::ChooseConfig => 9,
        InitStep::BindApi => 8,
        InitStep::CreateContext => 7,
        InitStep::MakeCurrent => 6,
        InitStep::LoadGl => 5,
        InitStep::ResolveCreateImage => 4,
        InitStep::ResolveDestroyImage => 3,
        InitStep::ResolveRenderbufferImage => 2,
        InitStep::ResolveTextureImage => 1,
    }
}

/// Start-up ends: every step that leads to another leads to the one right after it.
pub proof fn startup_ends(step: InitStep, outcome: StepOutcome)
    ensures
        init_progress(step, outcome) matches InitProgress::Next(next) ==> steps_left(next) + 1
            == steps_left(step),
        init_progress(step, outcome) is Ready ==> steps_left(step) == 1,
{
}

/// Start-up succeeds where every step before the optional last one goes well, and only there: a
/// step that does not go well ends it, unless it is one that cannot fail or the optional one.
pub proof fn startup_needs_every_step(step: InitStep, outcome: StepOutcome)
    ensures
        init_progress(step, outcome) is Failed <==> !(outcome is Done) && !(step is LoadGl) && !(
        step is ResolveTextureImage),
{
}

proof fn search_finds_the_first(tried: u32, opens: spec_fn(u32) -> bool)
    requires
        tried <= LAST_RENDER_NODE,
    ensures
        match node_found(tried, opens) {
            Some(node) => {
                &&& tried <= node <= LAST_RENDER_NODE
                &&& opens(node)
                &&& forall|n: u32| tried <= n < node ==> !#[trigger] opens(n)
            },
            None => forall|n: u32| tried <= n <= LAST_RENDER_NODE ==> !#[trigger] opens(n),
        },
    decreases LAST_RENDER_NODE - tried,
{
    if !opens(tried) && tried < LAST_RENDER_NODE {
        search_finds_the_first((tried + 1) as u32, opens);
    }
}

/// The node that is used is the least one that opens; start-up goes without one only if none of
/// them opens.
pub proof fn first_node_that_opens_is_used(opens: spec_fn(u32) -> bool)
    ensures
        match node_found(FIRST_RENDER_NODE, opens) {
            Some(node) => {
                &&& FIRST_RENDER_NODE <= node <= LAST_RENDER_NODE
                &&& opens(node)
                &&& forall|n: u32| FIRST_RENDER_NODE <= n < node ==> !#[trigger] opens(n)
            },
            None => forall|n: u32|
                FIRST_RENDER_NODE <= n <= LAST_RENDER_NODE ==> !#[trigger] opens(n),
        },
{
    search_finds_the_first(FIRST_RENDER_NODE, opens);
}

/// Different render nodes have different paths.
pub proof fn node_paths_differ(a: nat, b: nat)
    requires
        node_path(a) == node_path(b),
    ensures
        a == b,
{
    let prefix = "/dev/dri/renderD"@;
    assert(decimal(a) =~= node_path(a).skip(prefix.len() as int));
    assert(decimal(b) =~= node_path(b).skip(prefix.len() as int));
    crate::text::decimal_is_injective(a, b);
}

/// A step that goes well leads to the step right after it, and only the last one ends start-up.
pub proof fn steps_that_go_well_lead_on(step: InitStep)
    ensures
        init_progress(step, StepOutcome::Done) matches InitProgress::Next(next) && steps_left(next)
            == steps_left(step) - 1 || step is ResolveTextureImage && init_progress(
            step,
            StepOutcome::Done,
        ) == (InitProgress::Ready { texture_images: true }),
        !(init_progress(step, StepOutcome::Done) is Failed),
        init_progress(InitStep::ResolveTextureImage, StepOutcome::Missing) == (
        InitProgress::Ready { texture_images: false }),
        init_progress(InitStep::ResolveTextureImage, StepOutcome::Failed) == (InitProgress::Ready {
            texture_images: false,
        }),
{
}

/// Different steps fail with different errors, so the error tells which step it was.
pub proof fn errors_tell_the_step(a: InitStep, b: InitStep, x: StepOutcome, y: StepOutcome)
    requires
        init_progress(a, x) is Failed,
        init_progress(a, x) == init_progress(b, y),
    ensures
        a == b,
{
}

/// Where a function cannot be found the message begins with the function's name, and every failure
/// but that of the GBM device, whose own error is passed on, has a message.
pub proof fn messages_name_the_missing_function(error: InitError)
    ensures
        message_of(error) is None <==> error is GbmDevice,
        symbol_of(InitStep::ResolvePlatformDisplay)->0.is_prefix_of(
            message_of(InitError::NoPlatformDisplay)->0,
        ),
        symbol_of(InitStep::ResolvePlatformDisplay)->0.is_prefix_of(
            message_of(InitError::NoDisplay)->0,
        ),
        symbol_of(InitStep::ResolveCreateImage)->0.is_prefix_of(
            message_of(InitError::NoCreateImage)->0,
        ),
        symbol_of(InitStep::ResolveDestroyImage)->0.is_prefix_of(
            message_of(InitError::NoDestroyImage)->0,
        ),
        symbol_of(InitStep::ResolveRenderbufferImage)->0.is_prefix_of(
            message_of(InitError::NoRenderbufferImage)->0,
        ),
{
    reveal_strlit("eglGetPlatformDisplayEXT");
    reveal_strlit("eglCreateImageKHR");
    reveal_strlit("eglDestroyImageKHR");
    reveal_strlit("glEGLImageTargetRenderbufferStorageOES");
    reveal_strlit("eglGetPlatformDisplayEXT not found — driver lacks EGL_EXT_platform_base");
    reveal_strlit("eglGetPlatformDisplayEXT returned EGL_NO_DISPLAY");
    reveal_strlit("eglCreateImageKHR not found — driver lacks EGL_KHR_image_base");
    reveal_strlit("eglDestroyImageKHR not found");
    reveal_strlit(
        "glEGLImageTargetRenderbufferStorageOES not found — driver lacks GL_OES_EGL_image",
    );
}

/// The path of a render node is the directory and name of render nodes, followed by the node's own
/// number.
pub proof fn node_path_ends_with_the_number(number: nat)
    ensures
        ({
            let prefix = "/dev/dri/renderD"@;
            let path = node_path(number);
            &&& prefix.is_prefix_of(path)
            &&& crate::text::decimal_value(path.skip(prefix.len() as int)) == number
            &&& path.skip(prefix.len() as int) == decimal(number)
        }),
{
    let prefix = "/dev/dri/renderD"@;
    crate::text::decimal_reads_back(number);
    assert(node_path(number).skip(prefix.len() as int) =~= decimal(number));
    assert(node_path(number).take(prefix.len() as int) =~= prefix);
}

} // verus!
