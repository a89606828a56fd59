//! The renderer's bookkeeping: viewport, scissor, textures and passes.
//!
//! A [`Renderer`] decides what has to be asked of the GPU and keeps what it needs to know for
//! that. The calls themselves are handed out as data, in the order in which they are to be made.

use std::collections::HashMap;

use vstd::prelude::*;

use crate::atlas::{decode_atlas, decodes_to, AtlasData, AtlasError, AtlasId, AtlasImage};
use crate::geometry::{Rect, STEPS_PER_PIXEL};
use crate::gl;
use crate::gl::{signed32, signed_bits, GlCall};

verus! {

broadcast use vstd::std_specs::hash::group_hash_axioms;

/// The identity of a texture. Identities are handed out in increasing order.
#[derive(Debug, Clone, Copy, PartialEq, Eq, Structural, Hash)]
pub struct TextureId(pub u32);

#[derive(Debug, Clone, Copy, PartialEq, Eq, Structural)]
pub enum TextureFormat {
    /// One byte per pixel.
    R8,
}

/// A texture on the GPU.
#[derive(Debug, Clone, Copy, PartialEq, Eq, Structural)]
pub struct GpuTexture {
    pub handle: u32,
    pub width: u32,
    pub height: u32,
}

/// Why there is no texture object.
#[derive(Debug, Clone, Copy, PartialEq, Eq, Structural)]
pub enum TextureError {
    /// The context could not be made current.
    NotCurrent,
    /// The GL has no texture object to give.
    NoTexture,
}

/// A backing store for a [`RenderableSurface`]. Implement this to add new kinds of render target.
pub trait SurfaceBackend: Sized {
    /// The framebuffer that draws into the store.
    spec fn target(&self) -> u32;

    /// The framebuffer to bind when drawing into the store.
    fn fbo(&self) -> (fbo: u32)
        ensures
            fbo == self.target(),
    ;

    /// The calls that read the store back at the given size, and the buffer for its pixels: four
    /// bytes each, in RGBA order, bottom row first. The framebuffer stays bound. The buffer is a
    /// `Vec`, which holds `isize::MAX` bytes at most. This works for every store; override it only
    /// where there is a more efficient way.
    fn read_pixels(&self, width: u32, height: u32) -> (r: (Vec<GlCall>, Vec<u8>))
        requires
            width * height * 4 <= isize::MAX,
        ensures
            r.1@.len() == read_back_len(width as int, height as int),
        default_ensures
            r.0@ == read_calls(self.target(), width, height),
            r.1@ == Seq::new(read_back_len(width as int, height as int) as nat, |i: int| 0u8),
    {
        proof {
            assert(0 <= width * height <= width * height * 4) by (nonlinear_arith)
                requires
                    width >= 0,
                    height >= 0,
            ;
        }
        let len: usize = width as usize * height as usize * 4;
        let pixels: Vec<u8> = vec![0u8; len];
        assert(pixels@ =~= Seq::new(
            read_back_len(width as int, height as int) as nat,
            |i: int| 0u8,
        ));
        let calls = vec![
            GlCall::BindFramebuffer { target: gl::FRAMEBUFFER, framebuffer: self.fbo() },
            GlCall::ReadPixels {
                x: 0,
                y: 0,
                width: signed32(width),
                height: signed32(height),
                format: gl::RGBA,
                data_type: gl::UNSIGNED_BYTE,
            },
        ];
        (calls, pixels)
    }
}

/// A render target to allocate, once the context is current.
#[derive(Debug, Clone, Copy, PartialEq, Eq, Structural)]
pub struct SurfaceAllocation {
    width: u32,
    height: u32,
}

impl SurfaceAllocation {
    /// The size to allocate.
    pub closed spec fn extent(self) -> (u32, u32) {
        (self.width, self.height)
    }

    pub fn size(self) -> (size: (u32, u32))
        ensures
            size == self.extent(),
    {
        (self.width, self.height)
    }
}

/// A render target: its size, its framebuffer, and the backing store `B`.
pub struct RenderableSurface<B> {
    pub width: u32,
    pub height: u32,
    pub fbo: u32,
    pub backend: B,
}

/// An upload to carry out: the calls, and the pixels for the one that takes them.
pub struct TextureUpload {
    pub id: TextureId,
    pub calls: Vec<GlCall>,
    pub data: Vec<u8>,
}

/// A step of work on the GPU.
#[derive(Debug, Clone, Copy, PartialEq, Eq, Structural)]
pub enum GpuStep {
    /// Make the context current; a failure is ignored.
    MakeCurrent,
    Gl(GlCall),
    /// Apply the pending clear (colour and depth).
    Clear,
    /// Solid rectangles and opaque sprites, front to back.
    Opaque,
    /// Quads and translucent sprites, sorted by depth and blended.
    Translucent,
}

/// What a [`Renderer`] remembers.
#[verifier::ext_equal]
pub struct RendererView {
    pub textures: Map<u32, GpuTexture>,
    pub atlases: Map<u32, TextureId>,
    pub next_texture: u32,
    pub viewport_width: u32,
    pub viewport_height: u32,
    pub pipelines: bool,
}

pub struct Renderer {
    textures: HashMap<u32, GpuTexture>,
    atlas_map: HashMap<u32, TextureId>,
    next_texture_id: u32,
    viewport_width: u32,
    viewport_height: u32,
    pipelines: bool,
}

/// The pixel that holds the coordinate `v`.
pub open spec fn pixel_floor(v: int) -> int {
    v / (STEPS_PER_PIXEL as int)
}

/// The first pixel boundary at or after the coordinate `v`.
pub open spec fn pixel_ceil(v: int) -> int {
    -((-v) / (STEPS_PER_PIXEL as int))
}

/// `v` brought into `low..=high`.
pub open spec fn clamped(v: int, low: int, high: int) -> int {
    if v < low {
        low
    } else if v > high {
        high
    } else {
        v
    }
}

/// `v` as the GL takes it: brought into the range of 32 bits.
pub open spec fn saturated(v: int) -> int {
    clamped(v, i32::MIN as int, i32::MAX as int)
}

/// The pixel columns and rows of the scissor box for `rect`: left, top, right, bottom.
pub open spec fn scissor_edges(rect: Rect, width: int, height: int) -> (int, int, int, int) {
    (
        clamped(pixel_floor(rect.origin.x as int), 0, width),
        clamped(pixel_floor(rect.origin.y as int), 0, height),
        clamped(pixel_ceil(rect.right_edge()), 0, width),
        clamped(pixel_ceil(rect.bottom_edge()), 0, height),
    )
}

/// The steps that bind `fbo` for drawing at the given size, with the scissor off.
pub open spec fn activation_steps(fbo: u32, width: u32, height: u32) -> Seq<GpuStep> {
    seq![
        GpuStep::MakeCurrent,
        GpuStep::Gl(GlCall::BindFramebuffer { target: gl::FRAMEBUFFER, framebuffer: fbo }),
        GpuStep::Gl(
            GlCall::Viewport {
                x: 0,
                y: 0,
                width: signed_bits(width as int) as i32,
                height: signed_bits(height as int) as i32,
            },
        ),
        GpuStep::Gl(GlCall::Disable { capability: gl::SCISSOR_TEST }),
    ]
}

/// The steps that restrict drawing to `rect` on a viewport of the given size.
pub open spec fn scissor_steps(rect: Option<Rect>, width: int, height: int) -> Seq<GpuStep> {
    match rect {
        Some(r) => {
            let (x0, y0, x1, y1) = scissor_edges(r, width, height);
            seq![
                GpuStep::Gl(GlCall::Enable { capability: gl::SCISSOR_TEST }),
                GpuStep::Gl(
                    GlCall::Scissor {
                        x: saturated(x0) as i32,
                        y: saturated(y0) as i32,
                        width: saturated(x1 - x0) as i32,
                        height: saturated(y1 - y0) as i32,
                    },
                ),
            ]
        },
        None => seq![GpuStep::Gl(GlCall::Disable { capability: gl::SCISSOR_TEST })],
    }
}

/// The calls that fill a fresh single-channel texture.
pub open spec fn upload_calls(handle: u32, width: u32, height: u32) -> Seq<GlCall> {
    seq![
        GlCall::BindTexture { target: gl::TEXTURE_2D, texture: Some(handle) },
        GlCall::PixelStore { parameter: gl::UNPACK_ALIGNMENT, value: 1 },
        GlCall::TexImage2d {
            target: gl::TEXTURE_2D,
            level: 0,
            internal_format: gl::LUMINANCE as i32,
            width: signed_bits(width as int) as i32,
            height: signed_bits(height as int) as i32,
            border: 0,
            format: gl::LUMINANCE,
            data_type: gl::UNSIGNED_BYTE,
        },
        GlCall::TexParameter {
            target: gl::TEXTURE_2D,
            parameter: gl::TEXTURE_MIN_FILTER,
            value: gl::LINEAR as i32,
        },
        GlCall::TexParameter {
            target: gl::TEXTURE_2D,
            parameter: gl::TEXTURE_MAG_FILTER,
            value: gl::LINEAR as i32,
        },
        GlCall::TexParameter {
            target: gl::TEXTURE_2D,
            parameter: gl::TEXTURE_WRAP_S,
            value: gl::CLAMP_TO_EDGE as i32,
        },
        GlCall::TexParameter {
            target: gl::TEXTURE_2D,
            parameter: gl::TEXTURE_WRAP_T,
            value: gl::CLAMP_TO_EDGE as i32,
        },
        GlCall::BindTexture { target: gl::TEXTURE_2D, texture: None },
    ]
}

/// The calls that read a framebuffer back, all of it.
pub open spec fn read_calls(fbo: u32, width: u32, height: u32) -> Seq<GlCall> {
    seq![
        GlCall::BindFramebuffer { target: gl::FRAMEBUFFER, framebuffer: fbo },
        GlCall::ReadPixels {
            x: 0,
            y: 0,
            width: signed_bits(width as int) as i32,
            height: signed_bits(height as int) as i32,
            format: gl::RGBA,
            data_type: gl::UNSIGNED_BYTE,
        },
    ]
}

/// The number of bytes of a read-back.
pub open spec fn read_back_len(width: int, height: int) -> int {
    width * height * 4
}

/// Where the four bytes of a pixel begin in a read-back; rows count from the bottom.
pub open spec fn pixel_offset(width: int, column: int, row: int) -> int {
    4 * (row * width + column)
}

/// What comes of registering one more texture: a new identity for it, or the renderer unchanged.
pub open spec fn texture_outcome(
    before: RendererView,
    handle: Result<u32, TextureError>,
    width: u32,
    height: u32,
    data: Vec<u8>,
    r: Result<TextureUpload, TextureError>,
    after: RendererView,
) -> bool {
    match handle {
        Ok(h) => {
            &&& after == before.with_texture(GpuTexture { handle: h, width, height })
            &&& r matches Ok(upload)
            &&& upload.id == TextureId(before.next_texture)
            &&& upload.calls@ == upload_calls(h, width, height)
            &&& upload.data == data
        },
        Err(e) => after == before && r == Err::<TextureUpload, TextureError>(e),
    }
}

/// A whole frame: clear first, then the opaque pass, then the translucent pass.
pub open spec fn frame_steps() -> Seq<GpuStep> {
    seq![GpuStep::MakeCurrent, GpuStep::Clear, GpuStep::Opaque, GpuStep::Translucent]
}

/// Wait for the GPU.
pub open spec fn finish_steps() -> Seq<GpuStep> {
    seq![GpuStep::MakeCurrent, GpuStep::Gl(GlCall::Finish)]
}

impl RendererView {
    /// Texture identities are below the next one to hand out, and every atlas refers to a
    /// texture that exists.
    pub open spec fn wf(self) -> bool {
        &&& forall|t: u32| #[trigger] self.textures.contains_key(t) ==> t < self.next_texture
        &&& forall|a: u32| #[trigger]
            self.atlases.contains_key(a) ==> self.textures.contains_key(self.atlases[a].0)
    }

    /// The renderer with its shader programs compiled.
    pub open spec fn with_pipelines(self) -> RendererView {
        RendererView { pipelines: true, ..self }
    }

    /// The renderer with a viewport of the given size.
    pub open spec fn with_viewport(self, width: u32, height: u32) -> RendererView {
        RendererView { viewport_width: width, viewport_height: height, ..self }
    }

    /// The renderer after one more texture.
    pub open spec fn with_texture(self, texture: GpuTexture) -> RendererView {
        RendererView {
            textures: self.textures.insert(self.next_texture, texture),
            next_texture: (self.next_texture + 1) as u32,
            ..self
        }
    }

    /// The renderer after `atlas` was uploaded into one more texture.
    pub open spec fn with_atlas(self, atlas: AtlasId, texture: GpuTexture) -> RendererView {
        RendererView {
            atlases: self.atlases.insert(atlas.0, TextureId(self.next_texture)),
            ..self.with_texture(texture)
        }
    }
}

/// What comes of registering a decoded atlas: it is found in one more texture, or the renderer is
/// unchanged.
pub open spec fn register_outcome(
    before: RendererView,
    atlas: AtlasId,
    image: AtlasImage,
    handle: Result<u32, TextureError>,
    r: Result<TextureUpload, TextureError>,
    after: RendererView,
) -> bool {
    match handle {
        Ok(h) => {
            &&& after == before.with_atlas(
                atlas,
                GpuTexture { handle: h, width: image.width, height: image.height },
            )
            &&& r matches Ok(upload)
            &&& upload.id == TextureId(before.next_texture)
            &&& upload.calls@ == upload_calls(h, image.width, image.height)
            &&& upload.data == image.data
        },
        Err(e) => after == before && r == Err::<TextureUpload, TextureError>(e),
    }
}

/// `r` and the renderer `after` are what comes of uploading the PNG file `bytes` as `atlas` into
/// the texture object `handle`: the decoded image in one more texture, or the first error with
/// the renderer unchanged.
pub open spec fn upload_outcome(
    before: RendererView,
    atlas: AtlasId,
    bytes: Seq<u8>,
    handle: Result<u32, TextureError>,
    r: Result<TextureUpload, AtlasError>,
    after: RendererView,
) -> bool {
    match r {
        Ok(upload) => exists|image: AtlasImage| #[trigger]
            decodes_to(bytes, Ok(image)) && register_outcome(
                before,
                atlas,
                image,
                handle,
                Ok(upload),
                after,
            ),
        Err(AtlasError::Texture(e)) => after == before && handle == Err::<u32, TextureError>(e)
            && exists|image: AtlasImage| decodes_to(bytes, Ok(image)),
        Err(e) => after == before && decodes_to(bytes, Err(e)),
    }
}

/// `r` is what comes of an allocation: a target of the size asked for, over the store that was
/// allocated and its framebuffer, or the error of the allocation.
pub open spec fn surface_outcome<B: SurfaceBackend, E>(
    allocation: SurfaceAllocation,
    backend: Result<B, E>,
    r: Result<RenderableSurface<B>, E>,
) -> bool {
    match backend {
        Ok(b) => r == Ok::<RenderableSurface<B>, E>(
            RenderableSurface {
                width: allocation.extent().0,
                height: allocation.extent().1,
                fbo: b.target(),
                backend: b,
            },
        ),
        Err(e) => r == Err::<RenderableSurface<B>, E>(e),
    }
}

proof fn another_texture_keeps_wf(before: RendererView, texture: GpuTexture)
    requires
        before.wf(),
        before.next_texture < u32::MAX,
    ensures
        before.with_texture(texture).wf(),
{
    let after = before.with_texture(texture);
    assert forall|t: u32| #[trigger] after.textures.contains_key(t) implies t
        < after.next_texture by {
        assert(t == before.next_texture || before.textures.contains_key(t));
    }
    assert forall|a: u32| #[trigger] after.atlases.contains_key(a) implies after.textures.contains_key(
        after.atlases[a].0,
    ) by {
        assert(before.atlases.contains_key(a));
    }
}

/// A pixel row or column at or after 0, clamped to the viewport, for a coordinate rounded down.
fn first_pixel(v: i64, limit: u32) -> (p: i64)
    ensures
        p == clamped(pixel_floor(v as int), 0, limit as int),
{
    if v < 0 {
        0
    } else {
        let p: i64 = v / STEPS_PER_PIXEL;
        if p > limit as i64 {
            limit as i64
        } else {
            p
        }
    }
}

/// A pixel row or column at or after 0, clamped to the viewport, for a coordinate rounded up.
fn last_pixel(v: i64, limit: u32) -> (p: i64)
    ensures
        p == clamped(pixel_ceil(v as int), 0, limit as int),
{
    if v <= 0 {
        0
    } else {
        let p: i64 = (v - 1) / STEPS_PER_PIXEL + 1;
        assert(p == pixel_ceil(v as int));
        if p > limit as i64 {
            limit as i64
        } else {
            p
        }
    }
}

fn saturate(v: i64) -> (r: i32)
    ensures
        r == saturated(v as int),
{
    if v < i32::MIN as i64 {
        i32::MIN
    } else if v > i32::MAX as i64 {
        i32::MAX
    } else {
        v as i32
    }
}

impl View for Renderer {
    type V = RendererView;

    closed spec fn view(&self) -> RendererView {
        RendererView {
            textures: self.textures@,
            atlases: self.atlas_map@,
            next_texture: self.next_texture_id,
            viewport_width: self.viewport_width,
            viewport_height: self.viewport_height,
            pipelines: self.pipelines,
        }
    }
}

impl Renderer {
    /// No textures, no viewport, no compiled pipelines.
    pub fn new() -> (r: Renderer)
        ensures
            r@.wf(),
            r@ == (RendererView {
                textures: Map::empty(),
                atlases: Map::empty(),
                next_texture: 0,
                viewport_width: 0,
                viewport_height: 0,
                pipelines: false,
            }),
    {
        Renderer {
            textures: HashMap::new(),
            atlas_map: HashMap::new(),
            next_texture_id: 0,
            viewport_width: 0,
            viewport_height: 0,
            pipelines: false,
        }
    }

    /// What to allocate for a render target. `current` is what came of making the context current:
    /// without it nothing is allocated.
    pub fn prepare_surface<E>(&self, width: u32, height: u32, current: Result<(), E>) -> (r: Result<
        SurfaceAllocation,
        E,
    >)
        ensures
            match current {
                Ok(_) => r matches Ok(a) && a.extent() == (width, height),
                Err(e) => r == Err::<SurfaceAllocation, E>(e),
            },
    {
        match current {
            Ok(_) => Ok(SurfaceAllocation { width, height }),
            Err(e) => Err(e),
        }
    }

    /// The render target over a backing store that was allocated for it, drawn into through the
    /// store's own framebuffer. `backend` is what came of the allocation.
    pub fn create_surface<B: SurfaceBackend, E>(
        &self,
        allocation: SurfaceAllocation,
        backend: Result<B, E>,
    ) -> (r: Result<RenderableSurface<B>, E>)
        ensures
            surface_outcome(allocation, backend, r),
    {
        match backend {
            Ok(b) => {
                let fbo: u32 = b.fbo();
                Ok(
                    RenderableSurface {
                        width: allocation.width,
                        height: allocation.height,
                        fbo,
                        backend: b,
                    },
                )
            },
            Err(e) => Err(e),
        }
    }

    /// The same over a backing store whose colour attachment is a texture.
    pub fn create_texture_surface<B: SurfaceBackend, E>(
        &self,
        allocation: SurfaceAllocation,
        backend: Result<B, E>,
    ) -> (r: Result<RenderableSurface<B>, E>)
        ensures
            surface_outcome(allocation, backend, r),
    {
        self.create_surface(allocation, backend)
    }

    /// Give the backing store of `surface` up, for its resources to be released with the context
    /// current.
    pub fn destroy_surface<B>(&self, surface: RenderableSurface<B>) -> (r: (Vec<GpuStep>, B))
        ensures
            r.0@ == seq![GpuStep::MakeCurrent],
            r.1 == surface.backend,
    {
        (vec![GpuStep::MakeCurrent], surface.backend)
    }

    pub fn set_width(&mut self, width: u32)
        ensures
            final(self)@ == (RendererView { viewport_width: width, ..old(self)@ }),
    {
        self.viewport_width = width;
    }

    pub fn set_height(&mut self, height: u32)
        ensures
            final(self)@ == (RendererView { viewport_height: height, ..old(self)@ }),
    {
        self.viewport_height = height;
    }

    /// Bind `surface` as the draw target: its framebuffer, a viewport of its size, no scissor.
    /// The renderer's own viewport follows.
    pub fn active_surface<B>(&mut self, surface: &RenderableSurface<B>) -> (steps: Vec<GpuStep>)
        ensures
            steps@ == activation_steps(surface.fbo, surface.width, surface.height),
            final(self)@ == old(self)@.with_viewport(surface.width, surface.height),
    {
        self.viewport_width = surface.width;
        self.viewport_height = surface.height;
        vec![
            GpuStep::MakeCurrent,
            GpuStep::Gl(
                GlCall::BindFramebuffer { target: gl::FRAMEBUFFER, framebuffer: surface.fbo },
            ),
            GpuStep::Gl(
                GlCall::Viewport {
                    x: 0,
                    y: 0,
                    width: signed32(surface.width),
                    height: signed32(surface.height),
                },
            ),
            GpuStep::Gl(GlCall::Disable { capability: gl::SCISSOR_TEST }),
        ]
    }

    /// Restrict drawing to the pixels that `rect` touches, within the viewport; to nothing less
    /// than the whole target if there is no `rect`.
    pub fn set_scissor(&self, rect: Option<Rect>) -> (steps: Vec<GpuStep>)
        requires
            rect matches Some(r) ==> r.bounded(),
        ensures
            steps@ == scissor_steps(
                rect,
                self@.viewport_width as int,
                self@.viewport_height as int,
            ),
    {
        match rect {
            Some(r) => {
                let x0: i64 = first_pixel(r.x(), self.viewport_width);
                let y0: i64 = first_pixel(r.y(), self.viewport_height);
                let x1: i64 = last_pixel(r.right(), self.viewport_width);
                let y1: i64 = last_pixel(r.bottom(), self.viewport_height);
                let x: i32 = saturate(x0);
                let y: i32 = saturate(y0);
                let width: i32 = saturate(x1 - x0);
                let height: i32 = saturate(y1 - y0);
                vec![
                    GpuStep::Gl(GlCall::Enable { capability: gl::SCISSOR_TEST }),
                    GpuStep::Gl(GlCall::Scissor { x, y, width, height }),
                ]
            },
            None => vec![GpuStep::Gl(GlCall::Disable { capability: gl::SCISSOR_TEST })],
        }
    }

    /// Register the texture object `handle`, made with the context current, and say how to fill it
    /// with `data`, which must be `width * height` bytes for [`TextureFormat::R8`]. The texture is
    /// the renderer's from then on. Where there is no object the renderer stays as it was.
    pub fn create_texture(
        &mut self,
        handle: Result<u32, TextureError>,
        width: u32,
        height: u32,
        format: TextureFormat,
        data: Vec<u8>,
    ) -> (r: Result<TextureUpload, TextureError>)
        requires
            old(self)@.wf(),
            old(self)@.next_texture < u32::MAX,
        ensures
            final(self)@.wf(),
            texture_outcome(old(self)@, handle, width, height, data, r, final(self)@),
            r matches Ok(upload) ==> !old(self)@.textures.contains_key(upload.id.0),
    {
        let handle: u32 = match handle {
            Ok(h) => h,
            Err(e) => {
                return Err(e);
            },
        };
        // A single-channel texture is a luminance texture: the channel is readable as red.
        let pixel_format: u32 = match format {
            TextureFormat::R8 => gl::LUMINANCE,
        };
        let calls = vec![
            GlCall::BindTexture { target: gl::TEXTURE_2D, texture: Some(handle) },
            GlCall::PixelStore { parameter: gl::UNPACK_ALIGNMENT, value: 1 },
            GlCall::TexImage2d {
                target: gl::TEXTURE_2D,
                level: 0,
                internal_format: pixel_format as i32,
                width: signed32(width),
                height: signed32(height),
                border: 0,
                format: pixel_format,
                data_type: gl::UNSIGNED_BYTE,
            },
            GlCall::TexParameter {
                target: gl::TEXTURE_2D,
                parameter: gl::TEXTURE_MIN_FILTER,
                value: gl::LINEAR as i32,
            },
            GlCall::TexParameter {
                target: gl::TEXTURE_2D,
                parameter: gl::TEXTURE_MAG_FILTER,
                value: gl::LINEAR as i32,
            },
            GlCall::TexParameter {
                target: gl::TEXTURE_2D,
                parameter: gl::TEXTURE_WRAP_S,
                value: gl::CLAMP_TO_EDGE as i32,
            },
            GlCall::TexParameter {
                target: gl::TEXTURE_2D,
                parameter: gl::TEXTURE_WRAP_T,
                value: gl::CLAMP_TO_EDGE as i32,
            },
            GlCall::BindTexture { target: gl::TEXTURE_2D, texture: None },
        ];
        let id = TextureId(self.next_texture_id);
        self.next_texture_id = self.next_texture_id + 1;
        self.textures.insert(id.0, GpuTexture { handle, width, height });
        proof {
            let texture = GpuTexture { handle, width, height };
            assert(self@ =~= old(self)@.with_texture(texture));
            another_texture_keeps_wf(old(self)@, texture);
        }
        Ok(TextureUpload { id, calls, data })
    }

    /// Register a decoded atlas in the texture object `handle`, so that
    /// [`Renderer::get_texture_id`] finds it, and say how to fill the texture.
    pub fn register_atlas(
        &mut self,
        atlas: AtlasId,
        image: AtlasImage,
        handle: Result<u32, TextureError>,
    ) -> (r: Result<TextureUpload, TextureError>)
        requires
            old(self)@.wf(),
            old(self)@.next_texture < u32::MAX,
        ensures
            final(self)@.wf(),
            register_outcome(old(self)@, atlas, image, handle, r, final(self)@),
    {
        match self.create_texture(
            handle,
            image.width,
            image.height,
            TextureFormat::R8,
            image.data,
        ) {
            Ok(upload) => {
                self.atlas_map.insert(atlas.0, upload.id);
                Ok(upload)
            },
            Err(e) => Err(e),
        }
    }

    /// Decode a grayscale PNG atlas and register it in the texture object `handle`, so that
    /// [`Renderer::get_texture_id`] finds it. An atlas that cannot be uploaded leaves the renderer
    /// as it was; a file that does not decode counts before a missing texture.
    pub fn upload_atlas(&mut self, atlas: AtlasData, handle: Result<u32, TextureError>) -> (r:
        Result<TextureUpload, AtlasError>)
        requires
            old(self)@.wf(),
            old(self)@.next_texture < u32::MAX,
        ensures
            final(self)@.wf(),
            upload_outcome(old(self)@, atlas.id, atlas.png_bytes@, handle, r, final(self)@),
    {
        let image = match decode_atlas(atlas.png_bytes) {
            Ok(image) => image,
            Err(e) => {
                return Err(e);
            },
        };
        match self.register_atlas(atlas.id, image, handle) {
            Ok(upload) => Ok(upload),
            Err(e) => Err(AtlasError::Texture(e)),
        }
    }

    /// The texture that `atlas` was last uploaded to, if it was.
    pub fn find_texture_id(&self, atlas: AtlasId) -> (id: Option<TextureId>)
        ensures
            id == (if self@.atlases.contains_key(atlas.0) {
                Some(self@.atlases[atlas.0])
            } else {
                None
            }),
    {
        match self.atlas_map.get(&atlas.0) {
            Some(id) => Some(*id),
            None => None,
        }
    }

    /// The texture that `atlas` was last uploaded to.
    pub fn get_texture_id(&self, atlas: AtlasId) -> (id: TextureId)
        requires
            self@.atlases.contains_key(atlas.0),
        ensures
            id == self@.atlases[atlas.0],
    {
        *self.atlas_map.get(&atlas.0).unwrap()
    }

    /// The texture object behind an identity.
    pub fn texture(&self, id: TextureId) -> (texture: Option<GpuTexture>)
        ensures
            texture == (if self@.textures.contains_key(id.0) {
                Some(self@.textures[id.0])
            } else {
                None
            }),
    {
        match self.textures.get(&id.0) {
            Some(t) => Some(*t),
            None => None,
        }
    }

    /// Whether the shader programs are still to be compiled. Asking once is enough: from then on
    /// they count as compiled.
    pub fn init_pipelines(&mut self) -> (compile: bool)
        ensures
            compile == !old(self)@.pipelines,
            final(self)@ == old(self)@.with_pipelines(),
    {
        if self.pipelines {
            return false;
        }
        self.pipelines = true;
        true
    }

    pub fn process_clear(&self) -> (steps: Vec<GpuStep>)
        ensures
            steps@ == seq![GpuStep::Clear],
    {
        vec![GpuStep::Clear]
    }

    pub fn process_opaque(&self) -> (steps: Vec<GpuStep>)
        ensures
            steps@ == seq![GpuStep::Opaque],
    {
        vec![GpuStep::Opaque]
    }

    pub fn process_translucent(&self) -> (steps: Vec<GpuStep>)
        ensures
            steps@ == seq![GpuStep::Translucent],
    {
        vec![GpuStep::Translucent]
    }

    /// The whole frame in paint order, whatever order its commands were sent in.
    pub fn render_frame(&self) -> (steps: Vec<GpuStep>)
        ensures
            steps@ == frame_steps(),
    {
        let mut steps: Vec<GpuStep> = vec![GpuStep::MakeCurrent];
        let mut clear = self.process_clear();
        let mut opaque = self.process_opaque();
        let mut translucent = self.process_translucent();
        steps.append(&mut clear);
        steps.append(&mut opaque);
        steps.append(&mut translucent);
        assert(steps@ =~= frame_steps());
        steps
    }

    /// Wait until every pending command has completed, so that the compositor never reads a
    /// buffer that is still being drawn.
    pub fn finish(&self) -> (steps: Vec<GpuStep>)
        ensures
            steps@ == finish_steps(),
    {
        vec![GpuStep::MakeCurrent, GpuStep::Gl(GlCall::Finish)]
    }
}

impl<B: SurfaceBackend> RenderableSurface<B> {
    /// The calls that read the surface back, and the buffer for its pixels: what
    /// [`SurfaceBackend::read_pixels`] of its store gives for the surface's size.
    pub fn read_pixels(&self) -> (r: (Vec<GlCall>, Vec<u8>))
        requires
            self.width * self.height * 4 <= isize::MAX,
        ensures
            call_ensures(B::read_pixels, (&self.backend, self.width, self.height), r),
            r.1@.len() == read_back_len(self.width as int, self.height as int),
    {
        self.backend.read_pixels(self.width, self.height)
    }
}

/// The shader programs are compiled once: after the first request there is none to make.
pub proof fn pipelines_compile_once(v: RendererView)
    ensures
        v.with_pipelines().pipelines,
        v.with_pipelines().with_pipelines() == v.with_pipelines(),
{
}

/// The scissor box never leaves the viewport.
pub proof fn scissor_stays_in_viewport(rect: Rect, width: u32, height: u32)
    ensures
        ({
            let (x0, y0, x1, y1) = scissor_edges(rect, width as int, height as int);
            0 <= x0 <= width && 0 <= x1 <= width && 0 <= y0 <= height && 0 <= y1 <= height
        }),
{
}

/// Every pixel of the viewport that the interior of the rectangle touches is inside the box.
pub proof fn scissor_keeps_touched_pixels(
    rect: Rect,
    width: u32,
    height: u32,
    column: int,
    row: int,
    px: int,
    py: int,
)
    requires
        0 <= column < width,
        0 <= row < height,
        rect.origin.x <= px < rect.right_edge(),
        rect.origin.y <= py < rect.bottom_edge(),
        pixel_floor(px) == column,
        pixel_floor(py) == row,
    ensures
        ({
            let (x0, y0, x1, y1) = scissor_edges(rect, width as int, height as int);
            x0 <= column < x1 && y0 <= row < y1
        }),
{
}

/// A read-back has room for every pixel of the surface.
pub proof fn read_back_holds_every_pixel(width: u32, height: u32, column: int, row: int)
    requires
        0 <= column < width,
        0 <= row < height,
    ensures
        0 <= pixel_offset(width as int, column, row),
        pixel_offset(width as int, column, row) + 4 <= read_back_len(width as int, height as int),
{
    assert(0 <= row * width) by (nonlinear_arith)
        requires
            0 <= row,
            0 <= width,
    ;
    assert(row * width + width <= width * height) by (nonlinear_arith)
        requires
            row + 1 <= height,
            0 <= width,
    ;
}

/// No two pixels of a read-back share a byte.
pub proof fn read_back_pixels_are_apart(
    width: u32,
    column: int,
    row: int,
    other_column: int,
    other_row: int,
)
    requires
        0 <= column < width,
        0 <= other_column < width,
        row != other_row || column != other_column,
    ensures
        ({
            let a = pixel_offset(width as int, column, row);
            let b = pixel_offset(width as int, other_column, other_row);
            a + 4 <= b || b + 4 <= a
        }),
{
    if row < other_row {
        assert(row * width + width <= other_row * width) by (nonlinear_arith)
            requires
                row + 1 <= other_row,
                0 <= width,
        ;
    } else if other_row < row {
        assert(other_row * width + width <= row * width) by (nonlinear_arith)
            requires
                other_row + 1 <= row,
                0 <= width,
        ;
    }
}

/// Creating a texture succeeds exactly if there is an object for it. It then has an identity that
/// no texture had, and the size asked for, and every earlier texture stays; otherwise the textures
/// and the next identity are as they were.
pub proof fn created_texture_is_new(
    before: RendererView,
    handle: Result<u32, TextureError>,
    width: u32,
    height: u32,
    data: Vec<u8>,
    r: Result<TextureUpload, TextureError>,
    after: RendererView,
)
    requires
        before.wf(),
        before.next_texture < u32::MAX,
        texture_outcome(before, handle, width, height, data, r, after),
    ensures
        r is Ok <==> handle is Ok,
        r matches Ok(upload) ==> {
            &&& !before.textures.contains_key(upload.id.0)
            &&& after.textures.contains_key(upload.id.0)
            &&& after.textures[upload.id.0].width == width
            &&& after.textures[upload.id.0].height == height
            &&& forall|t: u32| #[trigger]
                before.textures.contains_key(t) ==> after.textures.contains_key(t)
                    && after.textures[t] == before.textures[t]
        },
        r is Err ==> after.textures == before.textures && after.next_texture
            == before.next_texture,
{
}

/// The renderer after a history of attempts to create a texture; those without an object failed.
pub open spec fn after_attempts(
    start: RendererView,
    attempts: Seq<Option<GpuTexture>>,
) -> RendererView
    decreases attempts.len(),
{
    if attempts.len() == 0 {
        start
    } else {
        let before = after_attempts(start, attempts.drop_last());
        match attempts.last() {
            Some(texture) => before.with_texture(texture),
            None => before,
        }
    }
}

proof fn attempts_only_add(
    start: RendererView,
    attempts: Seq<Option<GpuTexture>>,
    i: int,
    j: int,
)
    requires
        0 <= i <= j <= attempts.len(),
        start.next_texture + attempts.len() <= u32::MAX,
    ensures
        start.next_texture <= after_attempts(start, attempts.take(i)).next_texture
            <= start.next_texture + i,
        after_attempts(start, attempts.take(i)).next_texture <= after_attempts(
            start,
            attempts.take(j),
        ).next_texture <= start.next_texture + j,
    decreases j,
{
    if j > 0 {
        assert(attempts.take(j).drop_last() =~= attempts.take(j - 1));
        if i < j {
            attempts_only_add(start, attempts, i, j - 1);
        } else {
            attempts_only_add(start, attempts, j - 1, j - 1);
        }
    }
}

/// Over any history of attempts, no identity is handed out twice: that of an attempt that succeeds
/// is below that of every later one.
pub proof fn texture_identities_differ(
    start: RendererView,
    attempts: Seq<Option<GpuTexture>>,
    i: int,
    j: int,
)
    requires
        0 <= i < j < attempts.len(),
        attempts[i] is Some,
        start.next_texture + attempts.len() <= u32::MAX,
    ensures
        after_attempts(start, attempts.take(i)).next_texture < after_attempts(
            start,
            attempts.take(j),
        ).next_texture,
{
    assert(attempts.take(i + 1).drop_last() =~= attempts.take(i));
    attempts_only_add(start, attempts, i, i + 1);
    attempts_only_add(start, attempts, i + 1, j);
}

/// A failed attempt costs nothing: the next texture gets the identity that the failed one would
/// have had.
pub proof fn failed_attempt_keeps_the_identity(
    start: RendererView,
    attempts: Seq<Option<GpuTexture>>,
)
    ensures
        after_attempts(start, attempts.push(None)) == after_attempts(start, attempts),
{
    assert(attempts.push(None).drop_last() =~= attempts);
}

/// An atlas that was uploaded is found under the texture that the upload named, and that texture
/// exists.
pub proof fn uploaded_atlas_is_found(before: RendererView, atlas: AtlasId, texture: GpuTexture)
    requires
        before.wf(),
        before.next_texture < u32::MAX,
    ensures
        before.with_atlas(atlas, texture).atlases[atlas.0] == TextureId(before.next_texture),
        before.with_atlas(atlas, texture).textures[before.next_texture] == texture,
        before.with_atlas(atlas, texture).wf(),
{
}

/// An atlas is uploaded exactly if its file decodes and there is a texture object for it.
pub proof fn decodable_atlases_are_uploaded(
    before: RendererView,
    atlas: AtlasId,
    bytes: Seq<u8>,
    handle: Result<u32, TextureError>,
    r: Result<TextureUpload, AtlasError>,
    after: RendererView,
)
    requires
        upload_outcome(before, atlas, bytes, handle, r, after),
    ensures
        r is Ok <==> handle is Ok && exists|image: AtlasImage| decodes_to(bytes, Ok(image)),
        r is Err ==> after == before,
{
}

/// Uploading one atlas leaves every other atlas where it was, texture and all.
pub proof fn upload_keeps_other_atlases(
    before: RendererView,
    atlas: AtlasId,
    texture: GpuTexture,
    other: u32,
)
    requires
        before.wf(),
        before.next_texture < u32::MAX,
        other != atlas.0,
        before.atlases.contains_key(other),
    ensures
        before.with_atlas(atlas, texture).atlases.contains_key(other),
        before.with_atlas(atlas, texture).atlases[other] == before.atlases[other],
        before.with_atlas(atlas, texture).textures[before.atlases[other].0]
            == before.textures[before.atlases[other].0],
{
}

/// The scissor call is the rectangle rounded outward to whole pixels: a pixel of the viewport is in
/// the box of the call exactly if it lies neither left of the pixel that the left edge is in, nor
/// right of the right edge, nor above, nor below. A pixel is 256 steps wide and high.
pub proof fn scissor_call_holds_the_touched_pixels(
    rect: Rect,
    width: u32,
    height: u32,
    column: int,
    row: int,
)
    requires
        width <= i32::MAX,
        height <= i32::MAX,
        0 <= column < width,
        0 <= row < height,
    ensures
        ({
            let steps = scissor_steps(Some(rect), width as int, height as int);
            &&& steps.len() == 2
            &&& steps[0] == GpuStep::Gl(GlCall::Enable { capability: gl::SCISSOR_TEST })
            &&& steps[1] matches GpuStep::Gl(GlCall::Scissor { x, y, width: w, height: h }) && ((x
                <= column < x + w && y <= row < y + h) <==> (rect.origin.x < 256 * (column + 1)
                && 256 * column < rect.origin.x + rect.size.width && rect.origin.y < 256 * (row + 1)
                && 256 * row < rect.origin.y + rect.size.height))
        }),
{
}

/// The same on each axis alone: whether a column is in the box depends on the left and right edges
/// only, and whether a row is, on the top and bottom edges only.
pub proof fn scissor_call_goes_by_each_axis(
    rect: Rect,
    width: u32,
    height: u32,
    column: int,
    row: int,
)
    requires
        width <= i32::MAX,
        height <= i32::MAX,
        0 <= column < width,
        0 <= row < height,
    ensures
        scissor_steps(Some(rect), width as int, height as int)[1] matches GpuStep::Gl(
            GlCall::Scissor { x, y, width: w, height: h },
        ) && {
            &&& x <= column < x + w <==> rect.origin.x < 256 * (column + 1) && 256 * column
                < rect.origin.x + rect.size.width
            &&& y <= row < y + h <==> rect.origin.y < 256 * (row + 1) && 256 * row < rect.origin.y
                + rect.size.height
        },
{
}

/// The box of the scissor call lies in the viewport, and without a rectangle the scissor is off.
pub proof fn scissor_call_lies_in_the_viewport(rect: Rect, width: u32, height: u32)
    requires
        width <= i32::MAX,
        height <= i32::MAX,
    ensures
        scissor_steps(Some(rect), width as int, height as int)[1] matches GpuStep::Gl(
            GlCall::Scissor { x, y, width: w, height: h },
        ) && 0 <= x <= width && 0 <= y <= height && 0 <= x + w <= width && 0 <= y + h <= height,
        scissor_steps(None, width as int, height as int) == seq![
            GpuStep::Gl(GlCall::Disable { capability: gl::SCISSOR_TEST }),
        ],
{
}

/// Activating a surface binds its framebuffer and no other, gives it a viewport that is the whole
/// of it, and turns the scissor off, all with the context current.
pub proof fn activation_targets_the_whole_surface(fbo: u32, width: u32, height: u32, i: int)
    requires
        0 <= i < activation_steps(fbo, width, height).len(),
    ensures
        ({
            let steps = activation_steps(fbo, width, height);
            &&& steps.len() == 4
            &&& steps[0] is MakeCurrent
            &&& steps[1] is Gl && steps[1]->Gl_0 is BindFramebuffer
            &&& steps[2] is Gl && steps[2]->Gl_0 is Viewport
            &&& steps[3] == GpuStep::Gl(GlCall::Disable { capability: gl::SCISSOR_TEST })
            &&& steps[i] matches GpuStep::Gl(GlCall::BindFramebuffer { target, framebuffer })
                ==> target == gl::FRAMEBUFFER && framebuffer == fbo
            &&& steps[i] matches GpuStep::Gl(GlCall::Viewport { x, y, width: w, height: h }) ==> x
                == 0 && y == 0 && (w == width || w + 0x1_0000_0000 == width) && (h == height || h + 0x1_0000_0000 == height)
        }),
{
}

/// An upload hands the pixels over in one call, with the size that was asked for, while the new
/// texture object is bound and rows follow each other without a gap; then the object is unbound.
/// `i` is any call of the upload.
pub proof fn upload_hands_over_an_image_of_the_size(handle: u32, width: u32, height: u32, i: int)
    requires
        0 <= i < upload_calls(handle, width, height).len(),
    ensures
        ({
            let calls = upload_calls(handle, width, height);
            &&& calls.len() == 8
            &&& calls[0] == (GlCall::BindTexture { target: gl::TEXTURE_2D, texture: Some(handle) })
            &&& calls[1] == (GlCall::PixelStore { parameter: gl::UNPACK_ALIGNMENT, value: 1 })
            &&& calls[7] == (GlCall::BindTexture { target: gl::TEXTURE_2D, texture: None })
            &&& calls[i] is BindTexture <==> i == 0 || i == 7
            &&& calls[i] is TexImage2d <==> i == 2
            &&& calls[2] matches GlCall::TexImage2d {
                target,
                level,
                internal_format,
                width: w,
                height: h,
                border,
                format,
                data_type,
            } && {
                &&& (w == width || w + 0x1_0000_0000 == width)
                &&& (h == height || h + 0x1_0000_0000 == height)
                &&& target == gl::TEXTURE_2D && level == 0 && border == 0
                &&& internal_format == gl::LUMINANCE && format == gl::LUMINANCE
                &&& data_type == gl::UNSIGNED_BYTE
            }
        }),
{
}

/// An upload sets each of the four parameters of the bound texture once: both filters to linear,
/// both wraps to the edge. `i` and `j` are any two of its calls.
pub proof fn upload_sets_each_parameter_once(
    handle: u32,
    width: u32,
    height: u32,
    i: int,
    j: int,
)
    requires
        0 <= i < upload_calls(handle, width, height).len(),
        0 <= j < upload_calls(handle, width, height).len(),
    ensures
        ({
            let calls = upload_calls(handle, width, height);
            &&& 3 <= i <= 6 ==> calls[i] is TexParameter
            &&& calls[i] matches GlCall::TexParameter { target, parameter, value } ==> {
                &&& target == gl::TEXTURE_2D
                &&& parameter == gl::TEXTURE_MIN_FILTER || parameter == gl::TEXTURE_MAG_FILTER
                    ==> value == gl::LINEAR
                &&& parameter == gl::TEXTURE_WRAP_S || parameter == gl::TEXTURE_WRAP_T ==> value
                    == gl::CLAMP_TO_EDGE
                &&& parameter == gl::TEXTURE_MIN_FILTER || parameter == gl::TEXTURE_MAG_FILTER
                    || parameter == gl::TEXTURE_WRAP_S || parameter == gl::TEXTURE_WRAP_T
                &&& calls[j] matches GlCall::TexParameter { target: _, parameter: other, value: _ }
                    ==> (parameter == other ==> i == j)
            }
        }),
{
}

/// The size in the call that hands the pixels over is the size that is remembered for the texture,
/// the pixels are the data, and the texel in a column and row, counted along the rows, is one of
/// them.
pub proof fn uploaded_size_is_the_remembered_size(
    before: RendererView,
    handle: u32,
    width: u32,
    height: u32,
    data: Vec<u8>,
    r: Result<TextureUpload, TextureError>,
    after: RendererView,
    column: int,
    row: int,
)
    requires
        width <= i32::MAX,
        height <= i32::MAX,
        data@.len() == width * height,
        0 <= column < width,
        0 <= row < height,
        texture_outcome(before, Ok(handle), width, height, data, r, after),
    ensures
        r matches Ok(upload) && {
            &&& upload.data@ == data@
            &&& 0 <= row * width + column < upload.data@.len()
            &&& after.textures.contains_key(upload.id.0)
            &&& after.textures[upload.id.0].handle == handle
            &&& upload.calls@[2] matches GlCall::TexImage2d {
                target,
                level,
                internal_format,
                width: w,
                height: h,
                border,
                format,
                data_type,
            } && w == after.textures[upload.id.0].width && h == after.textures[upload.id.0].height
        },
{
    assert(0 <= row * width) by (nonlinear_arith)
        requires
            0 <= row,
            0 <= width,
    ;
    assert(row * width + width <= width * height) by (nonlinear_arith)
        requires
            row + 1 <= height,
            0 <= width,
    ;
}

/// Creating a texture or uploading an atlas changes nothing but the textures, the atlases and the
/// next identity, which goes up by one.
pub proof fn uploads_leave_the_rest_alone(before: RendererView, atlas: AtlasId, texture: GpuTexture)
    requires
        before.next_texture < u32::MAX,
    ensures
        ({
            let t = before.with_texture(texture);
            let a = before.with_atlas(atlas, texture);
            &&& t.next_texture == before.next_texture + 1
            &&& t.atlases == before.atlases
            &&& t.viewport_width == before.viewport_width
            &&& t.viewport_height == before.viewport_height
            &&& t.pipelines == before.pipelines
            &&& a.next_texture == before.next_texture + 1
            &&& a.textures == t.textures
            &&& a.viewport_width == before.viewport_width
            &&& a.viewport_height == before.viewport_height
            &&& a.pipelines == before.pipelines
        }),
{
}

/// A registered atlas is found in the texture of its upload, which takes the atlas's own pixels and
/// size; every other atlas is found where it was.
pub proof fn registered_atlas_shows_its_image(
    before: RendererView,
    atlas: AtlasId,
    image: AtlasImage,
    handle: u32,
    r: Result<TextureUpload, TextureError>,
    after: RendererView,
    other: u32,
)
    requires
        register_outcome(before, atlas, image, Ok(handle), r, after),
        image.width <= i32::MAX,
        image.height <= i32::MAX,
        before.atlases.contains_key(other),
        other != atlas.0,
    ensures
        r matches Ok(upload) && {
            &&& after.atlases.contains_key(atlas.0)
            &&& after.atlases[atlas.0] == upload.id
            &&& after.atlases.contains_key(other)
            &&& after.atlases[other] == before.atlases[other]
            &&& upload.data@ == image.data@
            &&& after.textures[upload.id.0].handle == handle
            &&& after.textures[upload.id.0].width == image.width
            &&& after.textures[upload.id.0].height == image.height
            &&& upload.calls@[0] == (GlCall::BindTexture {
                target: gl::TEXTURE_2D,
                texture: Some(handle),
            })
            &&& upload.calls@[2] matches GlCall::TexImage2d {
                target,
                level,
                internal_format,
                width: w,
                height: h,
                border,
                format,
                data_type,
            } && w == image.width && h == image.height
        },
{
}

/// An atlas that was uploaded from a file shows what the file decodes to, at the size it decodes
/// to.
pub proof fn uploaded_file_shows_its_image(
    before: RendererView,
    atlas: AtlasId,
    bytes: Seq<u8>,
    handle: u32,
    image: AtlasImage,
    r: Result<TextureUpload, AtlasError>,
    after: RendererView,
)
    requires
        upload_outcome(before, atlas, bytes, Ok(handle), r, after),
        decodes_to(bytes, Ok(image)),
    ensures
        r matches Ok(upload) && {
            &&& upload.data@ == image.data@
            &&& after.atlases[atlas.0] == upload.id
            &&& after.textures[upload.id.0].handle == handle
            &&& after.textures[upload.id.0].width == image.width
            &&& after.textures[upload.id.0].height == image.height
        },
{
}

/// A read-back is of the framebuffer asked for, from its corner and over its whole size.
pub proof fn read_back_is_of_the_whole_surface(fbo: u32, width: u32, height: u32)
    ensures
        ({
            let calls = read_calls(fbo, width, height);
            &&& calls.len() == 2
            &&& calls[0] == (GlCall::BindFramebuffer { target: gl::FRAMEBUFFER, framebuffer: fbo })
            &&& calls[1] matches GlCall::ReadPixels { x, y, width: w, height: h, format, data_type }
                && x == 0 && y == 0 && (w == width || w + 0x1_0000_0000 == width) && (h == height || h + 0x1_0000_0000 == height) && format == gl::RGBA
                && data_type == gl::UNSIGNED_BYTE
        }),
{
}

/// The pixels of a read-back follow each other along the rows, four bytes each, from the first byte
/// on, and the last pixel ends with the last byte.
pub proof fn read_back_pixels_follow_each_other(width: u32, height: u32, column: int, row: int)
    requires
        width > 0,
        height > 0,
    ensures
        pixel_offset(width as int, 0, 0) == 0,
        pixel_offset(width as int, column + 1, row) == pixel_offset(width as int, column, row) + 4,
        pixel_offset(width as int, 0, row + 1) == pixel_offset(width as int, width - 1, row) + 4,
        pixel_offset(width as int, width - 1, height - 1) + 4 == read_back_len(
            width as int,
            height as int,
        ),
        read_back_len(width as int, 0) == 0,
        read_back_len(0, height as int) == 0,
{
    assert((row + 1) * width == row * width + width) by (nonlinear_arith);
    assert((height - 1) * width + width == width * height) by (nonlinear_arith);
}

/// In a frame the clear comes before the opaque pass and that before the translucent pass, each
/// once and with the context current; waiting for the GPU is the last thing of all.
pub proof fn passes_run_in_paint_order(i: int, j: int)
    requires
        0 <= i < frame_steps().len(),
        0 <= j < frame_steps().len(),
    ensures
        ({
            let steps = frame_steps();
            &&& steps.len() == 4
            &&& steps[0] is MakeCurrent
            &&& steps.contains(GpuStep::Clear)
            &&& steps.contains(GpuStep::Opaque)
            &&& steps.contains(GpuStep::Translucent)
            &&& steps[i] == steps[j] ==> i == j
            &&& steps[i] is Clear && steps[j] is Opaque ==> i < j
            &&& steps[i] is Opaque && steps[j] is Translucent ==> i < j
            &&& finish_steps().len() == 2
            &&& finish_steps()[0] is MakeCurrent
            &&& finish_steps()[1] == GpuStep::Gl(GlCall::Finish)
        }),
{
    let steps = frame_steps();
    assert(steps[1] is Clear && steps[2] is Opaque && steps[3] is Translucent);
}

/// A surface is created exactly if its store was allocated. It has the size that was asked for and
/// draws into the store's own framebuffer.
pub proof fn created_surface_draws_into_its_store<B: SurfaceBackend, E>(
    allocation: SurfaceAllocation,
    backend: Result<B, E>,
    r: Result<RenderableSurface<B>, E>,
)
    requires
        surface_outcome(allocation, backend, r),
    ensures
        r is Ok <==> backend is Ok,
        r matches Ok(s) ==> {
            &&& s.width == allocation.extent().0
            &&& s.height == allocation.extent().1
            &&& s.fbo == s.backend.target()
            &&& backend == Ok::<B, E>(s.backend)
        },
        r matches Err(e) ==> backend == Err::<B, E>(e),
{
}

/// A number is brought to the nearest one of 32 bits.
pub proof fn saturated_is_the_nearest(v: int, other: i32)
    ensures
        i32::MIN <= saturated(v) <= i32::MAX,
        v <= saturated(v) <= other || v >= saturated(v) >= other || saturated(v) == v,
        i32::MIN <= v <= i32::MAX ==> saturated(v) == v,
{
}

/// The scissor box on a viewport of any size: each part of the call is the one that the edges give,
/// as far as 32 bits go. The left edge of the box is in the pixel that the rectangle's left edge is
/// in, and its right edge is where the last pixel that the rectangle touches ends, both kept within
/// the viewport; likewise from top to bottom.
pub proof fn scissor_edges_are_pixel_boundaries(rect: Rect, width: u32, height: u32)
    ensures
        ({
            let (x0, y0, x1, y1) = scissor_edges(rect, width as int, height as int);
            let (left, top) = (rect.origin.x as int, rect.origin.y as int);
            let (right, bottom) = (left + rect.size.width, top + rect.size.height);
            &&& 0 < x0 < width ==> 256 * x0 <= left < 256 * (x0 + 1)
            &&& x0 == 0 && width > 0 ==> left < 256
            &&& x0 == width && width > 0 ==> 256 * width <= left
            &&& 0 < y0 < height ==> 256 * y0 <= top < 256 * (y0 + 1)
            &&& y0 == 0 && height > 0 ==> top < 256
            &&& y0 == height && height > 0 ==> 256 * height <= top
            &&& 0 < x1 < width ==> 256 * (x1 - 1) < right <= 256 * x1
            &&& x1 == 0 && width > 0 ==> right <= 0
            &&& x1 == width && width > 0 ==> 256 * (width - 1) < right
            &&& 0 < y1 < height ==> 256 * (y1 - 1) < bottom <= 256 * y1
            &&& y1 == 0 && height > 0 ==> bottom <= 0
            &&& y1 == height && height > 0 ==> 256 * (height - 1) < bottom
            &&& scissor_steps(Some(rect), width as int, height as int)[1] matches GpuStep::Gl(
                GlCall::Scissor { x, y, width: w, height: h },
            ) && x == saturated(x0) && y == saturated(y0) && w == saturated(x1 - x0) && h
                == saturated(y1 - y0)
        }),
{
}

/// A viewport has the size it was given, and nothing else of the renderer goes with it; the same
/// for compiled shader programs.
pub proof fn viewport_and_pipelines_are_on_their_own(v: RendererView, width: u32, height: u32)
    ensures
        v.with_viewport(width, height).viewport_width == width,
        v.with_viewport(width, height).viewport_height == height,
        v.with_viewport(width, height).textures == v.textures,
        v.with_viewport(width, height).atlases == v.atlases,
        v.with_viewport(width, height).next_texture == v.next_texture,
        v.with_viewport(width, height).pipelines == v.pipelines,
        v.with_pipelines().textures == v.textures,
        v.with_pipelines().atlases == v.atlases,
        v.with_pipelines().next_texture == v.next_texture,
        v.with_pipelines().viewport_width == v.viewport_width,
        v.with_pipelines().viewport_height == v.viewport_height,
{
}

} // verus!
