//! Render targets that can be shown: a DMA-BUF imported as an EGL image, backed by a
//! renderbuffer and bound to a framebuffer, and the swap-chain slots made of them.
//!
//! Allocation alternates between the device and decisions. [`advance`] takes what the device
//! answered and says what to ask next; [`AllocState::calls`] are the GL calls that go before the
//! question.

use vstd::prelude::*;

use crate::geometry::{zero_rect, Rect};
use crate::gl;
use crate::gl::{signed32, signed_bits, GlCall};
use crate::renderer::SurfaceBackend;
use crate::window::ObjectId;

verus! {

pub const EGL_NONE: i32 = 0x3038;

pub const EGL_HEIGHT: i32 = 0x3056;

pub const EGL_WIDTH: i32 = 0x3057;

pub const EGL_LINUX_DMA_BUF_EXT: u32 = 0x3270;

pub const EGL_LINUX_DRM_FOURCC_EXT: i32 = 0x3271;

pub const EGL_DMA_BUF_PLANE0_FD_EXT: i32 = 0x3272;

pub const EGL_DMA_BUF_PLANE0_OFFSET_EXT: i32 = 0x3273;

pub const EGL_DMA_BUF_PLANE0_PITCH_EXT: i32 = 0x3274;

pub const EGL_DMA_BUF_PLANE0_MODIFIER_LO_EXT: i32 = 0x3443;

pub const EGL_DMA_BUF_PLANE0_MODIFIER_HI_EXT: i32 = 0x3444;

/// The pixel format of every buffer: 32 bits, alpha first.
pub const DRM_FORMAT_ARGB8888: u32 = 0x34325241;

/// A finished render target: the file descriptor to hand to the compositor, the EGL image over
/// the same memory, and the GL objects that draw into it.
#[derive(Debug, Clone, Copy, PartialEq, Eq, Structural)]
pub struct DmaBuf {
    pub prime_fd: i32,
    pub egl_image: u64,
    /// Bytes per row.
    pub stride: u32,
    /// The layout of the memory, as the kernel numbers it.
    pub modifier: u64,
    /// The renderbuffer over the image.
    pub rbo: u32,
    /// The depth renderbuffer.
    pub depth_rbo: u32,
    pub fbo: u32,
}

/// The question to the device that an allocation waits for.
#[derive(Debug, Clone, Copy, PartialEq, Eq, Structural)]
pub enum AllocStage {
    /// Create a linear ARGB8888 buffer for rendering.
    Buffer,
    /// Export the buffer as a file descriptor.
    Export,
    /// Import the file descriptor as an EGL image.
    Image,
    /// Create the colour renderbuffer.
    Renderbuffer,
    /// Create the framebuffer.
    Framebuffer,
    /// Create the depth renderbuffer.
    DepthRenderbuffer,
    /// Check that the framebuffer is complete.
    Status,
}

/// An answer of the device.
#[derive(Debug, Clone, Copy)]
pub enum AllocReply {
    /// The modifier of the buffer that was created, if one was.
    Buffer(Option<u64>),
    /// The file descriptor and the stride, if the export succeeded.
    Export(Option<(i32, u32)>),
    /// The image; 0 if there is none.
    Image(u64),
    Renderbuffer(Option<u32>),
    Framebuffer(Option<u32>),
    DepthRenderbuffer(Option<u32>),
    Status(u32),
}

#[derive(Debug, Clone, Copy, PartialEq, Eq, Structural)]
pub enum AllocError {
    CreateBuffer,
    ExportFd,
    CreateImage,
    CreateRenderbuffer,
    CreateFramebuffer,
    CreateDepthRenderbuffer,
    /// The framebuffer is not complete; the status says why.
    Incomplete(u32),
}

/// An allocation under way. The fields of `buf` that are not known yet are 0.
#[derive(Debug, Clone, Copy, PartialEq, Eq, Structural)]
pub struct AllocState {
    pub width: u32,
    pub height: u32,
    pub stage: AllocStage,
    pub buf: DmaBuf,
}

#[derive(Debug, Clone, Copy, PartialEq, Eq, Structural)]
pub enum AllocProgress {
    Continue(AllocState),
    Done(DmaBuf),
    Failed(AllocError),
}

/// The lower half of a modifier.
pub open spec fn low_word(modifier: u64) -> u32 {
    (modifier as int % 0x1_0000_0000) as u32
}

/// The upper half of a modifier.
pub open spec fn high_word(modifier: u64) -> u32 {
    (modifier as int / 0x1_0000_0000) as u32
}

/// The attributes that describe a single-plane buffer for import as an EGL image.
pub open spec fn image_attribs(
    width: u32,
    height: u32,
    fd: i32,
    stride: u32,
    modifier: u64,
) -> Seq<i32> {
    seq![
        EGL_WIDTH,
        signed_bits(width as int) as i32,
        EGL_HEIGHT,
        signed_bits(height as int) as i32,
        EGL_LINUX_DRM_FOURCC_EXT,
        DRM_FORMAT_ARGB8888 as i32,
        EGL_DMA_BUF_PLANE0_FD_EXT,
        fd,
        EGL_DMA_BUF_PLANE0_OFFSET_EXT,
        0i32,
        EGL_DMA_BUF_PLANE0_PITCH_EXT,
        signed_bits(stride as int) as i32,
        EGL_DMA_BUF_PLANE0_MODIFIER_LO_EXT,
        signed_bits(low_word(modifier) as int) as i32,
        EGL_DMA_BUF_PLANE0_MODIFIER_HI_EXT,
        signed_bits(high_word(modifier) as int) as i32,
        EGL_NONE,
    ]
}

/// The reply answers the question of the stage.
pub open spec fn answers(stage: AllocStage, reply: AllocReply) -> bool {
    match stage {
        AllocStage::Buffer => reply is Buffer,
        AllocStage::Export => reply is Export,
        AllocStage::Image => reply is Image,
        AllocStage::Renderbuffer => reply is Renderbuffer,
        AllocStage::Framebuffer => reply is Framebuffer,
        AllocStage::DepthRenderbuffer => reply is DepthRenderbuffer,
        AllocStage::Status => reply is Status,
    }
}

/// Where an allocation stands after a reply: one stage on with what the reply brought, done, or
/// failed for the reason that the stage gives.
pub open spec fn progress(state: AllocState, reply: AllocReply) -> AllocProgress {
    let buf = state.buf;
    match reply {
        AllocReply::Buffer(Some(modifier)) => AllocProgress::Continue(
            AllocState { stage: AllocStage::Export, buf: DmaBuf { modifier, ..buf }, ..state },
        ),
        AllocReply::Buffer(None) => AllocProgress::Failed(AllocError::CreateBuffer),
        AllocReply::Export(Some((prime_fd, stride))) => AllocProgress::Continue(
            AllocState {
                stage: AllocStage::Image,
                buf: DmaBuf { prime_fd, stride, ..buf },
                ..state
            },
        ),
        AllocReply::Export(None) => AllocProgress::Failed(AllocError::ExportFd),
        AllocReply::Image(egl_image) => if egl_image == 0 {
            AllocProgress::Failed(AllocError::CreateImage)
        } else {
            AllocProgress::Continue(
                AllocState {
                    stage: AllocStage::Renderbuffer,
                    buf: DmaBuf { egl_image, ..buf },
                    ..state
                },
            )
        },
        AllocReply::Renderbuffer(Some(rbo)) => AllocProgress::Continue(
            AllocState { stage: AllocStage::Framebuffer, buf: DmaBuf { rbo, ..buf }, ..state },
        ),
        AllocReply::Renderbuffer(None) => AllocProgress::Failed(AllocError::CreateRenderbuffer),
        AllocReply::Framebuffer(Some(fbo)) => AllocProgress::Continue(
            AllocState {
                stage: AllocStage::DepthRenderbuffer,
                buf: DmaBuf { fbo, ..buf },
                ..state
            },
        ),
        AllocReply::Framebuffer(None) => AllocProgress::Failed(AllocError::CreateFramebuffer),
        AllocReply::DepthRenderbuffer(Some(depth_rbo)) => AllocProgress::Continue(
            AllocState { stage: AllocStage::Status, buf: DmaBuf { depth_rbo, ..buf }, ..state },
        ),
        AllocReply::DepthRenderbuffer(None) => AllocProgress::Failed(
            AllocError::CreateDepthRenderbuffer,
        ),
        AllocReply::Status(status) => if status == gl::FRAMEBUFFER_COMPLETE {
            AllocProgress::Done(buf)
        } else {
            AllocProgress::Failed(AllocError::Incomplete(status))
        },
    }
}

/// The GL calls before the question of the state's stage.
pub open spec fn calls_before(state: AllocState) -> Seq<GlCall> {
    match state.stage {
        AllocStage::Framebuffer => seq![
            GlCall::BindRenderbuffer { target: gl::RENDERBUFFER, renderbuffer: state.buf.rbo },
            GlCall::RenderbufferImage { target: gl::RENDERBUFFER, image: state.buf.egl_image },
        ],
        AllocStage::Status => seq![
            GlCall::BindRenderbuffer {
                target: gl::RENDERBUFFER,
                renderbuffer: state.buf.depth_rbo,
            },
            GlCall::RenderbufferStorage {
                target: gl::RENDERBUFFER,
                format: gl::DEPTH_COMPONENT24,
                width: signed_bits(state.width as int) as i32,
                height: signed_bits(state.height as int) as i32,
            },
            GlCall::BindFramebuffer { target: gl::FRAMEBUFFER, framebuffer: state.buf.fbo },
            GlCall::FramebufferRenderbuffer {
                target: gl::FRAMEBUFFER,
                attachment: gl::COLOR_ATTACHMENT0,
                renderbuffer_target: gl::RENDERBUFFER,
                renderbuffer: state.buf.rbo,
            },
            GlCall::FramebufferRenderbuffer {
                target: gl::FRAMEBUFFER,
                attachment: gl::DEPTH_ATTACHMENT,
                renderbuffer_target: gl::RENDERBUFFER,
                renderbuffer: state.buf.depth_rbo,
            },
        ],
        _ => Seq::empty(),
    }
}

/// A render target of which nothing is known.
pub open spec fn blank_dmabuf() -> DmaBuf {
    DmaBuf {
        prime_fd: 0,
        egl_image: 0,
        stride: 0,
        modifier: 0,
        rbo: 0,
        depth_rbo: 0,
        fbo: 0,
    }
}

/// The calls that release a target.
pub open spec fn release_calls(buf: DmaBuf) -> Seq<GlCall> {
    seq![
        GlCall::DeleteFramebuffer { framebuffer: buf.fbo },
        GlCall::DeleteRenderbuffer { renderbuffer: buf.depth_rbo },
        GlCall::DeleteRenderbuffer { renderbuffer: buf.rbo },
        GlCall::DestroyImage { image: buf.egl_image },
    ]
}

/// How a target is described to the compositor: one plane, from its first byte on.
pub open spec fn described_buffer(
    width: u32,
    height: u32,
    stride: u32,
    modifier: u64,
) -> BufferParams {
    BufferParams {
        plane: 0,
        offset: 0,
        stride,
        modifier_hi: high_word(modifier),
        modifier_lo: low_word(modifier),
        width: signed_bits(width as int) as i32,
        height: signed_bits(height as int) as i32,
        format: DRM_FORMAT_ARGB8888,
        flags: 0,
    }
}

/// The two halves of a modifier: lower, upper.
pub fn modifier_words(modifier: u64) -> (words: (u32, u32))
    ensures
        words.0 == low_word(modifier),
        words.1 == high_word(modifier),
{
    proof {
        assert(modifier & 0xffff_ffffu64 == modifier % 0x1_0000_0000u64) by (bit_vector);
        assert(modifier >> 32u64 == modifier / 0x1_0000_0000u64) by (bit_vector);
    }
    ((modifier & 0xffff_ffff) as u32, (modifier >> 32) as u32)
}

/// The attributes that describe the buffer for import as an EGL image.
pub fn import_attribs(width: u32, height: u32, fd: i32, stride: u32, modifier: u64) -> (attribs:
    [i32; 17])
    ensures
        attribs@ == image_attribs(width, height, fd, stride, modifier),
{
    let (low, high) = modifier_words(modifier);
    let attribs = [
        EGL_WIDTH,
        signed32(width),
        EGL_HEIGHT,
        signed32(height),
        EGL_LINUX_DRM_FOURCC_EXT,
        DRM_FORMAT_ARGB8888 as i32,
        EGL_DMA_BUF_PLANE0_FD_EXT,
        fd,
        EGL_DMA_BUF_PLANE0_OFFSET_EXT,
        0,
        EGL_DMA_BUF_PLANE0_PITCH_EXT,
        signed32(stride),
        EGL_DMA_BUF_PLANE0_MODIFIER_LO_EXT,
        signed32(low),
        EGL_DMA_BUF_PLANE0_MODIFIER_HI_EXT,
        signed32(high),
        EGL_NONE,
    ];
    assert(attribs@ =~= image_attribs(width, height, fd, stride, modifier));
    attribs
}

/// Start allocating a render target.
pub fn allocate(width: u32, height: u32) -> (state: AllocState)
    ensures
        state == (AllocState { width, height, stage: AllocStage::Buffer, buf: blank_dmabuf() }),
{
    AllocState {
        width,
        height,
        stage: AllocStage::Buffer,
        buf: DmaBuf {
            prime_fd: 0,
            egl_image: 0,
            stride: 0,
            modifier: 0,
            rbo: 0,
            depth_rbo: 0,
            fbo: 0,
        },
    }
}

/// Take the device's answer to the question of the stage.
pub fn advance(state: AllocState, reply: AllocReply) -> (next: AllocProgress)
    requires
        answers(state.stage, reply),
    ensures
        next == progress(state, reply),
{
    let mut state = state;
    match reply {
        AllocReply::Buffer(Some(modifier)) => {
            state.buf.modifier = modifier;
            state.stage = AllocStage::Export;
        },
        AllocReply::Buffer(None) => {
            return AllocProgress::Failed(AllocError::CreateBuffer);
        },
        AllocReply::Export(Some((prime_fd, stride))) => {
            state.buf.prime_fd = prime_fd;
            state.buf.stride = stride;
            state.stage = AllocStage::Image;
        },
        AllocReply::Export(None) => {
            return AllocProgress::Failed(AllocError::ExportFd);
        },
        AllocReply::Image(egl_image) => {
            if egl_image == 0 {
                return AllocProgress::Failed(AllocError::CreateImage);
            }
            state.buf.egl_image = egl_image;
            state.stage = AllocStage::Renderbuffer;
        },
        AllocReply::Renderbuffer(Some(rbo)) => {
            state.buf.rbo = rbo;
            state.stage = AllocStage::Framebuffer;
        },
        AllocReply::Renderbuffer(None) => {
            return AllocProgress::Failed(AllocError::CreateRenderbuffer);
        },
        AllocReply::Framebuffer(Some(fbo)) => {
            state.buf.fbo = fbo;
            state.stage = AllocStage::DepthRenderbuffer;
        },
        AllocReply::Framebuffer(None) => {
            return AllocProgress::Failed(AllocError::CreateFramebuffer);
        },
        AllocReply::DepthRenderbuffer(Some(depth_rbo)) => {
            state.buf.depth_rbo = depth_rbo;
            state.stage = AllocStage::Status;
        },
        AllocReply::DepthRenderbuffer(None) => {
            return AllocProgress::Failed(AllocError::CreateDepthRenderbuffer);
        },
        AllocReply::Status(status) => {
            if status != gl::FRAMEBUFFER_COMPLETE {
                return AllocProgress::Failed(AllocError::Incomplete(status));
            }
            return AllocProgress::Done(state.buf);
        },
    }
    AllocProgress::Continue(state)
}

impl AllocState {
    /// The attributes for the import, once the buffer has been exported.
    pub fn attribs(&self) -> (attribs: [i32; 17])
        requires
            self.stage is Image,
        ensures
            attribs@ == image_attribs(
                self.width,
                self.height,
                self.buf.prime_fd,
                self.buf.stride,
                self.buf.modifier,
            ),
    {
        import_attribs(
            self.width,
            self.height,
            self.buf.prime_fd,
            self.buf.stride,
            self.buf.modifier,
        )
    }

    /// The GL calls to make before the question of the stage.
    pub fn calls(&self) -> (calls: Vec<GlCall>)
        ensures
            calls@ == calls_before(*self),
    {
        match self.stage {
            AllocStage::Framebuffer => vec![
                GlCall::BindRenderbuffer { target: gl::RENDERBUFFER, renderbuffer: self.buf.rbo },
                GlCall::RenderbufferImage { target: gl::RENDERBUFFER, image: self.buf.egl_image },
            ],
            AllocStage::Status => vec![
                GlCall::BindRenderbuffer {
                    target: gl::RENDERBUFFER,
                    renderbuffer: self.buf.depth_rbo,
                },
                GlCall::RenderbufferStorage {
                    target: gl::RENDERBUFFER,
                    format: gl::DEPTH_COMPONENT24,
                    width: signed32(self.width),
                    height: signed32(self.height),
                },
                GlCall::BindFramebuffer { target: gl::FRAMEBUFFER, framebuffer: self.buf.fbo },
                GlCall::FramebufferRenderbuffer {
                    target: gl::FRAMEBUFFER,
                    attachment: gl::COLOR_ATTACHMENT0,
                    renderbuffer_target: gl::RENDERBUFFER,
                    renderbuffer: self.buf.rbo,
                },
                GlCall::FramebufferRenderbuffer {
                    target: gl::FRAMEBUFFER,
                    attachment: gl::DEPTH_ATTACHMENT,
                    renderbuffer_target: gl::RENDERBUFFER,
                    renderbuffer: self.buf.depth_rbo,
                },
            ],
            _ => Vec::new(),
        }
    }
}

impl SurfaceBackend for DmaBuf {
    open spec fn target(&self) -> u32 {
        self.fbo
    }

    fn fbo(&self) -> (fbo: u32) {
        self.fbo
    }
}

impl DmaBuf {
    /// The calls that release the target. The framebuffer goes before what is attached to it,
    /// and the image goes last.
    pub fn destroy(self) -> (calls: Vec<GlCall>)
        ensures
            calls@ == release_calls(self),
    {
        vec![
            GlCall::DeleteFramebuffer { framebuffer: self.fbo },
            GlCall::DeleteRenderbuffer { renderbuffer: self.depth_rbo },
            GlCall::DeleteRenderbuffer { renderbuffer: self.rbo },
            GlCall::DestroyImage { image: self.egl_image },
        ]
    }
}

/// What the colour attachment of a slot is.
#[derive(Debug, Clone, Copy, PartialEq, Eq, Structural)]
pub enum SurfaceKind {
    Texture,
    Renderbuffer,
}

/// What the compositor has to be told to make a `wl_buffer` of a target.
#[derive(Debug, Clone, Copy, PartialEq, Eq, Structural)]
pub struct BufferParams {
    pub plane: u32,
    pub offset: u32,
    pub stride: u32,
    pub modifier_hi: u32,
    pub modifier_lo: u32,
    pub width: i32,
    pub height: i32,
    pub format: u32,
    pub flags: u32,
}

/// One slot of a swap chain: a target `S`, the `wl_buffer` over its memory, whether the
/// compositor has given it back, and what it still owes.
#[derive(Debug)]
pub struct Slot<S> {
    pub surface: S,
    pub buffer: ObjectId,
    pub released: bool,
    pub owed: Rect,
}

/// A slot that nothing was drawn into yet.
pub open spec fn fresh_slot<S>(surface: S, buffer: ObjectId) -> Slot<S> {
    Slot { surface, buffer, released: true, owed: zero_rect() }
}

/// The kind of target that a window asks for.
pub fn slot_surface(color_texture: bool) -> (kind: SurfaceKind)
    ensures
        kind == (if color_texture {
            SurfaceKind::Texture
        } else {
            SurfaceKind::Renderbuffer
        }),
{
    if color_texture {
        SurfaceKind::Texture
    } else {
        SurfaceKind::Renderbuffer
    }
}

/// The parameters of the `wl_buffer` over a target.
pub fn buffer_params(width: u32, height: u32, stride: u32, modifier: u64) -> (params: BufferParams)
    ensures
        params == described_buffer(width, height, stride, modifier),
{
    let (modifier_lo, modifier_hi) = modifier_words(modifier);
    BufferParams {
        plane: 0,
        offset: 0,
        stride,
        modifier_hi,
        modifier_lo,
        width: signed32(width),
        height: signed32(height),
        format: DRM_FORMAT_ARGB8888,
        flags: 0,
    }
}

/// A fresh slot: the compositor does not hold it, and it owes nothing.
pub fn alloc_slot<S>(surface: S, buffer: ObjectId) -> (slot: Slot<S>)
    ensures
        slot == fresh_slot(surface, buffer),
{
    Slot { surface, buffer, released: true, owed: Rect::zero() }
}

/// The two slots of a swap chain.
pub fn alloc_slots<S>(first: (S, ObjectId), second: (S, ObjectId)) -> (slots: [Slot<S>; 2])
    ensures
        slots@ == seq![fresh_slot(first.0, first.1), fresh_slot(second.0, second.1)],
{
    let slots = [alloc_slot(first.0, first.1), alloc_slot(second.0, second.1)];
    assert(slots@ =~= seq![fresh_slot(first.0, first.1), fresh_slot(second.0, second.1)]);
    slots
}

/// The two halves of a modifier make it up again, so the compositor learns all of it.
pub proof fn modifier_is_kept(modifier: u64)
    ensures
        high_word(modifier) * 0x1_0000_0000 + low_word(modifier) == modifier,
{
}

/// The state after a sequence of replies, as long as the allocation goes on.
pub open spec fn progress_all(state: AllocState, replies: Seq<AllocReply>) -> AllocProgress
    decreases replies.len(),
{
    if replies.len() == 0 {
        AllocProgress::Continue(state)
    } else {
        match progress_all(state, replies.drop_last()) {
            AllocProgress::Continue(s) => progress(s, replies.last()),
            other => other,
        }
    }
}

/// An allocation whose every question is answered well ends with a target made of exactly what
/// the answers brought.
pub proof fn good_answers_give_the_target(width: u32, height: u32, buf: DmaBuf)
    requires
        buf.egl_image != 0,
    ensures
        progress_all(
            AllocState { width, height, stage: AllocStage::Buffer, buf: blank_dmabuf() },
            seq![
                AllocReply::Buffer(Some(buf.modifier)),
                AllocReply::Export(Some((buf.prime_fd, buf.stride))),
                AllocReply::Image(buf.egl_image),
                AllocReply::Renderbuffer(Some(buf.rbo)),
                AllocReply::Framebuffer(Some(buf.fbo)),
                AllocReply::DepthRenderbuffer(Some(buf.depth_rbo)),
                AllocReply::Status(gl::FRAMEBUFFER_COMPLETE),
            ],
        ) == AllocProgress::Done(buf),
{
    let start = AllocState { width, height, stage: AllocStage::Buffer, buf: blank_dmabuf() };
    let r1 = seq![AllocReply::Buffer(Some(buf.modifier))];
    let r2 = r1.push(AllocReply::Export(Some((buf.prime_fd, buf.stride))));
    let r3 = r2.push(AllocReply::Image(buf.egl_image));
    let r4 = r3.push(AllocReply::Renderbuffer(Some(buf.rbo)));
    let r5 = r4.push(AllocReply::Framebuffer(Some(buf.fbo)));
    let r6 = r5.push(AllocReply::DepthRenderbuffer(Some(buf.depth_rbo)));
    let r7 = r6.push(AllocReply::Status(gl::FRAMEBUFFER_COMPLETE));
    reveal_with_fuel(progress_all, 8);
    assert(r1.drop_last() =~= Seq::empty());
    assert(progress_all(start, r1) == progress(start, r1.last()));
    assert(r2.drop_last() =~= r1);
    assert(r3.drop_last() =~= r2);
    assert(r4.drop_last() =~= r3);
    assert(r5.drop_last() =~= r4);
    assert(r6.drop_last() =~= r5);
    assert(r7.drop_last() =~= r6);
    assert(r7 =~= seq![
        AllocReply::Buffer(Some(buf.modifier)),
        AllocReply::Export(Some((buf.prime_fd, buf.stride))),
        AllocReply::Image(buf.egl_image),
        AllocReply::Renderbuffer(Some(buf.rbo)),
        AllocReply::Framebuffer(Some(buf.fbo)),
        AllocReply::DepthRenderbuffer(Some(buf.depth_rbo)),
        AllocReply::Status(gl::FRAMEBUFFER_COMPLETE),
    ]);
}

/// A failed allocation stays failed, with its first error.
pub proof fn failure_is_final(state: AllocState, replies: Seq<AllocReply>, more: Seq<AllocReply>)
    requires
        progress_all(state, replies) is Failed,
    ensures
        progress_all(state, replies + more) == progress_all(state, replies),
    decreases more.len(),
{
    if more.len() == 0 {
        assert(replies + more =~= replies);
    } else {
        failure_is_final(state, replies, more.drop_last());
        assert((replies + more).drop_last() =~= replies + more.drop_last());
    }
}

/// From the import on an allocation has an image.
pub open spec fn has_image_if_imported(state: AllocState) -> bool {
    match state.stage {
        AllocStage::Buffer | AllocStage::Export | AllocStage::Image => true,
        _ => state.buf.egl_image != 0,
    }
}

/// A target is handed out only over an image, and only when its framebuffer is complete.
pub proof fn targets_are_complete(state: AllocState, reply: AllocReply)
    requires
        has_image_if_imported(state),
        answers(state.stage, reply),
    ensures
        progress(state, reply) matches AllocProgress::Continue(next) ==> has_image_if_imported(
            next,
        ),
        progress(state, reply) matches AllocProgress::Done(buf) ==> buf.egl_image != 0 && reply
            == AllocReply::Status(gl::FRAMEBUFFER_COMPLETE),
{
}

/// The 32 bits of a number, read without a sign.
pub open spec fn unsigned_bits(v: int) -> int {
    if v < 0 {
        v + 0x1_0000_0000
    } else {
        v
    }
}

/// An import names each property of the buffer once, with the buffer's own value behind the name,
/// and ends the list. `i` is the place of any name.
pub proof fn import_names_the_buffers_values(
    width: u32,
    height: u32,
    fd: i32,
    stride: u32,
    modifier: u64,
    i: int,
)
    requires
        0 <= i < 8,
    ensures
        ({
            let a = image_attribs(width, height, fd, stride, modifier);
            let name = a[2 * i];
            let value = a[2 * i + 1];
            &&& a.len() == 17
            &&& a[16] == EGL_NONE
            &&& name == EGL_WIDTH ==> unsigned_bits(value as int) == width
            &&& name == EGL_HEIGHT ==> unsigned_bits(value as int) == height
            &&& name == EGL_LINUX_DRM_FOURCC_EXT ==> value == DRM_FORMAT_ARGB8888
            &&& name == EGL_DMA_BUF_PLANE0_FD_EXT ==> value == fd
            &&& name == EGL_DMA_BUF_PLANE0_OFFSET_EXT ==> value == 0
            &&& name == EGL_DMA_BUF_PLANE0_PITCH_EXT ==> unsigned_bits(value as int) == stride
            &&& name == EGL_DMA_BUF_PLANE0_MODIFIER_LO_EXT ==> unsigned_bits(value as int)
                == modifier as int % 0x1_0000_0000
            &&& name == EGL_DMA_BUF_PLANE0_MODIFIER_HI_EXT ==> unsigned_bits(value as int)
                == modifier as int / 0x1_0000_0000
            &&& name == EGL_WIDTH || name == EGL_HEIGHT || name == EGL_LINUX_DRM_FOURCC_EXT || name
                == EGL_DMA_BUF_PLANE0_FD_EXT || name == EGL_DMA_BUF_PLANE0_OFFSET_EXT || name
                == EGL_DMA_BUF_PLANE0_PITCH_EXT || name == EGL_DMA_BUF_PLANE0_MODIFIER_LO_EXT
                || name == EGL_DMA_BUF_PLANE0_MODIFIER_HI_EXT
        }),
{
}

/// No two names of an import are the same, so each of the eight properties is there.
pub proof fn import_names_differ(
    width: u32,
    height: u32,
    fd: i32,
    stride: u32,
    modifier: u64,
    i: int,
    j: int,
)
    requires
        0 <= i < j < 8,
    ensures
        image_attribs(width, height, fd, stride, modifier)[2 * i] != image_attribs(
            width,
            height,
            fd,
            stride,
            modifier,
        )[2 * j],
{
}

/// The numbers of the import extension: those that name the target and the plane follow each
/// other, and so do those of the two halves of the modifier.
pub proof fn import_numbers_follow_each_other()
    ensures
        EGL_LINUX_DRM_FOURCC_EXT == EGL_LINUX_DMA_BUF_EXT + 1,
        EGL_DMA_BUF_PLANE0_FD_EXT == EGL_LINUX_DRM_FOURCC_EXT + 1,
        EGL_DMA_BUF_PLANE0_OFFSET_EXT == EGL_DMA_BUF_PLANE0_FD_EXT + 1,
        EGL_DMA_BUF_PLANE0_PITCH_EXT == EGL_DMA_BUF_PLANE0_OFFSET_EXT + 1,
        EGL_DMA_BUF_PLANE0_MODIFIER_HI_EXT == EGL_DMA_BUF_PLANE0_MODIFIER_LO_EXT + 1,
        EGL_WIDTH == EGL_HEIGHT + 1,
{
}

/// An answer that brings something leads to the next question, with that noted and all else as it
/// was; one that brings nothing ends the allocation with the error of its question.
pub proof fn answers_lead_on_or_end_it(
    state: AllocState,
    modifier: u64,
    fd: i32,
    stride: u32,
    image: u64,
    object: u32,
    status: u32,
)
    ensures
        ({
            let buf = state.buf;
            let (width, height) = (state.width, state.height);
            &&& progress(state, AllocReply::Buffer(Some(modifier))) == AllocProgress::Continue(
                AllocState {
                    width,
                    height,
                    stage: AllocStage::Export,
                    buf: DmaBuf { modifier, ..buf },
                },
            )
            &&& progress(state, AllocReply::Export(Some((fd, stride)))) == AllocProgress::Continue(
                AllocState {
                    width,
                    height,
                    stage: AllocStage::Image,
                    buf: DmaBuf { prime_fd: fd, stride, ..buf },
                },
            )
            &&& image != 0 ==> progress(state, AllocReply::Image(image)) == AllocProgress::Continue(
                AllocState {
                    width,
                    height,
                    stage: AllocStage::Renderbuffer,
                    buf: DmaBuf { egl_image: image, ..buf },
                },
            )
            &&& progress(state, AllocReply::Renderbuffer(Some(object))) == AllocProgress::Continue(
                AllocState {
                    width,
                    height,
                    stage: AllocStage::Framebuffer,
                    buf: DmaBuf { rbo: object, ..buf },
                },
            )
            &&& progress(state, AllocReply::Framebuffer(Some(object))) == AllocProgress::Continue(
                AllocState {
                    width,
                    height,
                    stage: AllocStage::DepthRenderbuffer,
                    buf: DmaBuf { fbo: object, ..buf },
                },
            )
            &&& progress(state, AllocReply::DepthRenderbuffer(Some(object)))
                == AllocProgress::Continue(
                AllocState {
                    width,
                    height,
                    stage: AllocStage::Status,
                    buf: DmaBuf { depth_rbo: object, ..buf },
                },
            )
            &&& progress(state, AllocReply::Buffer(None)) == AllocProgress::Failed(
                AllocError::CreateBuffer,
            )
            &&& progress(state, AllocReply::Export(None)) == AllocProgress::Failed(
                AllocError::ExportFd,
            )
            &&& progress(state, AllocReply::Image(0)) == AllocProgress::Failed(
                AllocError::CreateImage,
            )
            &&& progress(state, AllocReply::Renderbuffer(None)) == AllocProgress::Failed(
                AllocError::CreateRenderbuffer,
            )
            &&& progress(state, AllocReply::Framebuffer(None)) == AllocProgress::Failed(
                AllocError::CreateFramebuffer,
            )
            &&& progress(state, AllocReply::DepthRenderbuffer(None)) == AllocProgress::Failed(
                AllocError::CreateDepthRenderbuffer,
            )
            &&& status == gl::FRAMEBUFFER_COMPLETE ==> progress(state, AllocReply::Status(status))
                == AllocProgress::Done(buf)
            &&& status != gl::FRAMEBUFFER_COMPLETE ==> progress(state, AllocReply::Status(status))
                == AllocProgress::Failed(AllocError::Incomplete(status))
        }),
{
}

/// An answer is to the question of its own kind and to no other.
pub proof fn each_question_has_its_answer(reply: AllocReply, stage: AllocStage)
    ensures
        answers(stage, reply) <==> match reply {
            AllocReply::Buffer(_) => stage is Buffer,
            AllocReply::Export(_) => stage is Export,
            AllocReply::Image(_) => stage is Image,
            AllocReply::Renderbuffer(_) => stage is Renderbuffer,
            AllocReply::Framebuffer(_) => stage is Framebuffer,
            AllocReply::DepthRenderbuffer(_) => stage is DepthRenderbuffer,
            AllocReply::Status(_) => stage is Status,
        },
{
}

/// Before its framebuffer is asked for, the colour renderbuffer is bound and backed by the image;
/// before the framebuffer is checked, it is bound with the colour renderbuffer and a depth
/// renderbuffer of the target's size attached. No other question has calls before it.
pub proof fn objects_are_put_together(state: AllocState, i: int)
    ensures
        ({
            let calls = calls_before(state);
            &&& !(state.stage is Framebuffer) && !(state.stage is Status) ==> calls.len() == 0
            &&& state.stage is Framebuffer ==> {
                &&& calls.len() == 2
                &&& calls[0] matches GlCall::BindRenderbuffer { target, renderbuffer } && target
                    == gl::RENDERBUFFER && renderbuffer == state.buf.rbo
                &&& calls[1] matches GlCall::RenderbufferImage { target, image } && target
                    == gl::RENDERBUFFER && image == state.buf.egl_image
            }
            &&& state.stage is Status ==> {
                &&& calls.len() == 5
                &&& calls[0] matches GlCall::BindRenderbuffer { target, renderbuffer } && target
                    == gl::RENDERBUFFER && renderbuffer == state.buf.depth_rbo
                &&& calls[1] matches GlCall::RenderbufferStorage { target, format, width, height }
                    && target == gl::RENDERBUFFER && format == gl::DEPTH_COMPONENT24
                    && unsigned_bits(width as int) == state.width && unsigned_bits(height as int)
                    == state.height
                &&& calls[2] matches GlCall::BindFramebuffer { target, framebuffer } && target
                    == gl::FRAMEBUFFER && framebuffer == state.buf.fbo
                &&& 3 <= i < 5 ==> (calls[i] matches GlCall::FramebufferRenderbuffer {
                    target,
                    attachment,
                    renderbuffer_target,
                    renderbuffer,
                } && target == gl::FRAMEBUFFER && renderbuffer_target == gl::RENDERBUFFER
                    && (attachment == gl::COLOR_ATTACHMENT0 ==> renderbuffer == state.buf.rbo)
                    && (attachment == gl::DEPTH_ATTACHMENT ==> renderbuffer == state.buf.depth_rbo)
                    && (i == 3 ==> attachment == gl::COLOR_ATTACHMENT0) && (i == 4 ==> attachment
                    == gl::DEPTH_ATTACHMENT))
            }
        }),
{
}

/// A target is released whole: its framebuffer before the two renderbuffers attached to it, and the
/// image behind them last; each once, and nothing else.
pub proof fn release_leaves_nothing(buf: DmaBuf)
    ensures
        ({
            let calls = release_calls(buf);
            &&& calls.len() == 4
            &&& calls[0] matches GlCall::DeleteFramebuffer { framebuffer } && framebuffer == buf.fbo
            &&& calls[1] matches GlCall::DeleteRenderbuffer { renderbuffer: a } && (calls[2] matches
                GlCall::DeleteRenderbuffer { renderbuffer: b } && a == buf.depth_rbo && b == buf.rbo)
            &&& calls[3] matches GlCall::DestroyImage { image } && image == buf.egl_image
        }),
{
}

/// The compositor is told the buffer's own size, stride and whole modifier, of the format that the
/// GPU draws in, as one plane from the first byte on.
pub proof fn buffer_is_described_as_it_is(width: u32, height: u32, stride: u32, modifier: u64)
    ensures
        ({
            let p = described_buffer(width, height, stride, modifier);
            &&& unsigned_bits(p.width as int) == width
            &&& unsigned_bits(p.height as int) == height
            &&& p.stride == stride
            &&& p.modifier_hi * 0x1_0000_0000 + p.modifier_lo == modifier
            &&& p.plane == 0 && p.offset == 0 && p.flags == 0
            &&& p.format == DRM_FORMAT_ARGB8888
        }),
{
}

/// A fresh slot is free to be drawn into, over the target and buffer it was made with, and owes
/// nothing.
pub proof fn fresh_slot_is_free<S>(surface: S, buffer: ObjectId)
    ensures
        fresh_slot(surface, buffer).surface == surface,
        fresh_slot(surface, buffer).buffer == buffer,
        fresh_slot(surface, buffer).released,
        fresh_slot(surface, buffer).owed.size.width == 0,
        fresh_slot(surface, buffer).owed.size.height == 0,
{
}

} // verus!
