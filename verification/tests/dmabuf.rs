use mecha_wayland::dmabuf;
use mecha_wayland::dmabuf::{
    advance, alloc_slot, alloc_slots, allocate, buffer_params, import_attribs, modifier_words,
    slot_surface, AllocError, AllocProgress, AllocReply, AllocStage, AllocState, BufferParams,
    DmaBuf, SurfaceKind,
};
use mecha_wayland::geometry::Rect;
use mecha_wayland::gl::GlCall;
use mecha_wayland::renderer::SurfaceBackend;

#[test]
fn egl_enumerants_are_those_of_egl() {
    assert_eq!(dmabuf::EGL_WIDTH, khronos_egl::WIDTH);
    assert_eq!(dmabuf::EGL_HEIGHT, khronos_egl::HEIGHT);
    assert_eq!(dmabuf::EGL_NONE, khronos_egl::NONE);
    assert_eq!(dmabuf::DRM_FORMAT_ARGB8888.to_le_bytes(), *b"AR24");
}

#[test]
fn attributes_describe_the_buffer() {
    assert_eq!(
        import_attribs(640, 480, 12, 2560, 0x0100_0000_8000_0002),
        [
            0x3057, 640, 0x3056, 480, 0x3271, 0x34325241, 0x3272, 12, 0x3273, 0, 0x3274, 2560,
            0x3443, -2147483646, 0x3444, 0x0100_0000, 0x3038,
        ]
    );
}

#[test]
fn a_modifier_splits_into_words() {
    assert_eq!(modifier_words(0), (0, 0));
    assert_eq!(modifier_words(0x1234_5678_9abc_def0), (0x9abc_def0, 0x1234_5678));
    let (low, high) = modifier_words(u64::MAX - 5);
    assert_eq!(((high as u64) << 32) | low as u64, u64::MAX - 5);
}

fn go_on(state: AllocState, reply: AllocReply) -> AllocState {
    match advance(state, reply) {
        AllocProgress::Continue(s) => s,
        other => panic!("{:?}", other),
    }
}

fn up_to(stage: AllocStage) -> AllocState {
    let replies = [
        AllocReply::Buffer(Some(3)),
        AllocReply::Export(Some((11, 400))),
        AllocReply::Image(0xdead),
        AllocReply::Renderbuffer(Some(21)),
        AllocReply::Framebuffer(Some(22)),
        AllocReply::DepthRenderbuffer(Some(23)),
    ];
    let mut state = allocate(100, 50);
    for reply in replies {
        if state.stage == stage {
            break;
        }
        state = go_on(state, reply);
    }
    assert_eq!(state.stage, stage);
    state
}

#[test]
fn a_target_is_made_of_the_answers() {
    let state = up_to(AllocStage::Status);
    assert_eq!(
        advance(state, AllocReply::Status(glow::FRAMEBUFFER_COMPLETE)),
        AllocProgress::Done(DmaBuf {
            prime_fd: 11,
            egl_image: 0xdead,
            stride: 400,
            modifier: 3,
            rbo: 21,
            depth_rbo: 23,
            fbo: 22,
        })
    );
}

#[test]
fn every_refusal_has_its_error() {
    let fails = |stage: AllocStage, reply: AllocReply, error: AllocError| {
        assert_eq!(advance(up_to(stage), reply), AllocProgress::Failed(error));
    };
    fails(AllocStage::Buffer, AllocReply::Buffer(None), AllocError::CreateBuffer);
    fails(AllocStage::Export, AllocReply::Export(None), AllocError::ExportFd);
    fails(AllocStage::Image, AllocReply::Image(0), AllocError::CreateImage);
    fails(AllocStage::Renderbuffer, AllocReply::Renderbuffer(None), AllocError::CreateRenderbuffer);
    fails(AllocStage::Framebuffer, AllocReply::Framebuffer(None), AllocError::CreateFramebuffer);
    fails(
        AllocStage::DepthRenderbuffer,
        AllocReply::DepthRenderbuffer(None),
        AllocError::CreateDepthRenderbuffer,
    );
    fails(AllocStage::Status, AllocReply::Status(0x8CD6), AllocError::Incomplete(0x8CD6));
}

#[test]
fn the_image_is_imported_with_what_was_exported() {
    assert_eq!(up_to(AllocStage::Image).attribs(), import_attribs(100, 50, 11, 400, 3));
}

#[test]
fn gl_objects_are_set_up_on_the_way() {
    assert_eq!(up_to(AllocStage::Buffer).calls(), vec![]);
    assert_eq!(up_to(AllocStage::Renderbuffer).calls(), vec![]);
    assert_eq!(
        up_to(AllocStage::Framebuffer).calls(),
        vec![
            GlCall::BindRenderbuffer { target: glow::RENDERBUFFER, renderbuffer: 21 },
            GlCall::RenderbufferImage { target: glow::RENDERBUFFER, image: 0xdead },
        ]
    );
    assert_eq!(
        up_to(AllocStage::Status).calls(),
        vec![
            GlCall::BindRenderbuffer { target: glow::RENDERBUFFER, renderbuffer: 23 },
            GlCall::RenderbufferStorage {
                target: glow::RENDERBUFFER,
                format: glow::DEPTH_COMPONENT24,
                width: 100,
                height: 50,
            },
            GlCall::BindFramebuffer { target: glow::FRAMEBUFFER, framebuffer: 22 },
            GlCall::FramebufferRenderbuffer {
                target: glow::FRAMEBUFFER,
                attachment: glow::COLOR_ATTACHMENT0,
                renderbuffer_target: glow::RENDERBUFFER,
                renderbuffer: 21,
            },
            GlCall::FramebufferRenderbuffer {
                target: glow::FRAMEBUFFER,
                attachment: glow::DEPTH_ATTACHMENT,
                renderbuffer_target: glow::RENDERBUFFER,
                renderbuffer: 23,
            },
        ]
    );
}

#[test]
fn a_target_is_released_from_the_outside_in() {
    let buf = DmaBuf {
        prime_fd: 11,
        egl_image: 0xdead,
        stride: 400,
        modifier: 3,
        rbo: 21,
        depth_rbo: 23,
        fbo: 22,
    };
    assert_eq!(buf.fbo(), 22);
    assert_eq!(
        buf.destroy(),
        vec![
            GlCall::DeleteFramebuffer { framebuffer: 22 },
            GlCall::DeleteRenderbuffer { renderbuffer: 23 },
            GlCall::DeleteRenderbuffer { renderbuffer: 21 },
            GlCall::DestroyImage { image: 0xdead },
        ]
    );
}

#[test]
fn buffers_are_described_to_the_compositor() {
    assert_eq!(
        buffer_params(640, 480, 2560, 0x0100_0000_0000_0002),
        BufferParams {
            plane: 0,
            offset: 0,
            stride: 2560,
            modifier_hi: 0x0100_0000,
            modifier_lo: 2,
            width: 640,
            height: 480,
            format: 0x34325241,
            flags: 0,
        }
    );
}

#[test]
fn fresh_slots_are_free_and_owe_nothing() {
    let slot = alloc_slot("a", 5);
    assert_eq!((slot.surface, slot.buffer, slot.released, slot.owed), ("a", 5, true, Rect::zero()));
    let slots = alloc_slots(("a", 5), ("b", 6));
    assert_eq!((slots[0].surface, slots[0].buffer, slots[0].released), ("a", 5, true));
    assert_eq!((slots[1].surface, slots[1].buffer, slots[1].released), ("b", 6, true));
    assert!(slots[0].owed.is_empty() && slots[1].owed.is_empty());
    assert_eq!(slot_surface(true), SurfaceKind::Texture);
    assert_eq!(slot_surface(false), SurfaceKind::Renderbuffer);
}
