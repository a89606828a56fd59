//! Windows as the manager knows them: identities, what an application asks for, and the state
//! that decisions about a window are made from.

use std::marker::PhantomData;

use vstd::prelude::*;

verus! {

/// The number of a protocol object on the Wayland connection.
pub type ObjectId = u32;

/// The identity of a window. Identities are handed out in increasing order and never reused.
#[derive(Debug, Clone, Copy, PartialEq, Eq, Structural, Hash)]
pub struct WindowId(pub u32);

/// The kind of a widget tree: trees of one type have one kind, and trees of different types have
/// different kinds.
#[derive(Debug, Clone, Copy, PartialEq, Eq, Structural)]
pub struct UiKind(pub u32);

/// A colour on its way to the GPU: the bit patterns of its four single-precision channels. The
/// library hands colours on and never computes with them.
#[derive(Debug, Clone, Copy, PartialEq, Eq, Structural)]
pub struct ColorBits {
    pub r: u32,
    pub g: u32,
    pub b: u32,
    pub a: u32,
}

/// The stacking layer of a layer-shell surface.
#[derive(Debug, Clone, Copy, PartialEq, Eq, Structural)]
pub enum ZwlrLayerShellV1Layer {
    Background,
    Bottom,
    Top,
    Overlay,
}

/// The screen edges that a layer-shell surface is anchored to, as a bit set.
#[derive(Debug, Clone, Copy, PartialEq, Eq, Structural)]
pub struct ZwlrLayerSurfaceV1Anchor(pub u32);

/// Whether a layer-shell surface takes the keyboard.
#[derive(Debug, Clone, Copy, PartialEq, Eq, Structural)]
pub enum ZwlrLayerSurfaceV1KeyboardInteractivity {
    Never,
    Exclusive,
    OnDemand,
}

/// The shell role that a window asks for.
#[derive(Debug)]
pub enum WindowKind {
    LayerShell {
        layer: ZwlrLayerShellV1Layer,
        anchor: ZwlrLayerSurfaceV1Anchor,
        exclusive_zone: i32,
        namespace: String,
        keyboard_interactivity: ZwlrLayerSurfaceV1KeyboardInteractivity,
    },
    Xdg { title: String },
}

/// What an application asks for when it spawns a window. `T` and `G` are the touch and gesture
/// configurations of the widget toolkit.
pub struct WindowSettings<T, G> {
    pub width: u32,
    pub height: u32,
    pub clear_color: ColorBits,
    pub kind: WindowKind,
    pub touch_config: Option<T>,
    pub gesture_config: Option<G>,
    pub color_texture: bool,
}

/// What a window is built from, once its identity is known.
pub struct WindowSpec<T, G> {
    pub id: WindowId,
    pub width: u32,
    pub height: u32,
    pub clear_color: ColorBits,
    pub touch_config: Option<T>,
    pub gesture_config: Option<G>,
    pub color_texture: bool,
}

/// A spawned window that has no surface yet.
pub struct PendingWindow {
    pub id: WindowId,
    pub width: u32,
    pub height: u32,
    pub kind: WindowKind,
    /// What its widget tree is.
    pub ui: UiKind,
}

/// What a window reports of itself.
#[derive(Debug, Clone, Copy, PartialEq, Eq, Structural)]
pub struct WindowStatus {
    /// Its buffers exist: the compositor has told it a size.
    pub configured: bool,
    /// Something asked for a repaint.
    pub needs_render: bool,
    /// The compositor has given the back buffer back.
    pub back_released: bool,
    /// Its widgets want input.
    pub wants_input: bool,
    /// Its surface currently accepts input.
    pub input_enabled: bool,
    pub width: u32,
    pub height: u32,
}

/// A window with a surface. `R` is the shell role.
pub struct Window<R> {
    pub surface: ObjectId,
    pub role: R,
    /// What its widget tree is.
    pub ui: UiKind,
    pub status: WindowStatus,
}

/// A typed reference to a window whose widget tree is a `T`, which is of the kind that the handle
/// holds.
pub struct WindowHandle<T> {
    id: WindowId,
    kind: UiKind,
    ui: PhantomData<T>,
}

impl<T> WindowHandle<T> {
    /// The identity that the handle refers to.
    pub closed spec fn target(self) -> WindowId {
        self.id
    }

    /// The kind of widget tree that the handle refers to.
    pub closed spec fn kind(self) -> UiKind {
        self.kind
    }

    pub(crate) fn refer_to(id: WindowId, kind: UiKind) -> (h: WindowHandle<T>)
        ensures
            h.target() == id,
            h.kind() == kind,
    {
        WindowHandle { id, kind, ui: PhantomData }
    }

    pub(crate) fn ui_kind(self) -> (kind: UiKind)
        ensures
            kind == self.kind(),
    {
        self.kind
    }

    pub fn id(self) -> (id: WindowId)
        ensures
            id == self.target(),
    {
        self.id
    }
}

impl<T> Clone for WindowHandle<T> {
    fn clone(&self) -> (h: WindowHandle<T>)
        ensures
            h == *self,
    {
        *self
    }
}

impl<T> Copy for WindowHandle<T> {

}

} // verus!
