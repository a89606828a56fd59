//! A small Wayland client toolkit: damage-tracked rendering, window bookkeeping and
//! input routing.

pub mod atlas;
pub mod counter;
pub mod damage;
pub mod dmabuf;
pub mod geometry;
pub mod gl;
pub mod lockscreen;
pub mod manager;
pub mod renderer;
pub mod routing;
pub mod scene;
pub mod startup;
pub mod text;
pub mod window;
