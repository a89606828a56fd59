# mecha_wayland

The decisions of a small Wayland client toolkit, verified with Verus: which pixels a frame has to
repaint, which window an event goes to, when a window is due for a frame, how a render target is
put together and how the GPU is brought up.

The library does no input or output. It keeps state, decides, and hands out what has to be asked
of the GPU and of the compositor as data; what came of it is passed back in. The program around it
carries the requests out.

| Module | What it holds |
| --- | --- |
| `geometry` | points, extents and rectangles in fixed point (1/256 pixel) |
| `damage` | frame plans and the debts of a two-slot swap chain |
| `atlas` | decoding of PNG atlases |
| `gl` | GL calls as data |
| `renderer` | viewport, scissor, textures, passes |
| `scene` | submission of render commands as one frame |
| `dmabuf` | allocation of render targets, swap-chain slots |
| `startup` | the steps that bring the GPU up |
| `window`, `manager`, `routing` | windows, their surfaces and roles, and where events go |
| `counter`, `lockscreen` | two small programs |
| `text` | decimal notation |

`app/` is the program around the library: the EGL, GBM and GL device, colours and shapes in
floating point, layout, and the event loop.
