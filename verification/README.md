# xilem_baseview

A baseview backend for the Xilem UI framework, for the windows of audio plugins.

A plugin host owns the main thread and the event loop, so a plugin's window only
reacts: to an event, a resize, a poll or a request to draw. What it decides is
verified with Verus; what it performs is ordinary Rust around that.

- `src/`: the verified library. Each module states its contracts over plain
  values, and the functions named `law_..` state what holds across calls.
- `app/`: windows, GPU, widget tree and async runtime, driven by the library's
  decisions. Arithmetic on coordinates stands here, because it takes floating
  point.
- `tests/`: the library on concrete values.

What is trusted without proof is a short list: readings of the clock in
`src/clock.rs`, sets of buttons and modifiers in `src/input.rs`, the modifiers of
a keyboard event in `src/event.rs`, and the encoding of a texture format in
`src/render.rs`.
