# wasm_stage

The web page backend of a windowing library, as a verified state machine.

The browser reports events; the application has an event handler, which is told of them and which
updates and draws with each frame. An event can fire while the handler is running. It is then put
in a queue, and the handler is told of it at the start of the next frame. The handler is never
entered twice at once.

- `src/event.rs`: the events. Positions and sizes are kept as the page reports them: integers for
  the mouse and the canvas, the bit patterns of floats for touches. Keys, buttons, modifiers and
  touch phases are kept by the page's numbers.
- `src/handler.rs`: the event handler, and how it is told of an event.
- `src/recorder.rs`: a handler that writes down its calls.
- `src/stage.rs`: the state between two calls of the browser; lending the handler, deferring events
  and draining the queue.
- `src/input.rs`: what the page reports.
- `src/frame.rs`: the course of a frame.
- `src/startup.rs`: the course of starting an application.
- `src/cursor.rs`, `src/clipboard.rs`, `src/display.rs`: the cursor and the requests of the
  application, the clipboard, and the canvas with the files dropped on it.
- `src/laws.rs`: what holds of whole histories: no deferred event is lost, doubled or overtaken,
  the handler runs once at a time, a frame takes its course.
- `app/`: the functions that the page's script offers and calls.

While the handler runs, the state has to be within reach of the page, which may report the next
event. So the library does not hold on to its state during a call of the handler: it lends the
handler out, and gets it back in the next step.
