//! What each operation does to every part of the state, and what it hands out, said part by part.

use std::collections::VecDeque;
use vstd::prelude::*;

use crate::clipboard::{Clipboard, ClipboardUse};
use crate::cursor::{Cursor, CursorIcon, PageCommand, Request};
use crate::display::{DisplayData, DisplayView, DroppedFiles, DroppedFilesView};
use crate::event::{DeferredEvent, FloatBits, KeyCode, KeyMods, MouseButton, TouchPhase};
use crate::frame::{FrameAction, FrameEvent, FrameState, FrameStateView};
use crate::handler::{EventHandler, HandlerCall};
use crate::laws::Turn;
use crate::recorder::Recorder;
use crate::stage::{Arrival, Drain, HandlerSlot, Stage, StageView};
use crate::startup::{Conf, RunAction, RunEvent, WebGLVersion};

verus! {

// What the views show.

/// The view of dropped files shows every path and all contents, each in its place.
pub proof fn dropped_files_are_shown_whole(files: DroppedFiles)
    ensures
        files@.paths.len() == files.paths@.len(),
        forall|i: int| 0 <= i < files.paths@.len() ==> #[trigger] files@.paths[i] == files.paths@[i]@,
        files@.bytes.len() == files.bytes@.len(),
        forall|i: int| 0 <= i < files.bytes@.len() ==> #[trigger] files@.bytes[i] == files.bytes@[i]@,
{
}

/// The view of a display shows every part of it.
pub proof fn display_is_shown_whole(display: DisplayData)
    ensures
        display@.screen_width == display.screen_width,
        display@.screen_height == display.screen_height,
        display@.dpi_scale == display.dpi_scale,
        display@.blocking_event_loop == display.blocking_event_loop,
        display@.dropped_files == display.dropped_files@,
{
}

/// The view of a clipboard shows its text, if it has one.
pub proof fn clipboard_is_shown_whole(clipboard: Clipboard)
    ensures
        clipboard@ is Some <==> clipboard.text is Some,
        clipboard.text is Some ==> clipboard@->0 == clipboard.text->0@,
{
}

/// The view of a stage shows every part of it.
pub proof fn stage_is_shown_whole<H>(stage: Stage<H>)
    ensures
        stage@.handler == stage.handler,
        stage@.deferred == stage.deferred@,
        stage@.display is Some <==> stage.display is Some,
        stage.display is Some ==> stage@.display->0 == stage.display->0@,
        stage@.cursor == stage.cursor,
        stage@.clipboard == stage.clipboard@,
{
}

/// The view of a frame shows how far it has got, and the events still to be delivered.
pub proof fn frame_is_shown_whole(state: FrameState)
    ensures
        state@ is Ready <==> state is Ready,
        state@ is Delivering <==> state is Delivering,
        state is Delivering ==> state@->Delivering_0 == state->Delivering_0@,
        state@ is Receiving <==> state is Receiving,
        state@ is Performing <==> state is Performing,
        state@ is Drawing <==> state is Drawing,
        state@ is Finished <==> state is Finished,
{
}

/// The history of a recorder is what it wrote down.
pub proof fn recorder_shows_its_log(recorder: Recorder)
    ensures
        recorder.calls() == recorder.log@,
{
}

// How the handler is told of an event.

/// The handler is told of each kind of event by the call for that kind, with all that the page
/// reported, unchanged.
pub proof fn handler_is_told_all(
    phase: TouchPhase,
    id: u64,
    fx: FloatBits,
    fy: FloatBits,
    btn: MouseButton,
    x: i32,
    y: i32,
    key: KeyCode,
    mods: KeyMods,
    repeat: bool,
    character: char,
)
    ensures
        crate::handler::call_for(DeferredEvent::Touch { phase, id, x: fx, y: fy })
            == (HandlerCall::Touch { phase, id, x: fx, y: fy }),
        crate::handler::call_for(DeferredEvent::MouseMove { x, y }) == (HandlerCall::MouseMotion {
            x,
            y,
        }),
        crate::handler::call_for(DeferredEvent::RawMouseMove { dx: x, dy: y })
            == (HandlerCall::RawMouseMotion { dx: x, dy: y }),
        crate::handler::call_for(DeferredEvent::MouseDown { btn, x, y })
            == (HandlerCall::MouseButtonDown { btn, x, y }),
        crate::handler::call_for(DeferredEvent::MouseUp { btn, x, y })
            == (HandlerCall::MouseButtonUp { btn, x, y }),
        crate::handler::call_for(DeferredEvent::MouseWheel { dx: x, dy: y })
            == (HandlerCall::MouseWheel { dx: x, dy: y }),
        crate::handler::call_for(DeferredEvent::KeyDown { key, mods, repeat })
            == (HandlerCall::KeyDown { key, mods, repeat }),
        crate::handler::call_for(DeferredEvent::KeyUp { key, mods }) == (HandlerCall::KeyUp {
            key,
            mods,
        }),
        crate::handler::call_for(DeferredEvent::CharEvent { character, mods, repeat })
            == (HandlerCall::Char { character, mods, repeat }),
        crate::handler::call_for(DeferredEvent::Resize { width: x, height: y })
            == (HandlerCall::Resize { width: x, height: y }),
        crate::handler::call_for(DeferredEvent::Focus { has_focus: true })
            == HandlerCall::WindowRestored,
        crate::handler::call_for(DeferredEvent::Focus { has_focus: false })
            == HandlerCall::WindowMinimized,
        crate::handler::call_for(DeferredEvent::FilesDropped) == HandlerCall::FilesDropped,
{
}

/// Two events that differ are told by calls that differ, and none is told by an update or a draw.
pub proof fn event_can_be_told_from_its_call(a: DeferredEvent, b: DeferredEvent)
    ensures
        crate::handler::call_for(a) == crate::handler::call_for(b) ==> a == b,
        !(crate::handler::call_for(a) is Update),
        !(crate::handler::call_for(a) is Draw),
{
}

// The handler's place and the queue.

/// Lending the handler leaves its place empty for as long, and nothing else changes.
pub proof fn lending_takes_the_handler_only<H>(stage: StageView<H>)
    ensures
        crate::stage::lent(stage).handler is Borrowed,
        crate::stage::lent(stage).deferred == stage.deferred,
        crate::stage::lent(stage).display == stage.display,
        crate::stage::lent(stage).cursor == stage.cursor,
        crate::stage::lent(stage).clipboard == stage.clipboard,
{
}

/// A handler that is given back is the one that waits from then on, and nothing else changes.
pub proof fn giving_back_puts_the_handler_only<H>(stage: StageView<H>, handler: H)
    ensures
        crate::stage::with_handler(stage, handler).handler == HandlerSlot::Idle(handler),
        crate::stage::with_handler(stage, handler).deferred == stage.deferred,
        crate::stage::with_handler(stage, handler).display == stage.display,
        crate::stage::with_handler(stage, handler).cursor == stage.cursor,
        crate::stage::with_handler(stage, handler).clipboard == stage.clipboard,
{
}

/// Taking the deferred events empties the queue, and nothing else changes.
pub proof fn taking_events_empties_the_queue_only<H>(stage: StageView<H>)
    ensures
        crate::stage::drained(stage).deferred.len() == 0,
        crate::stage::drained(stage).handler == stage.handler,
        crate::stage::drained(stage).display == stage.display,
        crate::stage::drained(stage).cursor == stage.cursor,
        crate::stage::drained(stage).clipboard == stage.clipboard,
{
}

/// An event that fires is handed to the handler that waits, or put behind all that were deferred,
/// or passed over where there is no handler; it changes nothing else.
pub proof fn event_changes_handler_and_queue_only<H>(stage: StageView<H>, event: DeferredEvent)
    ensures
        ({
            let (next, arrival) = crate::stage::arrival(stage, event);
            &&& next.display == stage.display
            &&& next.cursor == stage.cursor
            &&& next.clipboard == stage.clipboard
            &&& stage.handler is Empty ==> {
                &&& arrival is NoHandler
                &&& next.handler is Empty
                &&& next.deferred == stage.deferred
            }
            &&& stage.handler is Idle ==> {
                &&& arrival is Run
                &&& arrival->event == event
                &&& arrival->handler == stage.handler->Idle_0
                &&& next.handler is Borrowed
                &&& next.deferred == stage.deferred
            }
            &&& stage.handler is Borrowed ==> {
                &&& arrival is Deferred
                &&& next.handler is Borrowed
                &&& next.deferred.len() == stage.deferred.len() + 1
                &&& next.deferred.last() == event
                &&& next.deferred.drop_last() == stage.deferred
            }
        }),
{
    if stage.handler is Borrowed {
        assert(stage.deferred.push(event).drop_last() =~= stage.deferred);
    }
}

/// Two events that fire while the handler runs stand in the queue in that order, behind what stood
/// there before.
pub proof fn two_events_queue_up<H>(stage: StageView<H>, first: DeferredEvent, second: DeferredEvent)
    requires
        stage.handler is Borrowed,
    ensures
        crate::stage::arrival(crate::stage::arrival(stage, first).0, second).0.deferred
            == stage.deferred + seq![first, second],
{
    assert(stage.deferred.push(first).push(second) =~= stage.deferred + seq![first, second]);
}

// What the page reports of the canvas and of dropped files.

/// A report of a new size does all that the mere event would do, and besides changes the size of
/// the canvas and nothing else.
pub proof fn resize_is_its_event_and_the_size<H>(stage: StageView<H>, width: i32, height: i32)
    requires
        stage.display is Some,
    ensures
        ({
            let event = DeferredEvent::Resize { width, height };
            let (next, res) = crate::stage::arrival(
                crate::stage::resized(stage, width, height),
                event,
            );
            let (plain, plain_res) = crate::stage::arrival(stage, event);
            &&& res == plain_res
            &&& next.handler == plain.handler
            &&& next.deferred == plain.deferred
            &&& next.cursor == plain.cursor
            &&& next.clipboard == plain.clipboard
            &&& stage.handler is Borrowed ==> next.deferred == stage.deferred.push(event)
            &&& !(stage.handler is Borrowed) ==> next.deferred == stage.deferred
            &&& next.cursor == stage.cursor
            &&& next.clipboard == stage.clipboard
            &&& next.display is Some
            &&& next.display->0.screen_width == width
            &&& next.display->0.screen_height == height
            &&& next.display->0.dpi_scale == stage.display->0.dpi_scale
            &&& next.display->0.blocking_event_loop == stage.display->0.blocking_event_loop
            &&& next.display->0.dropped_files == stage.display->0.dropped_files
        }),
{
}

/// The size by itself concerns nothing but the canvas.
pub proof fn size_concerns_the_canvas_only<H>(stage: StageView<H>, width: i32, height: i32)
    ensures
        crate::stage::resized(stage, width, height).handler == stage.handler,
        crate::stage::resized(stage, width, height).deferred == stage.deferred,
        crate::stage::resized(stage, width, height).cursor == stage.cursor,
        crate::stage::resized(stage, width, height).clipboard == stage.clipboard,
{
}

/// The start of a drop makes the list of files empty, and nothing else changes.
pub proof fn drop_start_forgets_files_only<H>(stage: StageView<H>)
    requires
        stage.display is Some,
    ensures
        ({
            let next = crate::stage::files_forgotten(stage);
            &&& next.handler == stage.handler
            &&& next.deferred == stage.deferred
            &&& next.cursor == stage.cursor
            &&& next.clipboard == stage.clipboard
            &&& next.display is Some
            &&& next.display->0.screen_width == stage.display->0.screen_width
            &&& next.display->0.screen_height == stage.display->0.screen_height
            &&& next.display->0.dpi_scale == stage.display->0.dpi_scale
            &&& next.display->0.blocking_event_loop == stage.display->0.blocking_event_loop
            &&& next.display->0.dropped_files.paths.len() == 0
            &&& next.display->0.dropped_files.bytes.len() == 0
        }),
{
}

/// A file that is handed over stands behind the others with its path and its contents, and nothing
/// else changes.
pub proof fn dropped_file_is_added_only<H>(stage: StageView<H>, path: Seq<char>, bytes: Seq<u8>)
    requires
        stage.display is Some,
    ensures
        ({
            let next = crate::stage::file_added(stage, path, bytes);
            let before = stage.display->0.dropped_files;
            let files = next.display->0.dropped_files;
            &&& next.handler == stage.handler
            &&& next.deferred == stage.deferred
            &&& next.cursor == stage.cursor
            &&& next.clipboard == stage.clipboard
            &&& next.display is Some
            &&& next.display->0.screen_width == stage.display->0.screen_width
            &&& next.display->0.screen_height == stage.display->0.screen_height
            &&& next.display->0.dpi_scale == stage.display->0.dpi_scale
            &&& next.display->0.blocking_event_loop == stage.display->0.blocking_event_loop
            &&& files.paths == before.paths + seq![path]
            &&& files.bytes == before.bytes + seq![bytes]
        }),
{
    let before = stage.display->0.dropped_files;
    assert(before.paths.push(path) =~= before.paths + seq![path]);
    assert(before.bytes.push(bytes) =~= before.bytes + seq![bytes]);
}

/// No file at all, and one file more, are what they say.
pub proof fn file_lists_grow_by_one(files: DroppedFilesView, path: Seq<char>, bytes: Seq<u8>)
    ensures
        DroppedFilesView::none().paths.len() == 0,
        DroppedFilesView::none().bytes.len() == 0,
        files.with(path, bytes).paths == files.paths + seq![path],
        files.with(path, bytes).bytes == files.bytes + seq![bytes],
        files.wf() <==> files.paths.len() == files.bytes.len(),
{
    assert(files.paths.push(path) =~= files.paths + seq![path]);
    assert(files.bytes.push(bytes) =~= files.bytes + seq![bytes]);
}

/// A turn that concerns neither the handler nor the events, with another display.
pub open spec fn display_turn<H>(stage: StageView<H>, display: Option<DisplayView>) -> Turn<H> {
    Turn::Aside { display, cursor: stage.cursor, clipboard: stage.clipboard }
}

/// What the page reports of the canvas and of dropped files is made of turns: one that concerns
/// the display only and, for a new size, the event. So no deferred event is lost by it.
pub proof fn page_reports_are_made_of_turns<H>(
    stage: StageView<H>,
    width: i32,
    height: i32,
    path: Seq<char>,
    bytes: Seq<u8>,
)
    ensures
        ({
            let event = DeferredEvent::Resize { width, height };
            let resized = crate::stage::resized(stage, width, height);
            let turns = seq![display_turn(stage, resized.display), Turn::Event(event)];
            &&& crate::stage::arrival(resized, event).0 == crate::laws::after_all(stage, turns)
            &&& crate::laws::all_allowed(stage, turns)
            &&& crate::laws::taken(stage, turns).len() == 0
            &&& stage.deferred + crate::laws::postponed(stage, turns) == crate::stage::arrival(
                resized,
                event,
            ).0.deferred
        }),
        crate::stage::files_forgotten(stage) == crate::laws::after(
            stage,
            display_turn(stage, crate::stage::files_forgotten(stage).display),
        ),
        crate::stage::files_forgotten(stage).deferred == stage.deferred,
        crate::stage::files_forgotten(stage).handler == stage.handler,
        crate::stage::file_added(stage, path, bytes) == crate::laws::after(
            stage,
            display_turn(stage, crate::stage::file_added(stage, path, bytes).display),
        ),
        crate::stage::file_added(stage, path, bytes).deferred == stage.deferred,
        crate::stage::file_added(stage, path, bytes).handler == stage.handler,
{
    let event = DeferredEvent::Resize { width, height };
    let resized = crate::stage::resized(stage, width, height);
    let turns = seq![display_turn(stage, resized.display), Turn::Event(event)];
    reveal_with_fuel(crate::laws::after_all, 3);
    reveal_with_fuel(crate::laws::all_allowed, 3);
    reveal_with_fuel(crate::laws::taken, 3);
    assert(turns.drop_last() =~= seq![turns[0]]);
    assert(turns.drop_last().drop_last() =~= Seq::empty());
    crate::laws::deferred_events_keep_their_order(stage, turns);
    assert(crate::laws::taken(stage, turns) =~= Seq::empty());
    assert(Seq::<DeferredEvent>::empty() + crate::laws::after_all(stage, turns).deferred
        =~= crate::laws::after_all(stage, turns).deferred);
}

// The drain.

/// A drain has to deliver what was deferred when it began, later what it has left.
pub proof fn drain_starts_from_the_queue<H>(
    stage: StageView<H>,
    handler: H,
    rest: VecDeque<DeferredEvent>,
)
    ensures
        Drain::<H>::Begin.events(stage) == stage.deferred,
        (Drain::Delivered { handler, rest }).events(stage) == rest@,
        Drain::<H>::Begin.can_go_on(stage) <==> stage.deferred.len() == 0 || stage.handler is Idle,
        (Drain::Delivered { handler, rest }).can_go_on(stage) <==> stage.handler is Borrowed,
{
}

/// A drain takes the queue when it begins and leaves it alone afterwards, so that what is deferred
/// later stays; it gives the handler back after each event, and concerns nothing else.
pub proof fn drain_leaves_later_events<H>(
    stage: StageView<H>,
    handler: H,
    rest: VecDeque<DeferredEvent>,
)
    ensures
        ({
            let begun = Drain::<H>::Begin.stage(stage);
            &&& begun.handler == stage.handler
            &&& begun.deferred.len() == 0
            &&& begun.display == stage.display
            &&& begun.cursor == stage.cursor
            &&& begun.clipboard == stage.clipboard
        }),
        ({
            let back = (Drain::Delivered { handler, rest }).stage(stage);
            &&& back.handler == HandlerSlot::Idle(handler)
            &&& back.deferred == stage.deferred
            &&& back.display == stage.display
            &&& back.cursor == stage.cursor
            &&& back.clipboard == stage.clipboard
        }),
{
}

// The frame.

/// What a frame can be told of at which point, and where the handler has to be.
pub proof fn frame_accepts_what_it_asked_for<H>(
    stage: StageView<H>,
    state: FrameStateView,
    event: FrameEvent<H>,
)
    ensures
        crate::frame::frame_accepts(stage, state, event) <==> {
            ||| state is Ready && event is Begin && (stage.deferred.len() == 0 || stage.handler
                is Idle)
            ||| state is Delivering && event is Delivered && stage.handler is Borrowed
            ||| state is Receiving && event is Received && (event->Received_0 is Some
                || stage.handler is Idle)
            ||| state is Performing && event is Performed
            ||| state is Drawing && event is Drawn && stage.handler is Borrowed
        },
{
}

/// The first step of a frame takes the whole queue and hands out its first event, or asks for a
/// request where there is none.
pub proof fn frame_begins_with_the_queue<H>(stage: StageView<H>)
    requires
        stage.deferred.len() > 0 ==> stage.handler is Idle,
    ensures
        ({
            let (next, state, action) = crate::frame::frame_step(
                stage,
                FrameStateView::Ready,
                FrameEvent::Begin,
            );
            &&& next.deferred.len() == 0
            &&& next.display == stage.display
            &&& next.cursor == stage.cursor
            &&& next.clipboard == stage.clipboard
            &&& stage.deferred.len() == 0 ==> {
                &&& next.handler == stage.handler
                &&& state is Receiving
                &&& action is Receive
            }
            &&& stage.deferred.len() > 0 ==> {
                &&& next.handler is Borrowed
                &&& action is Deliver
                &&& action->handler == stage.handler->Idle_0
                &&& state is Delivering
                &&& seq![action->event] + state->Delivering_0 == stage.deferred
            }
        }),
{
    if stage.deferred.len() > 0 {
        assert(seq![stage.deferred[0]] + stage.deferred.skip(1) =~= stage.deferred);
    }
}

/// After an event was delivered, a frame hands out the next one to the handler that came back, or
/// keeps the handler in its place and asks for a request. What was deferred meanwhile stays.
pub proof fn frame_delivers_what_is_left<H>(
    stage: StageView<H>,
    events: Seq<DeferredEvent>,
    handler: H,
)
    requires
        stage.handler is Borrowed,
    ensures
        ({
            let (next, state, action) = crate::frame::frame_step(
                stage,
                FrameStateView::Delivering(events),
                FrameEvent::Delivered(handler),
            );
            &&& next.deferred == stage.deferred
            &&& next.display == stage.display
            &&& next.cursor == stage.cursor
            &&& next.clipboard == stage.clipboard
            &&& events.len() == 0 ==> {
                &&& next.handler == HandlerSlot::Idle(handler)
                &&& state is Receiving
                &&& action is Receive
            }
            &&& events.len() > 0 ==> {
                &&& next.handler is Borrowed
                &&& action is Deliver
                &&& action->handler == handler
                &&& state is Delivering
                &&& seq![action->event] + state->Delivering_0 == events
            }
        }),
{
    if events.len() > 0 {
        assert(seq![events[0]] + events.skip(1) =~= events);
    }
}

/// What a frame does with a request: grabbing the cursor and the full screen are told to the page
/// as they were asked for, a cursor is told by its name just where what can be seen of it changes,
/// and after anything else the next request is asked for. Only the cursor can change.
pub proof fn frame_carries_out_requests<H>(stage: StageView<H>, request: Request)
    ensures
        ({
            let (next, state, action) = crate::frame::frame_step(
                stage,
                FrameStateView::Receiving,
                FrameEvent::Received(Some(request)),
            );
            &&& next.handler == stage.handler
            &&& next.deferred == stage.deferred
            &&& next.display == stage.display
            &&& next.clipboard == stage.clipboard
            &&& next.cursor.show == (if request is ShowMouse {
                request->ShowMouse_0
            } else {
                stage.cursor.show
            })
            &&& next.cursor.icon == (if request is SetMouseCursor {
                request->SetMouseCursor_0
            } else {
                stage.cursor.icon
            })
            &&& request is SetCursorGrab ==> action == FrameAction::<H>::Perform(
                PageCommand::SetCursorGrab(request->SetCursorGrab_0),
            )
            &&& request is SetFullscreen ==> action == FrameAction::<H>::Perform(
                PageCommand::SetFullscreen(request->SetFullscreen_0),
            )
            &&& request is Other ==> action is Receive
            &&& request is ShowMouse || request is SetMouseCursor ==> action == (if next.cursor
                == stage.cursor || !next.cursor.show && !stage.cursor.show {
                FrameAction::<H>::Receive
            } else {
                FrameAction::<H>::Perform(
                    PageCommand::SetCursor(crate::cursor::css_name(next.cursor)),
                )
            })
            &&& action is Perform <==> state is Performing
            &&& action is Receive <==> state is Receiving
        }),
{
}

/// The other steps of a frame: after a command the next request is asked for; where no request is
/// left the handler updates and draws; when it has, it is back in its place and the frame is over.
pub proof fn frame_draws_and_ends<H>(stage: StageView<H>, handler: H)
    ensures
        ({
            let (next, state, action) = crate::frame::frame_step(
                stage,
                FrameStateView::Performing,
                FrameEvent::Performed,
            );
            &&& next == stage
            &&& state is Receiving
            &&& action is Receive
        }),
        stage.handler is Idle ==> ({
            let (next, state, action) = crate::frame::frame_step(
                stage,
                FrameStateView::Receiving,
                FrameEvent::Received(None),
            );
            &&& next.handler is Borrowed
            &&& next.deferred == stage.deferred
            &&& next.display == stage.display
            &&& next.cursor == stage.cursor
            &&& next.clipboard == stage.clipboard
            &&& state is Drawing
            &&& action == FrameAction::UpdateAndDraw(stage.handler->Idle_0)
        }),
        stage.handler is Borrowed ==> ({
            let (next, state, action) = crate::frame::frame_step(
                stage,
                FrameStateView::Drawing,
                FrameEvent::Drawn(handler),
            );
            &&& next.handler == HandlerSlot::Idle(handler)
            &&& next.deferred == stage.deferred
            &&& next.display == stage.display
            &&& next.cursor == stage.cursor
            &&& next.clipboard == stage.clipboard
            &&& state is Finished
            &&& action is Finish
        }),
{
}

/// A frame that gets these requests one after another: the stage, how far it got, and the commands
/// that the page carried out.
pub open spec fn requests_taken_up<H>(stage: StageView<H>, requests: Seq<Request>) -> (
    StageView<H>,
    FrameStateView,
    Seq<PageCommand>,
)
    decreases requests.len(),
{
    if requests.len() == 0 {
        (stage, FrameStateView::Receiving, Seq::empty())
    } else {
        let (before, state, commands) = requests_taken_up(stage, requests.drop_last());
        let (next, next_state, action) = crate::frame::frame_step(
            before,
            state,
            FrameEvent::Received(Some(requests.last())),
        );
        match action {
            FrameAction::Perform(command) => {
                let (done, done_state, _) = crate::frame::frame_step(
                    next,
                    next_state,
                    FrameEvent::Performed,
                );
                (done, done_state, commands.push(command))
            },
            _ => (next, next_state, commands),
        }
    }
}

/// After any requests a frame asks for the next one, and nothing but the cursor has changed.
pub proof fn requests_concern_the_cursor_only<H>(stage: StageView<H>, requests: Seq<Request>)
    ensures
        requests_taken_up(stage, requests).1 is Receiving,
        requests_taken_up(stage, requests).0.handler == stage.handler,
        requests_taken_up(stage, requests).0.deferred == stage.deferred,
        requests_taken_up(stage, requests).0.display == stage.display,
        requests_taken_up(stage, requests).0.clipboard == stage.clipboard,
    decreases requests.len(),
{
    if requests.len() > 0 {
        requests_concern_the_cursor_only(stage, requests.drop_last());
    }
}

/// Each request of a frame adds its own command behind those of the requests before it, or none:
/// those for the cursor only where what can be seen of it changes.
pub proof fn each_request_adds_its_command<H>(
    stage: StageView<H>,
    requests: Seq<Request>,
    request: Request,
)
    ensures
        ({
            let (before, _, commands) = requests_taken_up(stage, requests);
            let (next, _, more) = requests_taken_up(stage, requests.push(request));
            let name = crate::cursor::css_name(next.cursor);
            &&& more == commands + match request {
                Request::SetCursorGrab(grab) => seq![PageCommand::SetCursorGrab(grab)],
                Request::SetFullscreen(fullscreen) => seq![PageCommand::SetFullscreen(fullscreen)],
                Request::ShowMouse(show) => if show != before.cursor.show {
                    seq![PageCommand::SetCursor(name)]
                } else {
                    Seq::empty()
                },
                Request::SetMouseCursor(icon) => if before.cursor.show && icon
                    != before.cursor.icon {
                    seq![PageCommand::SetCursor(name)]
                } else {
                    Seq::empty()
                },
                Request::Other => Seq::empty(),
            }
            &&& request is ShowMouse ==> next.cursor.show == request->ShowMouse_0
            &&& !(request is ShowMouse) ==> next.cursor.show == before.cursor.show
            &&& request is SetMouseCursor ==> next.cursor.icon == request->SetMouseCursor_0
            &&& !(request is SetMouseCursor) ==> next.cursor.icon == before.cursor.icon
        }),
{
    requests_concern_the_cursor_only(stage, requests);
    assert(requests.push(request).drop_last() =~= requests);
    let (_, _, commands) = requests_taken_up(stage, requests);
    let (_, _, more) = requests_taken_up(stage, requests.push(request));
    if more.len() == commands.len() {
        assert(more =~= commands + Seq::<PageCommand>::empty());
    } else {
        assert(more =~= commands + seq![more.last()]);
    }
}

/// A page that showed the cursor before a frame shows the right one after all its requests: the
/// last name that it was sent, or the one before where it was sent none.
pub proof fn frame_leaves_the_right_cursor<H>(stage: StageView<H>, requests: Seq<Request>)
    ensures
        ({
            let (next, _, commands) = requests_taken_up(stage, requests);
            let name = crate::cursor::css_name(next.cursor);
            &&& forall|k: int|
                0 <= k < commands.len() && #[trigger] commands[k] is SetCursor && (forall|i: int|
                    k < i < commands.len() ==> !(#[trigger] commands[i] is SetCursor))
                    ==> commands[k] == PageCommand::SetCursor(name)
            &&& (forall|i: int| 0 <= i < commands.len() ==> !(#[trigger] commands[i] is SetCursor))
                ==> name == crate::cursor::css_name(stage.cursor)
        }),
    decreases requests.len(),
{
    if requests.len() > 0 {
        let before = requests.drop_last();
        let request = requests.last();
        assert(before.push(request) =~= requests);
        frame_leaves_the_right_cursor(stage, before);
        each_request_adds_its_command(stage, before, request);
        let (mid, _, commands) = requests_taken_up(stage, before);
        let (next, _, more) = requests_taken_up(stage, requests);
        let name = crate::cursor::css_name(next.cursor);
        assert forall|k: int|
            0 <= k < more.len() && #[trigger] more[k] is SetCursor && (forall|i: int|
                k < i < more.len() ==> !(#[trigger] more[i] is SetCursor)) implies more[k]
            == PageCommand::SetCursor(name) by {
            if k < commands.len() {
                assert(commands[k] == more[k]);
                assert forall|i: int| k < i < commands.len() implies !(#[trigger] commands[i]
                    is SetCursor) by {
                    assert(commands[i] == more[i]);
                }
                if more.len() > commands.len() {
                    assert(!(more[commands.len() as int] is SetCursor));
                }
                assert(crate::cursor::css_name(mid.cursor) == name);
            }
        }
        if forall|i: int| 0 <= i < more.len() ==> !(#[trigger] more[i] is SetCursor) {
            assert forall|i: int| 0 <= i < commands.len() implies !(#[trigger] commands[i]
                is SetCursor) by {
                assert(commands[i] == more[i]);
            }
            if more.len() > commands.len() {
                assert(!(more[commands.len() as int] is SetCursor));
            }
        }
    }
}

// The cursor.

/// After a request the cursor has the shape and can be seen as that very request says; all that
/// the request does not speak of is as before.
pub proof fn cursor_is_as_requested(cursor: Cursor, request: Request)
    ensures
        ({
            let next = crate::cursor::cursor_after(cursor, request);
            &&& request is SetMouseCursor ==> next.icon == request->SetMouseCursor_0
            &&& !(request is SetMouseCursor) ==> next.icon == cursor.icon
            &&& request is ShowMouse ==> next.show == request->ShowMouse_0
            &&& !(request is ShowMouse) ==> next.show == cursor.show
        }),
{
}

/// The page is told of a grab, of the full screen and of a cursor that can be seen to change, each
/// with what was asked for, and of nothing else.
pub proof fn page_is_told_as_requested(cursor: Cursor, request: Request)
    ensures
        ({
            let command = crate::cursor::command_for(cursor, request);
            &&& request is SetCursorGrab ==> command == Some(
                PageCommand::SetCursorGrab(request->SetCursorGrab_0),
            )
            &&& request is SetFullscreen ==> command == Some(
                PageCommand::SetFullscreen(request->SetFullscreen_0),
            )
            &&& request is Other ==> command is None
            &&& request is SetMouseCursor ==> {
                &&& command is Some <==> cursor.show && request->SetMouseCursor_0 != cursor.icon
                &&& command is Some ==> command->0 == PageCommand::SetCursor(
                    crate::cursor::css_name(
                        Cursor { icon: request->SetMouseCursor_0, show: true },
                    ),
                )
            }
            &&& request is ShowMouse ==> {
                &&& command is Some <==> request->ShowMouse_0 != cursor.show
                &&& command is Some ==> command->0 == PageCommand::SetCursor(
                    crate::cursor::css_name(
                        Cursor { icon: cursor.icon, show: request->ShowMouse_0 },
                    ),
                )
            }
        }),
{
}

/// A cursor that is hidden has the name of no cursor; one that is shown has the name that CSS gives
/// its shape.
pub proof fn cursor_has_its_css_name(cursor: Cursor)
    ensures
        ({
            let name = crate::cursor::css_name(cursor);
            &&& !cursor.show ==> name@ == "none"@
            &&& cursor.show ==> {
                &&& cursor.icon is Default ==> name@ == "default"@
                &&& cursor.icon is Help ==> name@ == "help"@
                &&& cursor.icon is Pointer ==> name@ == "pointer"@
                &&& cursor.icon is Wait ==> name@ == "wait"@
                &&& cursor.icon is Crosshair ==> name@ == "crosshair"@
                &&& cursor.icon is Text ==> name@ == "text"@
                &&& cursor.icon is Move ==> name@ == "move"@
                &&& cursor.icon is NotAllowed ==> name@ == "not-allowed"@
                &&& cursor.icon is EWResize ==> name@ == "ew-resize"@
                &&& cursor.icon is NSResize ==> name@ == "ns-resize"@
                &&& cursor.icon is NESWResize ==> name@ == "nesw-resize"@
                &&& cursor.icon is NWSEResize ==> name@ == "nwse-resize"@
            }
        }),
{
}

/// A page is opened with the default cursor shown.
pub proof fn page_opens_with_default_cursor()
    ensures
        crate::cursor::first_cursor().show,
        crate::cursor::first_cursor().icon == CursorIcon::Default,
{
}

/// What the page uses after a command is the cursor of that command, if it is one for the cursor.
pub proof fn page_uses_the_cursor_it_was_sent(name: &'static str, sent: &'static str, on: bool)
    ensures
        crate::cursor::page_cursor(name, Some(PageCommand::SetCursor(sent))) == sent,
        crate::cursor::page_cursor(name, Some(PageCommand::SetCursorGrab(on))) == name,
        crate::cursor::page_cursor(name, Some(PageCommand::SetFullscreen(on))) == name,
        crate::cursor::page_cursor(name, None) == name,
{
}

// The clipboard.

/// A text that is pasted is what the clipboard holds; reading and sending leave it as it is.
pub proof fn clipboard_holds_the_paste(
    clipboard: Option<Seq<char>>,
    text: Seq<char>,
    sent: Seq<char>,
)
    ensures
        crate::clipboard::clipboard_after(clipboard, ClipboardUse::Paste(text)) == Some(text),
        crate::clipboard::clipboard_after(clipboard, ClipboardUse::Read) == clipboard,
        crate::clipboard::clipboard_after(clipboard, ClipboardUse::Send(sent)) == clipboard,
{
}

proof fn zero_byte_encodes_zero_only(code: u32)
    ensures
        vstd::utf8::encode_scalar(code).contains(0u8) <==> code == 0,
{
    let bytes = vstd::utf8::encode_scalar(code);
    assert(code <= 0x7F ==> ((code & 0x7F) as u8 == 0u8 <==> code == 0)) by (bit_vector);
    assert(0xC0 | ((code >> 6) & 0x1F) as u8 != 0u8) by (bit_vector);
    assert(0xE0 | ((code >> 12) & 0x0F) as u8 != 0u8) by (bit_vector);
    assert(0xF0 | ((code >> 18) & 0x7) as u8 != 0u8) by (bit_vector);
    assert(0x80 | (code & 0x3F) as u8 != 0u8) by (bit_vector);
    assert(0x80 | ((code >> 6) & 0x3F) as u8 != 0u8) by (bit_vector);
    assert(0x80 | ((code >> 12) & 0x3F) as u8 != 0u8) by (bit_vector);
    if code == 0 {
        assert(bytes[0] == 0);
    }
}

/// A text holds a zero byte just where it holds the character of number zero.
pub proof fn zero_byte_is_the_zero_character(text: Seq<char>)
    ensures
        crate::clipboard::holds_nul(text) <==> text.contains('\0'),
    decreases text.len(),
{
    if text.len() > 0 {
        let head = vstd::utf8::encode_scalar(text[0] as u32);
        let rest = text.drop_first();
        let tail = vstd::utf8::encode_utf8(rest);
        let bytes = vstd::utf8::encode_utf8(text);
        zero_byte_encodes_zero_only(text[0] as u32);
        zero_byte_is_the_zero_character(rest);
        assert(bytes == head + tail);
        if bytes.contains(0) {
            let i = bytes.index_of(0);
            if i < head.len() {
                assert(head[i] == 0);
                vstd::utf8::char_u32_cast(text[0], 0);
                vstd::utf8::char_u32_cast('\0', 0);
                assert(text[0] == '\0');
            } else {
                assert(tail[i - head.len()] == 0);
                let k = rest.index_of('\0');
                assert(text[k + 1] == '\0');
            }
        }
        if text.contains('\0') {
            let k = text.index_of('\0');
            if k == 0 {
                let i = head.index_of(0);
                assert(bytes[i] == 0);
            } else {
                assert(rest[k - 1] == '\0');
                let i = tail.index_of(0);
                assert(bytes[head.len() + i] == 0);
            }
        }
    }
}

/// The C string of a text is its encoding and one zero byte more.
pub proof fn c_string_adds_one_byte(text: Seq<char>)
    ensures
        crate::clipboard::c_bytes(text).len() == vstd::utf8::encode_utf8(text).len() + 1,
        crate::clipboard::c_bytes(text).last() == 0,
        crate::clipboard::c_bytes(text).drop_last() == vstd::utf8::encode_utf8(text),
{
    assert(crate::clipboard::c_bytes(text).drop_last() =~= vstd::utf8::encode_utf8(text));
}

// Characters.

/// The numbers that are taken for typed characters are those of the characters.
pub proof fn typed_numbers_are_characters(code: u32)
    ensures
        crate::input::is_scalar_value(code) <==> exists|c: char| #[trigger] (c as u32) == code,
        crate::input::is_scalar_value(code) ==> (code as char) as u32 == code,
{
    if crate::input::is_scalar_value(code) {
        let c = code as char;
        assert(c as u32 == code);
    }
}

// Starting an application.

/// Each step of starting wants done what comes next, with what the configuration says.
pub proof fn start_asks_as_configured<H>(conf: Conf, event: RunEvent<H>)
    ensures
        ({
            let action = crate::startup::run_action(conf, event);
            &&& event is Begin ==> action == (RunAction::InitWebgl {
                version: if conf.platform.webgl_version == WebGLVersion::WebGL1 {
                    1
                } else {
                    2
                },
            })
            &&& event is WebglReady ==> action == (RunAction::SetupCanvasSize {
                high_dpi: conf.high_dpi,
            })
            &&& event is CanvasReady ==> action is MeasureCanvas
            &&& event is Measured ==> action is BuildHandler
            &&& event is HandlerBuilt ==> action == (RunAction::RunAnimationLoop {
                blocking: conf.platform.blocking_event_loop,
            })
            &&& event is LoopStarted ==> action is Finish
        }),
{
}

/// WebGL of the first version has number one, that of the second has number two.
pub proof fn webgl_versions_are_numbered(version: WebGLVersion)
    ensures
        version is WebGL1 ==> crate::startup::version_number(version) == 1,
        version is WebGL2 ==> crate::startup::version_number(version) == 2,
{
}

/// Measuring the canvas changes the display only, to what was measured; building the handler puts
/// that handler in its place and changes nothing else; no other step of starting changes anything.
pub proof fn start_changes_display_and_handler_only<H>(
    stage: StageView<H>,
    conf: Conf,
    event: RunEvent<H>,
)
    ensures
        ({
            let next = crate::startup::run_stage(stage, conf, event);
            &&& next.deferred == stage.deferred
            &&& next.cursor == stage.cursor
            &&& next.clipboard == stage.clipboard
            &&& event is HandlerBuilt ==> next.handler == HandlerSlot::Idle(
                event->HandlerBuilt_0,
            )
            &&& !(event is HandlerBuilt) ==> next.handler == stage.handler
            &&& !(event is Measured) ==> next.display == stage.display
            &&& event is Measured ==> {
                &&& next.display is Some
                &&& next.display->0.screen_width == event->width
                &&& next.display->0.screen_height == event->height
                &&& next.display->0.dpi_scale == event->dpi_scale
                &&& next.display->0.blocking_event_loop == conf.platform.blocking_event_loop
                &&& next.display->0.dropped_files.paths.len() == 0
                &&& next.display->0.dropped_files.bytes.len() == 0
            }
        }),
{
}

/// The stage after several steps of starting an application.
pub open spec fn run_stages<H>(stage: StageView<H>, conf: Conf, events: Seq<RunEvent<H>>) -> StageView<
    H,
>
    decreases events.len(),
{
    if events.len() == 0 {
        stage
    } else {
        crate::startup::run_stage(
            run_stages(stage, conf, events.drop_last()),
            conf,
            events.last(),
        )
    }
}

/// After the whole course of starting an application, the handler that was built waits in its
/// place, the display is as it was measured, and queue, cursor and clipboard are those of before.
pub proof fn started_application_is_ready<H>(
    stage: StageView<H>,
    conf: Conf,
    width: i32,
    height: i32,
    dpi_scale: FloatBits,
    handler: H,
)
    ensures
        ({
            let next = run_stages(
                stage,
                conf,
                seq![
                    RunEvent::Begin,
                    RunEvent::WebglReady,
                    RunEvent::CanvasReady,
                    RunEvent::Measured { width, height, dpi_scale },
                    RunEvent::HandlerBuilt(handler),
                    RunEvent::LoopStarted,
                ],
            );
            &&& next.handler == HandlerSlot::Idle(handler)
            &&& next.display is Some
            &&& next.display->0.screen_width == width
            &&& next.display->0.screen_height == height
            &&& next.display->0.dpi_scale == dpi_scale
            &&& next.display->0.blocking_event_loop == conf.platform.blocking_event_loop
            &&& next.display->0.dropped_files.paths.len() == 0
            &&& next.display->0.dropped_files.bytes.len() == 0
            &&& next.deferred == stage.deferred
            &&& next.cursor == stage.cursor
            &&& next.clipboard == stage.clipboard
        }),
{
    let events = seq![
        RunEvent::Begin,
        RunEvent::WebglReady,
        RunEvent::CanvasReady,
        RunEvent::Measured { width, height, dpi_scale },
        RunEvent::HandlerBuilt(handler),
        RunEvent::LoopStarted,
    ];
    reveal_with_fuel(run_stages, 7);
    assert(events.drop_last() =~= events.take(5));
    assert(events.take(5).drop_last() =~= events.take(4));
    assert(events.take(4).drop_last() =~= events.take(3));
    assert(events.take(3).drop_last() =~= events.take(2));
    assert(events.take(2).drop_last() =~= events.take(1));
    assert(events.take(1).drop_last() =~= Seq::empty());
}

} // verus!
