use vstd::prelude::*;

use crate::cursor::Cursor;
use crate::display::{DisplayView, DroppedFilesView};
use crate::event::DeferredEvent;
use crate::frame::{FrameAction, FrameEvent, FrameStateView};
use crate::handler::{EventHandler, HandlerCall};
use crate::stage::{Arrival, HandlerSlot, StageView};
use crate::startup::{Conf, RunAction, RunEvent};

verus! {

/// One thing that happens to a stage.
pub enum Turn<H> {
    /// An event fires.
    Event(DeferredEvent),
    /// The handler is lent to run.
    Lend,
    /// The handler has run and is given back.
    Return(H),
    /// The application puts its handler in place.
    Install(H),
    /// The deferred events are taken.
    Drain,
    /// Something that concerns neither the handler nor the events.
    Aside { display: Option<DisplayView>, cursor: Cursor, clipboard: Option<Seq<char>> },
}

/// Whether a turn can be had: the handler is lent only where it is, given back only where it is
/// missing, and not replaced while it runs.
pub open spec fn allowed<H>(stage: StageView<H>, turn: Turn<H>) -> bool {
    match turn {
        Turn::Lend => stage.handler is Idle,
        Turn::Return(_) => stage.handler is Borrowed,
        Turn::Install(_) => !(stage.handler is Borrowed),
        _ => true,
    }
}

/// The stage after a turn.
pub open spec fn after<H>(stage: StageView<H>, turn: Turn<H>) -> StageView<H> {
    match turn {
        Turn::Event(event) => crate::stage::arrival(stage, event).0,
        Turn::Lend => crate::stage::lent(stage),
        Turn::Return(handler) => crate::stage::with_handler(stage, handler),
        Turn::Install(handler) => crate::stage::with_handler(stage, handler),
        Turn::Drain => crate::stage::drained(stage),
        Turn::Aside { display, cursor, clipboard } => StageView {
            display,
            cursor,
            clipboard,
            ..stage
        },
    }
}

/// The stage after a whole history.
pub open spec fn after_all<H>(stage: StageView<H>, turns: Seq<Turn<H>>) -> StageView<H>
    decreases turns.len(),
{
    if turns.len() == 0 {
        stage
    } else {
        after(after_all(stage, turns.drop_last()), turns.last())
    }
}

/// Whether every turn of a history can be had when it comes.
pub open spec fn all_allowed<H>(stage: StageView<H>, turns: Seq<Turn<H>>) -> bool
    decreases turns.len(),
{
    turns.len() > 0 ==> {
        &&& all_allowed(stage, turns.drop_last())
        &&& allowed(after_all(stage, turns.drop_last()), turns.last())
    }
}

/// The events of a history that fired while the handler was running, oldest first.
pub open spec fn postponed<H>(stage: StageView<H>, turns: Seq<Turn<H>>) -> Seq<DeferredEvent>
    decreases turns.len(),
{
    if turns.len() == 0 {
        Seq::empty()
    } else {
        let before = postponed(stage, turns.drop_last());
        match turns.last() {
            Turn::Event(event) => if after_all(stage, turns.drop_last()).handler is Borrowed {
                before.push(event)
            } else {
                before
            },
            _ => before,
        }
    }
}

/// The events that the drains of a history took, in the order in which they were taken.
pub open spec fn taken<H>(stage: StageView<H>, turns: Seq<Turn<H>>) -> Seq<DeferredEvent>
    decreases turns.len(),
{
    if turns.len() == 0 {
        Seq::empty()
    } else {
        let before = taken(stage, turns.drop_last());
        match turns.last() {
            Turn::Drain => before + after_all(stage, turns.drop_last()).deferred,
            _ => before,
        }
    }
}

/// How many times more often the handler was lent than given back.
pub open spec fn loans<H>(stage: StageView<H>, turns: Seq<Turn<H>>) -> int
    decreases turns.len(),
{
    if turns.len() == 0 {
        0
    } else {
        let before = loans(stage, turns.drop_last());
        match turns.last() {
            Turn::Event(event) => if crate::stage::arrival(
                after_all(stage, turns.drop_last()),
                event,
            ).1 is Run {
                before + 1
            } else {
                before
            },
            Turn::Lend => before + 1,
            Turn::Return(_) => before - 1,
            _ => before,
        }
    }
}

/// No deferred event is lost, taken twice or overtaken by another: whatever happens, the events
/// that were deferred are those that were taken and then those that still wait, in the order in
/// which they fired.
pub proof fn deferred_events_keep_their_order<H>(stage: StageView<H>, turns: Seq<Turn<H>>)
    ensures
        stage.deferred + postponed(stage, turns) == taken(stage, turns) + after_all(
            stage,
            turns,
        ).deferred,
    decreases turns.len(),
{
    if turns.len() > 0 {
        let before = turns.drop_last();
        deferred_events_keep_their_order(stage, before);
        let mid = after_all(stage, before);
        match turns.last() {
            Turn::Event(event) => {
                if mid.handler is Borrowed {
                    assert(stage.deferred + postponed(stage, turns) =~= (stage.deferred + postponed(
                        stage,
                        before,
                    )).push(event));
                    assert(taken(stage, turns) + mid.deferred.push(event) =~= (taken(stage, before)
                        + mid.deferred).push(event));
                }
            },
            Turn::Drain => {
                assert(taken(stage, turns) + Seq::<DeferredEvent>::empty() =~= taken(stage, before)
                    + mid.deferred);
            },
            _ => {},
        }
    } else {
        assert(stage.deferred + Seq::<DeferredEvent>::empty() =~= Seq::<DeferredEvent>::empty()
            + stage.deferred);
    }
}

/// An event that fires while the handler is running is among those that the next drain takes, and
/// so are all that were deferred since the last one, in the order in which they fired.
pub proof fn next_drain_takes_all<H>(stage: StageView<H>, turns: Seq<Turn<H>>)
    requires
        forall|i: int| 0 <= i < turns.len() ==> !(#[trigger] turns[i] is Drain),
    ensures
        after_all(stage, turns).deferred == stage.deferred + postponed(stage, turns),
    decreases turns.len(),
{
    deferred_events_keep_their_order(stage, turns);
    nothing_taken_without_drain(stage, turns);
    assert(Seq::<DeferredEvent>::empty() + after_all(stage, turns).deferred =~= after_all(
        stage,
        turns,
    ).deferred);
}

proof fn nothing_taken_without_drain<H>(stage: StageView<H>, turns: Seq<Turn<H>>)
    requires
        forall|i: int| 0 <= i < turns.len() ==> !(#[trigger] turns[i] is Drain),
    ensures
        taken(stage, turns) == Seq::<DeferredEvent>::empty(),
    decreases turns.len(),
{
    if turns.len() > 0 {
        let before = turns.drop_last();
        assert forall|i: int| 0 <= i < before.len() implies !(#[trigger] before[i] is Drain) by {
            assert(before[i] == turns[i]);
        }
        assert(!(turns[turns.len() - 1] is Drain));
        nothing_taken_without_drain(stage, before);
    }
}

/// The handler is never lent to two at once, and is missing from its place just as long as it is
/// lent.
pub proof fn handler_runs_once_at_a_time<H>(stage: StageView<H>, turns: Seq<Turn<H>>)
    requires
        !(stage.handler is Borrowed),
        all_allowed(stage, turns),
    ensures
        loans(stage, turns) == if after_all(stage, turns).handler is Borrowed {
            1int
        } else {
            0
        },
    decreases turns.len(),
{
    if turns.len() > 0 {
        handler_runs_once_at_a_time(stage, turns.drop_last());
    }
}

/// The handler gets the same event whether it is told at once or later, and an event that is told
/// at once leaves the deferred ones alone.
pub proof fn event_is_run_or_deferred<H>(stage: StageView<H>, event: DeferredEvent)
    ensures
        match crate::stage::arrival(stage, event) {
            (next, Arrival::Run { handler, event: run }) => {
                &&& run == event
                &&& stage.handler == HandlerSlot::Idle(handler)
                &&& next == crate::stage::lent(stage)
            },
            (next, Arrival::Deferred) => {
                &&& stage.handler is Borrowed
                &&& next.handler is Borrowed
                &&& next.deferred == stage.deferred.push(event)
            },
            (next, Arrival::NoHandler) => {
                &&& stage.handler is Empty
                &&& next == stage
            },
        },
{
}

/// A new size of the canvas is known at once, whatever the handler is doing.
pub proof fn size_is_known_at_once<H>(stage: StageView<H>, width: i32, height: i32)
    ensures
        ({
            let (next, _) = crate::stage::arrival(
                crate::stage::resized(stage, width, height),
                DeferredEvent::Resize { width, height },
            );
            next.display matches Some(display) && display.screen_width == width
                && display.screen_height == height
        }),
{
}

/// The steps of a frame, as turns of the stage.
pub open spec fn frame_turns<H>(
    stage: StageView<H>,
    state: FrameStateView,
    event: FrameEvent<H>,
) -> Seq<Turn<H>> {
    match (state, event) {
        (FrameStateView::Ready, FrameEvent::Begin) => if stage.deferred.len() > 0 {
            seq![Turn::Drain, Turn::Lend]
        } else {
            seq![Turn::Drain]
        },
        (FrameStateView::Delivering(events), FrameEvent::Delivered(handler)) => if events.len()
            > 0 {
            seq![Turn::Return(handler), Turn::Lend]
        } else {
            seq![Turn::Return(handler)]
        },
        (FrameStateView::Receiving, FrameEvent::Received(Some(request))) => seq![
            Turn::Aside {
                display: stage.display,
                cursor: crate::cursor::cursor_after(stage.cursor, request),
                clipboard: stage.clipboard,
            },
        ],
        (FrameStateView::Receiving, FrameEvent::Received(None)) => seq![Turn::Lend],
        (FrameStateView::Drawing, FrameEvent::Drawn(handler)) => seq![Turn::Return(handler)],
        _ => Seq::empty(),
    }
}

/// Whatever a frame does to the stage is made of turns that can be had when they come.
pub proof fn frame_is_made_of_turns<H>(
    stage: StageView<H>,
    state: FrameStateView,
    event: FrameEvent<H>,
)
    requires
        crate::frame::frame_accepts(stage, state, event),
    ensures
        all_allowed(stage, frame_turns(stage, state, event)),
        after_all(stage, frame_turns(stage, state, event)) == crate::frame::frame_step(
            stage,
            state,
            event,
        ).0,
{
    let turns = frame_turns(stage, state, event);
    reveal_with_fuel(after_all, 3);
    reveal_with_fuel(all_allowed, 3);
    if turns.len() == 2 {
        assert(turns.drop_last() =~= seq![turns[0]]);
        assert(turns.drop_last().drop_last() =~= Seq::empty());
    } else if turns.len() == 1 {
        assert(turns.drop_last() =~= Seq::empty());
    }
}

/// The step `k` of a frame that finds the stages `stages` and is given back the handlers `given`.
pub open spec fn delivery_step<H>(stages: Seq<StageView<H>>, given: Seq<H>, k: nat) -> (
    StageView<H>,
    FrameStateView,
    FrameAction<H>,
)
    decreases k,
{
    if k == 0 {
        crate::frame::frame_step(stages[0], FrameStateView::Ready, FrameEvent::Begin)
    } else {
        crate::frame::frame_step(
            stages[k as int],
            delivery_step(stages, given, (k - 1) as nat).1,
            FrameEvent::Delivered(given[k - 1]),
        )
    }
}

/// A frame first delivers the events that were deferred when it began, each once and in their
/// order, and only then looks for requests. What happens to the stage while the handler runs,
/// such as further events being deferred, makes no difference.
pub proof fn frame_delivers_in_order<H>(stages: Seq<StageView<H>>, given: Seq<H>, k: nat)
    requires
        k <= stages[0].deferred.len(),
    ensures
        ({
            let events = stages[0].deferred;
            let (_, state, action) = delivery_step(stages, given, k);
            if k < events.len() {
                &&& state == FrameStateView::Delivering(events.skip(k + 1int))
                &&& action matches FrameAction::Deliver { event, .. } && event == events[k as int]
            } else {
                &&& state is Receiving
                &&& action is Receive
            }
        }),
    decreases k,
{
    let events = stages[0].deferred;
    if k > 0 {
        frame_delivers_in_order(stages, given, (k - 1) as nat);
        if k < events.len() {
            assert(events.skip(k as int).skip(1) =~= events.skip(k + 1int));
        }
    }
}

/// An event that fires while the handler is running is delivered with the next frame, behind those
/// that were deferred before it.
pub proof fn deferred_event_comes_with_next_frame<H>(
    stage: StageView<H>,
    turns: Seq<Turn<H>>,
    j: nat,
    stages: Seq<StageView<H>>,
    given: Seq<H>,
)
    requires
        forall|i: int| 0 <= i < turns.len() ==> !(#[trigger] turns[i] is Drain),
        j < postponed(stage, turns).len(),
        stages[0] == after_all(stage, turns),
    ensures
        delivery_step(stages, given, stage.deferred.len() + j).2 matches FrameAction::Deliver {
            event,
            ..
        } && event == postponed(stage, turns)[j as int],
{
    next_drain_takes_all(stage, turns);
    frame_delivers_in_order(stages, given, stage.deferred.len() + j);
}

/// The calls by which a handler is told of events.
pub open spec fn calls_for(events: Seq<DeferredEvent>) -> Seq<HandlerCall> {
    events.map_values(|event: DeferredEvent| crate::handler::call_for(event))
}

/// While a frame delivers the deferred events, the handler has just the calls for them, in their
/// order.
pub proof fn frame_calls_the_handler<H: EventHandler>(
    stages: Seq<StageView<H>>,
    given: Seq<H>,
    k: nat,
)
    requires
        k < stages[0].deferred.len(),
        stages[0].handler is Idle,
        forall|i: nat| i <= k ==> {
            let step = #[trigger] delivery_step(stages, given, i);
            step.2 matches FrameAction::Deliver { handler, event } && given[i as int].calls()
                == handler.calls().push(crate::handler::call_for(event))
        },
    ensures
        given[k as int].calls() == crate::frame::idle_handler(stages[0]).calls() + calls_for(
            stages[0].deferred.take(k + 1int),
        ),
    decreases k,
{
    let events = stages[0].deferred;
    let first = crate::frame::idle_handler(stages[0]);
    frame_delivers_in_order(stages, given, k);
    let step = delivery_step(stages, given, k);
    assert(step.2 matches FrameAction::Deliver { handler, event } && given[k as int].calls()
        == handler.calls().push(crate::handler::call_for(event)));
    assert(calls_for(events.take(k + 1int)) =~= calls_for(events.take(k as int)).push(
        crate::handler::call_for(events[k as int]),
    ));
    if k > 0 {
        frame_delivers_in_order(stages, given, (k - 1) as nat);
        frame_calls_the_handler(stages, given, (k - 1) as nat);
        assert(first.calls() + calls_for(events.take(k + 1int)) =~= (first.calls() + calls_for(
            events.take(k as int),
        )).push(crate::handler::call_for(events[k as int])));
    } else {
        assert(first.calls() + calls_for(events.take(1)) =~= first.calls().push(
            crate::handler::call_for(events[0]),
        ));
    }
}

/// The place of a state in the course of a frame.
pub open spec fn stage_of_frame(state: FrameStateView) -> int {
    match state {
        FrameStateView::Ready => 0,
        FrameStateView::Delivering(_) => 1,
        FrameStateView::Receiving => 2,
        FrameStateView::Performing => 2,
        FrameStateView::Drawing => 3,
        FrameStateView::Finished => 4,
    }
}

/// A frame never goes back: events are delivered before requests are taken up, and the handler
/// updates and draws, once, when no request is left. The handler is lent just for the two actions
/// that run it.
pub proof fn frame_goes_forward<H>(stage: StageView<H>, state: FrameStateView, event: FrameEvent<H>)
    requires
        crate::frame::frame_accepts(stage, state, event),
    ensures
        ({
            let (next_stage, next, action) = crate::frame::frame_step(stage, state, event);
            &&& stage_of_frame(state) <= stage_of_frame(next)
            &&& action is Deliver <==> next is Delivering
            &&& action is Receive <==> next is Receiving
            &&& action is Perform <==> next is Performing
            &&& action is UpdateAndDraw <==> next is Drawing
            &&& action is Finish <==> next is Finished
            &&& next is Drawing ==> state is Receiving && event == FrameEvent::<H>::Received(None)
            &&& next is Finished ==> state is Drawing
            &&& action is Deliver || action is UpdateAndDraw ==> next_stage.handler is Borrowed
            &&& event is Delivered || event is Drawn ==> (action is Deliver || next_stage.handler
                is Idle)
        }),
{
}

/// Whether an event reports that what starting an application wanted was done.
pub open spec fn reports<H>(event: RunEvent<H>, action: RunAction) -> bool {
    match action {
        RunAction::InitWebgl { .. } => event is WebglReady,
        RunAction::SetupCanvasSize { .. } => event is CanvasReady,
        RunAction::MeasureCanvas => event is Measured,
        RunAction::BuildHandler => event is HandlerBuilt,
        RunAction::RunAnimationLoop { .. } => event is LoopStarted,
        RunAction::Finish => false,
    }
}

/// Starting an application takes its course: WebGL of the version that was asked for, the canvas,
/// its measures, the handler, and at last the loop that calls for frames.
pub proof fn start_takes_its_course<H>(conf: Conf, events: Seq<RunEvent<H>>)
    requires
        events.len() > 0,
        events[0] is Begin,
        forall|i: int|
            0 < i < events.len() ==> reports(
                #[trigger] events[i],
                crate::startup::run_action(conf, events[i - 1]),
            ),
    ensures
        events.len() <= 6,
        events.map_values(|event: RunEvent<H>| crate::startup::run_action(conf, event)) == seq![
            RunAction::InitWebgl {
                version: if conf.platform.webgl_version is WebGL1 {
                    1
                } else {
                    2
                },
            },
            RunAction::SetupCanvasSize { high_dpi: conf.high_dpi },
            RunAction::MeasureCanvas,
            RunAction::BuildHandler,
            RunAction::RunAnimationLoop { blocking: conf.platform.blocking_event_loop },
            RunAction::Finish,
        ].take(events.len() as int),
{
    let n = events.len();
    if n > 1 {
        assert(events[1] is WebglReady);
    }
    if n > 2 {
        assert(events[2] is CanvasReady);
    }
    if n > 3 {
        assert(events[3] is Measured);
    }
    if n > 4 {
        assert(events[4] is HandlerBuilt);
    }
    if n > 5 {
        assert(events[5] is LoopStarted);
    }
    if n > 6 {
        assert(reports(events[6], crate::startup::run_action(conf, events[5])));
    }
}

/// The stage after an application was started.
pub open spec fn started<H>(
    stage: StageView<H>,
    conf: Conf,
    width: i32,
    height: i32,
    dpi_scale: crate::event::FloatBits,
    handler: H,
) -> StageView<H> {
    crate::startup::run_stage(
        crate::startup::run_stage(stage, conf, RunEvent::Measured { width, height, dpi_scale }),
        conf,
        RunEvent::HandlerBuilt(handler),
    )
}

/// Once an application was started, its handler waits for events, and the canvas is known as it
/// was measured, with no dropped file.
pub proof fn start_makes_ready<H>(
    stage: StageView<H>,
    conf: Conf,
    width: i32,
    height: i32,
    dpi_scale: crate::event::FloatBits,
    handler: H,
)
    ensures
        ({
            let next = started(stage, conf, width, height, dpi_scale, handler);
            &&& next.handler == HandlerSlot::Idle(handler)
            &&& next.display == Some(
                DisplayView {
                    screen_width: width,
                    screen_height: height,
                    dpi_scale,
                    blocking_event_loop: conf.platform.blocking_event_loop,
                    dropped_files: DroppedFilesView::none(),
                },
            )
            &&& next.deferred == stage.deferred
        }),
{
}

/// Files that are handed over one after another, each with its path and contents.
pub open spec fn files_added<H>(stage: StageView<H>, files: Seq<(Seq<char>, Seq<u8>)>) -> StageView<
    H,
>
    decreases files.len(),
{
    if files.len() == 0 {
        stage
    } else {
        crate::stage::file_added(
            files_added(stage, files.drop_last()),
            files.last().0,
            files.last().1,
        )
    }
}

/// After a drop the files of that drop are known and no others, in the order in which they were
/// handed over, each with its own contents.
pub proof fn drop_replaces_the_files<H>(stage: StageView<H>, files: Seq<(Seq<char>, Seq<u8>)>)
    ensures
        ({
            let next = files_added(crate::stage::files_forgotten(stage), files);
            next.display matches Some(display) && display.dropped_files.wf()
                && display.dropped_files == (DroppedFilesView {
                paths: files.map_values(|file: (Seq<char>, Seq<u8>)| file.0),
                bytes: files.map_values(|file: (Seq<char>, Seq<u8>)| file.1),
            })
        }),
    decreases files.len(),
{
    let paths = files.map_values(|file: (Seq<char>, Seq<u8>)| file.0);
    let bytes = files.map_values(|file: (Seq<char>, Seq<u8>)| file.1);
    if files.len() > 0 {
        let before = files.drop_last();
        drop_replaces_the_files(stage, before);
        assert(paths =~= before.map_values(|file: (Seq<char>, Seq<u8>)| file.0).push(
            files.last().0,
        ));
        assert(bytes =~= before.map_values(|file: (Seq<char>, Seq<u8>)| file.1).push(
            files.last().1,
        ));
    } else {
        assert(paths =~= Seq::empty());
        assert(bytes =~= Seq::empty());
    }
}

} // verus!
