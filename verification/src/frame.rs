use std::collections::VecDeque;
use vstd::prelude::*;

use crate::cursor::{handle_request, PageCommand, Request};
use crate::event::DeferredEvent;
use crate::handler::{dispatch_deferred_event, update_and_draw, EventHandler, HandlerCall};
use crate::stage::{
    drain_deferred_events, return_handler, tl_event_handler, Drain, DrainStep, Stage, StageView,
};

verus! {

/// How far a frame has got.
pub enum FrameState {
    /// It has not begun.
    Ready,
    /// The handler runs with a deferred event; these are still to be delivered.
    Delivering(VecDeque<DeferredEvent>),
    /// The next request of the application is asked for.
    Receiving,
    /// The page carries out a command.
    Performing,
    /// The handler updates and draws.
    Drawing,
    /// It is over.
    Finished,
}

/// How far a frame has got, with the events that are still to be delivered as a sequence.
pub enum FrameStateView {
    Ready,
    Delivering(Seq<DeferredEvent>),
    Receiving,
    Performing,
    Drawing,
    Finished,
}

impl View for FrameState {
    type V = FrameStateView;

    open spec fn view(&self) -> FrameStateView {
        match self {
            FrameState::Ready => FrameStateView::Ready,
            FrameState::Delivering(rest) => FrameStateView::Delivering(rest@),
            FrameState::Receiving => FrameStateView::Receiving,
            FrameState::Performing => FrameStateView::Performing,
            FrameState::Drawing => FrameStateView::Drawing,
            FrameState::Finished => FrameStateView::Finished,
        }
    }
}

/// What happened since the last step of a frame.
pub enum FrameEvent<H> {
    /// The browser asks for a frame.
    Begin,
    /// The handler was told of an event, and is given back.
    Delivered(H),
    /// The next request, or nothing where none is left.
    Received(Option<Request>),
    /// The page carried out a command.
    Performed,
    /// The handler updated and drew, and is given back.
    Drawn(H),
}

/// What a frame wants done next.
pub enum FrameAction<H> {
    /// Tell the handler of an event.
    Deliver { handler: H, event: DeferredEvent },
    /// Look for the next request.
    Receive,
    /// Have the page carry out a command.
    Perform(PageCommand),
    /// Let the handler update and draw.
    UpdateAndDraw(H),
    /// Nothing: the frame is over.
    Finish,
}

/// The handler of a stage that is not running.
pub open spec fn idle_handler<H>(stage: StageView<H>) -> H {
    stage.handler->Idle_0
}

/// Whether a frame that got to `state` can be told of `event`: what is reported is what was wanted
/// done, a handler is given back only by the one that has it, and it runs only if it is there and
/// not running.
pub open spec fn frame_accepts<H>(
    stage: StageView<H>,
    state: FrameStateView,
    event: FrameEvent<H>,
) -> bool {
    match (state, event) {
        (FrameStateView::Ready, FrameEvent::Begin) => stage.deferred.len() > 0
            ==> stage.handler is Idle,
        (FrameStateView::Delivering(_), FrameEvent::Delivered(_)) => stage.handler is Borrowed,
        (FrameStateView::Receiving, FrameEvent::Received(Some(_))) => true,
        (FrameStateView::Receiving, FrameEvent::Received(None)) => stage.handler is Idle,
        (FrameStateView::Performing, FrameEvent::Performed) => true,
        (FrameStateView::Drawing, FrameEvent::Drawn(_)) => stage.handler is Borrowed,
        _ => false,
    }
}

/// The step that delivers the first of `events`, or goes on to the requests if there is none.
pub open spec fn deliver_first<H>(stage: StageView<H>, events: Seq<DeferredEvent>) -> (
    StageView<H>,
    FrameStateView,
    FrameAction<H>,
) {
    if events.len() > 0 {
        (
            crate::stage::lent(stage),
            FrameStateView::Delivering(events.skip(1)),
            FrameAction::Deliver { handler: idle_handler(stage), event: events[0] },
        )
    } else {
        (stage, FrameStateView::Receiving, FrameAction::Receive)
    }
}

/// One step of a frame: what becomes of the stage, how far the frame got, and what it wants done.
///
/// First the events are delivered that were deferred when the frame began, then the requests of
/// the application are taken up, then the handler updates and draws.
pub open spec fn frame_step<H>(
    stage: StageView<H>,
    state: FrameStateView,
    event: FrameEvent<H>,
) -> (StageView<H>, FrameStateView, FrameAction<H>) {
    match (state, event) {
        (FrameStateView::Ready, FrameEvent::Begin) => deliver_first(
            crate::stage::drained(stage),
            stage.deferred,
        ),
        (FrameStateView::Delivering(events), FrameEvent::Delivered(handler)) => deliver_first(
            crate::stage::with_handler(stage, handler),
            events,
        ),
        (FrameStateView::Receiving, FrameEvent::Received(Some(request))) => {
            let cursor = crate::cursor::cursor_after(stage.cursor, request);
            let stage_after = StageView { cursor, ..stage };
            match crate::cursor::command_for(stage.cursor, request) {
                Some(command) => (
                    stage_after,
                    FrameStateView::Performing,
                    FrameAction::Perform(command),
                ),
                None => (stage_after, FrameStateView::Receiving, FrameAction::Receive),
            }
        },
        (FrameStateView::Receiving, FrameEvent::Received(None)) => (
            crate::stage::lent(stage),
            FrameStateView::Drawing,
            FrameAction::UpdateAndDraw(idle_handler(stage)),
        ),
        (FrameStateView::Performing, FrameEvent::Performed) => (
            stage,
            FrameStateView::Receiving,
            FrameAction::Receive,
        ),
        (FrameStateView::Drawing, FrameEvent::Drawn(handler)) => (
            crate::stage::with_handler(stage, handler),
            FrameStateView::Finished,
            FrameAction::Finish,
        ),
        _ => (stage, state, FrameAction::Finish),
    }
}

/// Go on with the deferred events of a frame, and with the requests when all were delivered.
fn deliver_next<H>(stage: &mut Stage<H>, drain: Drain<H>) -> (res: (FrameState, FrameAction<H>))
    requires
        drain.can_go_on(old(stage)@),
    ensures
        (final(stage)@, res.0@, res.1) == deliver_first(
            drain.stage(old(stage)@),
            drain.events(old(stage)@),
        ),
{
    match drain_deferred_events(stage, drain) {
        DrainStep::Deliver { handler, event, rest } => (
            FrameState::Delivering(rest),
            FrameAction::Deliver { handler, event },
        ),
        DrainStep::Drained => (FrameState::Receiving, FrameAction::Receive),
    }
}

/// Go on with a frame, after what happened since the last step.
pub fn frame<H>(stage: &mut Stage<H>, state: FrameState, event: FrameEvent<H>) -> (res: (
    FrameState,
    FrameAction<H>,
))
    requires
        frame_accepts(old(stage)@, state@, event),
    ensures
        (final(stage)@, res.0@, res.1) == frame_step(old(stage)@, state@, event),
{
    match (state, event) {
        (FrameState::Ready, FrameEvent::Begin) => {
            deliver_next(stage, Drain::Begin)
        },
        (FrameState::Delivering(rest), FrameEvent::Delivered(handler)) => {
            deliver_next(stage, Drain::Delivered { handler, rest })
        },
        (FrameState::Receiving, FrameEvent::Received(Some(request))) => {
            match handle_request(&mut stage.cursor, request) {
                Some(command) => (FrameState::Performing, FrameAction::Perform(command)),
                None => (FrameState::Receiving, FrameAction::Receive),
            }
        },
        (FrameState::Receiving, FrameEvent::Received(None)) => {
            let handler = tl_event_handler(stage);
            (FrameState::Drawing, FrameAction::UpdateAndDraw(handler))
        },
        (FrameState::Performing, FrameEvent::Performed) => {
            (FrameState::Receiving, FrameAction::Receive)
        },
        (FrameState::Drawing, FrameEvent::Drawn(handler)) => {
            return_handler(stage, handler);
            (FrameState::Finished, FrameAction::Finish)
        },
        _ => vstd::pervasive::unreached(),
    }
}

/// What the page or the application has to do for a frame, besides running the handler.
pub enum OutsideWork {
    Receive,
    Perform(PageCommand),
    Finish,
}

/// Run the handler if that is what a frame wants done; otherwise name the work to be done outside.
pub fn run_handler<H: EventHandler>(action: FrameAction<H>) -> (res: Result<
    FrameEvent<H>,
    OutsideWork,
>)
    ensures
        match action {
            FrameAction::Deliver { handler, event } => res matches Ok(FrameEvent::Delivered(told))
                && told.calls() == handler.calls().push(crate::handler::call_for(event)),
            FrameAction::UpdateAndDraw(handler) => res matches Ok(FrameEvent::Drawn(drawn))
                && drawn.calls() == handler.calls().push(HandlerCall::Update).push(
                HandlerCall::Draw,
            ),
            FrameAction::Receive => res == Err::<FrameEvent<H>, _>(OutsideWork::Receive),
            FrameAction::Perform(command) => res == Err::<FrameEvent<H>, _>(
                OutsideWork::Perform(command),
            ),
            FrameAction::Finish => res == Err::<FrameEvent<H>, _>(OutsideWork::Finish),
        },
{
    match action {
        FrameAction::Deliver { handler, event } => {
            let mut handler = handler;
            dispatch_deferred_event(&mut handler, event);
            Ok(FrameEvent::Delivered(handler))
        },
        FrameAction::UpdateAndDraw(handler) => {
            let mut handler = handler;
            update_and_draw(&mut handler);
            Ok(FrameEvent::Drawn(handler))
        },
        FrameAction::Receive => Err(OutsideWork::Receive),
        FrameAction::Perform(command) => Err(OutsideWork::Perform(command)),
        FrameAction::Finish => Err(OutsideWork::Finish),
    }
}

} // verus!
