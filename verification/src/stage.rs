use std::collections::VecDeque;
use vstd::prelude::*;

use crate::clipboard::Clipboard;
use crate::cursor::Cursor;
use crate::display::{DisplayData, DisplayView, DroppedFilesView};
use crate::event::DeferredEvent;
use crate::handler::{dispatch_deferred_event, EventHandler};

verus! {

/// Where the event handler is.
pub enum HandlerSlot<H> {
    /// There is none yet.
    Empty,
    /// It waits for the next event.
    Idle(H),
    /// It is running.
    Borrowed,
}

/// All that the backend keeps between two calls of the browser.
pub struct Stage<H> {
    pub handler: HandlerSlot<H>,
    /// The events that fired while the handler was running, oldest first.
    pub deferred: VecDeque<DeferredEvent>,
    /// Known once the canvas was measured.
    pub display: Option<DisplayData>,
    pub cursor: Cursor,
    pub clipboard: Clipboard,
}

/// A stage, with its collections as sequences.
#[verifier::ext_equal]
pub struct StageView<H> {
    pub handler: HandlerSlot<H>,
    pub deferred: Seq<DeferredEvent>,
    pub display: Option<DisplayView>,
    pub cursor: Cursor,
    pub clipboard: Option<Seq<char>>,
}

impl<H> View for Stage<H> {
    type V = StageView<H>;

    open spec fn view(&self) -> StageView<H> {
        StageView {
            handler: self.handler,
            deferred: self.deferred@,
            display: match self.display {
                Some(display) => Some(display@),
                None => None,
            },
            cursor: self.cursor,
            clipboard: self.clipboard@,
        }
    }
}

impl<H> Stage<H> {
    /// The stage before the application is run.
    pub fn new() -> (stage: Self)
        ensures
            stage@ == (StageView::<H> {
                handler: HandlerSlot::Empty,
                deferred: Seq::empty(),
                display: None,
                cursor: crate::cursor::first_cursor(),
                clipboard: None,
            }),
    {
        Stage {
            handler: HandlerSlot::Empty,
            deferred: VecDeque::new(),
            display: None,
            cursor: Cursor::default(),
            clipboard: Clipboard::new(),
        }
    }
}

/// What becomes of an event when it fires.
pub enum Arrival<H> {
    /// The handler is to be told at once, and is given back afterwards.
    Run { handler: H, event: DeferredEvent },
    /// There is no handler to tell.
    NoHandler,
    /// The handler is told at the start of the next frame.
    Deferred,
}

impl<H> Arrival<H> {
    /// Whether the event was not deferred.
    pub fn is_immediate(&self) -> (immediate: bool)
        ensures
            immediate == !(self is Deferred),
    {
        match self {
            Arrival::Deferred => false,
            _ => true,
        }
    }
}

impl<H: EventHandler> Arrival<H> {
    /// Tell the handler, if it is to be told at once, and hand it on to be given back.
    pub fn deliver(self) -> (told: Option<H>)
        ensures
            match self {
                Arrival::Run { handler, event } => told is Some && told->0.calls()
                    == handler.calls().push(crate::handler::call_for(event)),
                _ => told is None,
            },
    {
        match self {
            Arrival::Run { handler, event } => {
                let mut handler = handler;
                dispatch_deferred_event(&mut handler, event);
                Some(handler)
            },
            _ => None,
        }
    }
}

/// The stage while the handler is out.
pub open spec fn lent<H>(stage: StageView<H>) -> StageView<H> {
    StageView { handler: HandlerSlot::Borrowed, ..stage }
}

/// The stage with the handler in its place.
pub open spec fn with_handler<H>(stage: StageView<H>, handler: H) -> StageView<H> {
    StageView { handler: HandlerSlot::Idle(handler), ..stage }
}

/// The stage without any deferred event.
pub open spec fn drained<H>(stage: StageView<H>) -> StageView<H> {
    StageView { deferred: Seq::empty(), ..stage }
}

/// The stage with another size of the canvas.
pub open spec fn resized<H>(stage: StageView<H>, width: i32, height: i32) -> StageView<H> {
    let display = DisplayView {
        screen_width: width,
        screen_height: height,
        ..stage.display->0
    };
    StageView { display: Some(display), ..stage }
}

/// The stage without any dropped file.
pub open spec fn files_forgotten<H>(stage: StageView<H>) -> StageView<H> {
    let display = DisplayView { dropped_files: DroppedFilesView::none(), ..stage.display->0 };
    StageView { display: Some(display), ..stage }
}

/// The stage with one more dropped file.
pub open spec fn file_added<H>(stage: StageView<H>, path: Seq<char>, bytes: Seq<u8>) -> StageView<
    H,
> {
    let files = stage.display->0.dropped_files.with(path, bytes);
    StageView { display: Some(DisplayView { dropped_files: files, ..stage.display->0 }), ..stage }
}

/// What an event does to the stage, and what becomes of the event.
pub open spec fn arrival<H>(stage: StageView<H>, event: DeferredEvent) -> (
    StageView<H>,
    Arrival<H>,
) {
    match stage.handler {
        HandlerSlot::Empty => (stage, Arrival::NoHandler),
        HandlerSlot::Idle(handler) => (lent(stage), Arrival::Run { handler, event }),
        HandlerSlot::Borrowed => (
            StageView { deferred: stage.deferred.push(event), ..stage },
            Arrival::Deferred,
        ),
    }
}

/// Lend the event handler, for it to run. No one else can have it until it is given back.
pub fn tl_event_handler<H>(stage: &mut Stage<H>) -> (handler: H)
    requires
        old(stage).handler is Idle,
    ensures
        old(stage).handler == HandlerSlot::Idle(handler),
        final(stage)@ == lent(old(stage)@),
{
    let mut slot = HandlerSlot::Borrowed;
    std::mem::swap(&mut stage.handler, &mut slot);
    match slot {
        HandlerSlot::Idle(handler) => handler,
        _ => vstd::pervasive::unreached(),
    }
}

/// Give the event handler back when it has run.
pub fn return_handler<H>(stage: &mut Stage<H>, handler: H)
    requires
        old(stage).handler is Borrowed,
    ensures
        final(stage)@ == with_handler(old(stage)@, handler),
{
    stage.handler = HandlerSlot::Idle(handler);
}

/// Have the event handler run with an event, or defer the event if the handler is already running.
pub fn try_event_handler_or_defer<H>(stage: &mut Stage<H>, event: DeferredEvent) -> (res: Arrival<H>)
    ensures
        final(stage)@ == arrival(old(stage)@, event).0,
        res == arrival(old(stage)@, event).1,
{
    match &stage.handler {
        HandlerSlot::Empty => Arrival::NoHandler,
        HandlerSlot::Idle(_) => {
            let handler = tl_event_handler(stage);
            Arrival::Run { handler, event }
        },
        HandlerSlot::Borrowed => {
            stage.deferred.push_back(event);
            Arrival::Deferred
        },
    }
}

/// What happened since the last step of a drain.
pub enum Drain<H> {
    /// The deferred events are to be processed.
    Begin,
    /// The handler was told of an event, and is given back; these are still to be delivered.
    Delivered { handler: H, rest: VecDeque<DeferredEvent> },
}

/// What a drain wants done next.
pub enum DrainStep<H> {
    /// Tell the handler of an event; the rest comes after it.
    Deliver { handler: H, event: DeferredEvent, rest: VecDeque<DeferredEvent> },
    /// Nothing: all events were delivered.
    Drained,
}

impl<H> Drain<H> {
    /// The events that the drain still has to deliver.
    pub open spec fn events(self, stage: StageView<H>) -> Seq<DeferredEvent> {
        match self {
            Drain::Begin => stage.deferred,
            Drain::Delivered { rest, .. } => rest@,
        }
    }

    /// The stage before the next event is delivered: those that were deferred were taken, and the
    /// handler is back.
    pub open spec fn stage(self, stage: StageView<H>) -> StageView<H> {
        match self {
            Drain::Begin => drained(stage),
            Drain::Delivered { handler, .. } => with_handler(stage, handler),
        }
    }

    /// Whether the drain can go on: a handler is given back only by the one that has it, and there
    /// is one to be told where there is an event.
    pub open spec fn can_go_on(self, stage: StageView<H>) -> bool {
        match self {
            Drain::Begin => stage.deferred.len() > 0 ==> stage.handler is Idle,
            Drain::Delivered { .. } => stage.handler is Borrowed,
        }
    }
}

/// Process all deferred events, one with each step. The events are those that were deferred when
/// the drain began; one that fires later waits for the next drain.
pub fn drain_deferred_events<H>(stage: &mut Stage<H>, drain: Drain<H>) -> (step: DrainStep<H>)
    requires
        drain.can_go_on(old(stage)@),
    ensures
        ({
            let events = drain.events(old(stage)@);
            let before = drain.stage(old(stage)@);
            match step {
                DrainStep::Deliver { handler, event, rest } => {
                    &&& events.len() > 0
                    &&& event == events[0]
                    &&& rest@ == events.skip(1)
                    &&& before.handler == HandlerSlot::Idle(handler)
                    &&& final(stage)@ == lent(before)
                },
                DrainStep::Drained => events.len() == 0 && final(stage)@ == before,
            }
        }),
{
    let mut rest = match drain {
        Drain::Begin => {
            let mut events: VecDeque<DeferredEvent> = VecDeque::new();
            std::mem::swap(&mut stage.deferred, &mut events);
            events
        },
        Drain::Delivered { handler, rest } => {
            return_handler(stage, handler);
            rest
        },
    };
    match rest.pop_front() {
        Some(event) => {
            let handler = tl_event_handler(stage);
            DrainStep::Deliver { handler, event, rest }
        },
        None => DrainStep::Drained,
    }
}

} // verus!
