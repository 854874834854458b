use wasm_stage::cursor::{CursorIcon, PageCommand, Request};
use wasm_stage::event::{DeferredEvent, FloatBits};
use wasm_stage::frame::{frame, run_handler, FrameAction, FrameEvent, FrameState, OutsideWork};
use wasm_stage::handler::HandlerCall;
use wasm_stage::input::{focus, key_press, mouse_move};
use wasm_stage::recorder::Recorder;
use wasm_stage::stage::{return_handler, tl_event_handler, HandlerSlot, Stage};
use wasm_stage::startup::{
    allocate_vec_u8, crate_version, run, Conf, Platform, RunAction, RunEvent, WebGLVersion,
};

const CONF: Conf = Conf {
    platform: Platform { webgl_version: WebGLVersion::WebGL2, blocking_event_loop: true },
    high_dpi: true,
};

const SCALE: FloatBits = FloatBits { bits: 0x40000000 };

fn started() -> Stage<Recorder> {
    let mut stage = Stage::new();
    run(&mut stage, &CONF, RunEvent::Measured { width: 64, height: 48, dpi_scale: SCALE });
    run(&mut stage, &CONF, RunEvent::HandlerBuilt(Recorder::new()));
    stage
}

/// Run a whole frame. `during` is called while the handler runs.
fn run_frame(
    stage: &mut Stage<Recorder>,
    mut requests: Vec<Request>,
    during: fn(&mut Stage<Recorder>),
) -> Vec<String> {
    let mut commands = Vec::new();
    requests.reverse();
    let (mut state, mut action) = frame(stage, FrameState::Ready, FrameEvent::Begin);
    loop {
        if matches!(stage.handler, HandlerSlot::Borrowed) {
            during(stage);
        }
        let event = match run_handler(action) {
            Ok(event) => event,
            Err(OutsideWork::Receive) => FrameEvent::Received(requests.pop()),
            Err(OutsideWork::Perform(command)) => {
                commands.push(match command {
                    PageCommand::SetCursorGrab(grab) => format!("grab {}", grab),
                    PageCommand::SetCursor(name) => format!("cursor {}", name),
                    PageCommand::SetFullscreen(full) => format!("fullscreen {}", full),
                });
                FrameEvent::Performed
            }
            Err(OutsideWork::Finish) => return commands,
        };
        (state, action) = frame(stage, state, event);
    }
}

fn quiet(_stage: &mut Stage<Recorder>) {}

fn log(stage: &Stage<Recorder>) -> Vec<HandlerCall> {
    match &stage.handler {
        HandlerSlot::Idle(recorder) => recorder.log.clone(),
        _ => panic!("the handler is not in its place"),
    }
}

#[test]
fn a_frame_with_nothing_to_do_updates_and_draws() {
    let mut stage = started();
    assert_eq!(run_frame(&mut stage, vec![], quiet), Vec::<String>::new());
    assert_eq!(log(&stage), vec![HandlerCall::Update, HandlerCall::Draw]);
}

#[test]
fn deferred_events_come_before_update_and_draw_in_order() {
    let mut stage = started();
    let handler = tl_event_handler(&mut stage);
    mouse_move(&mut stage, 1, 2);
    focus(&mut stage, false);
    mouse_move(&mut stage, 3, 4);
    return_handler(&mut stage, handler);
    run_frame(&mut stage, vec![], quiet);
    assert_eq!(
        log(&stage),
        vec![
            HandlerCall::MouseMotion { x: 1, y: 2 },
            HandlerCall::WindowMinimized,
            HandlerCall::MouseMotion { x: 3, y: 4 },
            HandlerCall::Update,
            HandlerCall::Draw,
        ]
    );
    assert!(stage.deferred.is_empty());
}

#[test]
fn events_during_a_frame_wait_for_the_next_one() {
    let mut stage = started();
    run_frame(&mut stage, vec![], |stage| {
        focus(stage, true);
    });
    assert_eq!(log(&stage), vec![HandlerCall::Update, HandlerCall::Draw]);
    assert_eq!(stage.deferred.len(), 1);
    // The event of the first frame is delivered now; one fires during the delivery and one while
    // drawing, and both wait.
    run_frame(&mut stage, vec![], |stage| {
        mouse_move(stage, 5, 6);
    });
    assert_eq!(
        log(&stage)[2..],
        [HandlerCall::WindowRestored, HandlerCall::Update, HandlerCall::Draw]
    );
    let waiting: Vec<DeferredEvent> = stage.deferred.iter().copied().collect();
    assert_eq!(
        waiting,
        vec![DeferredEvent::MouseMove { x: 5, y: 6 }, DeferredEvent::MouseMove { x: 5, y: 6 }]
    );
}

#[test]
fn requests_become_commands_before_the_frame_is_drawn() {
    let mut stage = started();
    let commands = run_frame(
        &mut stage,
        vec![
            Request::SetCursorGrab(true),
            Request::Other,
            Request::SetMouseCursor(CursorIcon::Help),
            Request::ShowMouse(false),
            Request::SetMouseCursor(CursorIcon::Text),
            Request::ShowMouse(false),
            Request::ShowMouse(true),
            Request::SetFullscreen(true),
        ],
        quiet,
    );
    assert_eq!(
        commands,
        vec!["grab true", "cursor help", "cursor none", "cursor text", "fullscreen true"]
    );
    assert_eq!(log(&stage), vec![HandlerCall::Update, HandlerCall::Draw]);
}

#[test]
fn the_steps_of_a_frame() {
    let mut stage = started();
    let handler = tl_event_handler(&mut stage);
    key_press(&mut stage, 0x61);
    return_handler(&mut stage, handler);
    let (state, action) = frame(&mut stage, FrameState::Ready, FrameEvent::Begin);
    let handler = match action {
        FrameAction::Deliver { handler, event } => {
            assert!(matches!(event, DeferredEvent::CharEvent { character: 'a', .. }));
            handler
        }
        _ => panic!("the deferred event comes first"),
    };
    let (state, action) = frame(&mut stage, state, FrameEvent::Delivered(handler));
    assert!(matches!(action, FrameAction::Receive));
    let request = Some(Request::SetFullscreen(false));
    let (state, action) = frame(&mut stage, state, FrameEvent::Received(request));
    assert!(matches!(action, FrameAction::Perform(PageCommand::SetFullscreen(false))));
    let (state, action) = frame(&mut stage, state, FrameEvent::Performed);
    assert!(matches!(action, FrameAction::Receive));
    let (state, action) = frame(&mut stage, state, FrameEvent::Received(None));
    assert!(matches!(stage.handler, HandlerSlot::Borrowed));
    let handler = match action {
        FrameAction::UpdateAndDraw(handler) => handler,
        _ => panic!("no request is left"),
    };
    let (state, action) = frame(&mut stage, state, FrameEvent::Drawn(handler));
    assert!(matches!(action, FrameAction::Finish));
    assert!(matches!(state, FrameState::Finished));
    assert!(matches!(stage.handler, HandlerSlot::Idle(_)));
}

#[test]
fn an_application_is_started_step_by_step() {
    let mut stage: Stage<Recorder> = Stage::new();
    assert_eq!(
        run(&mut stage, &CONF, RunEvent::Begin),
        RunAction::InitWebgl { version: 2 }
    );
    assert_eq!(
        run(&mut stage, &CONF, RunEvent::WebglReady),
        RunAction::SetupCanvasSize { high_dpi: true }
    );
    assert_eq!(run(&mut stage, &CONF, RunEvent::CanvasReady), RunAction::MeasureCanvas);
    assert!(stage.display.is_none());
    let measured = RunEvent::Measured { width: 64, height: 48, dpi_scale: SCALE };
    assert_eq!(run(&mut stage, &CONF, measured), RunAction::BuildHandler);
    assert!(matches!(stage.handler, HandlerSlot::Empty));
    assert_eq!(
        run(&mut stage, &CONF, RunEvent::HandlerBuilt(Recorder::new())),
        RunAction::RunAnimationLoop { blocking: true }
    );
    assert_eq!(run(&mut stage, &CONF, RunEvent::LoopStarted), RunAction::Finish);
    let display = stage.display.as_ref().unwrap();
    assert_eq!((display.screen_width, display.screen_height), (64, 48));
    assert_eq!(display.dpi_scale, SCALE);
    assert!(display.blocking_event_loop);
    assert!(display.dropped_files.paths.is_empty());
    assert!(matches!(stage.handler, HandlerSlot::Idle(_)));
}

#[test]
fn the_first_version_of_webgl_has_number_one() {
    let mut conf = CONF;
    conf.platform.webgl_version = WebGLVersion::WebGL1;
    let mut stage: Stage<Recorder> = Stage::new();
    assert_eq!(run(&mut stage, &conf, RunEvent::Begin), RunAction::InitWebgl { version: 1 });
}

#[test]
fn version_and_buffers() {
    assert_eq!(crate_version(), 2);
    assert_eq!(allocate_vec_u8(0), Vec::<u8>::new());
    assert_eq!(allocate_vec_u8(4), vec![0, 0, 0, 0]);
}
