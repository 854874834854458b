use wasm_stage::event::{DeferredEvent, FloatBits, KeyCode, KeyMods, MouseButton, TouchPhase};
use wasm_stage::handler::{dispatch_deferred_event, update_and_draw, HandlerCall};
use wasm_stage::input::{
    focus, key_down, key_press, key_up, mouse_down, mouse_move, mouse_up, mouse_wheel,
    on_file_dropped, on_files_dropped_finish, on_files_dropped_start, raw_mouse_move, resize,
    touch,
};
use wasm_stage::recorder::Recorder;
use wasm_stage::stage::{
    drain_deferred_events, return_handler, tl_event_handler, try_event_handler_or_defer, Arrival,
    Drain, DrainStep, HandlerSlot, Stage,
};
use wasm_stage::startup::{run, Conf, Platform, RunEvent, WebGLVersion};

fn bits(value: f32) -> FloatBits {
    FloatBits { bits: value.to_bits() }
}

/// A stage with a measured canvas and a handler in its place.
fn started() -> Stage<Recorder> {
    let conf = Conf {
        platform: Platform { webgl_version: WebGLVersion::WebGL1, blocking_event_loop: false },
        high_dpi: false,
    };
    let mut stage = Stage::new();
    run(&mut stage, &conf, RunEvent::Measured { width: 800, height: 600, dpi_scale: bits(1.0) });
    run(&mut stage, &conf, RunEvent::HandlerBuilt(Recorder::new()));
    stage
}

/// A stage whose handler is running.
fn busy() -> Stage<Recorder> {
    let mut stage = started();
    tl_event_handler(&mut stage);
    stage
}

/// Deliver an event that has to run at once, and give the handler back.
fn run_at_once(stage: &mut Stage<Recorder>, arrival: Arrival<Recorder>) {
    assert!(arrival.is_immediate());
    let handler = arrival.deliver().expect("the handler is to be told at once");
    return_handler(stage, handler);
}

fn log(stage: &Stage<Recorder>) -> Vec<HandlerCall> {
    match &stage.handler {
        HandlerSlot::Idle(recorder) => recorder.log.clone(),
        _ => panic!("the handler is not in its place"),
    }
}

fn queue(stage: &Stage<Recorder>) -> Vec<DeferredEvent> {
    stage.deferred.iter().copied().collect()
}

#[test]
fn events_run_at_once_when_the_handler_is_idle() {
    let mut stage = started();
    let arrival = mouse_move(&mut stage, 3, -4);
    assert!(matches!(stage.handler, HandlerSlot::Borrowed));
    run_at_once(&mut stage, arrival);
    let arrival = raw_mouse_move(&mut stage, 5, 6);
    run_at_once(&mut stage, arrival);
    let arrival = mouse_down(&mut stage, 1, 2, 0);
    run_at_once(&mut stage, arrival);
    let arrival = mouse_up(&mut stage, 7, 8, 2);
    run_at_once(&mut stage, arrival);
    let arrival = mouse_wheel(&mut stage, -1, 120);
    run_at_once(&mut stage, arrival);
    let arrival = key_down(&mut stage, 65, 3, true);
    run_at_once(&mut stage, arrival);
    let arrival = key_up(&mut stage, 65, 0);
    run_at_once(&mut stage, arrival);
    let arrival = touch(&mut stage, 10, u32::MAX, bits(1.5), bits(-2.25));
    run_at_once(&mut stage, arrival);
    let arrival = focus(&mut stage, true);
    run_at_once(&mut stage, arrival);
    let arrival = focus(&mut stage, false);
    run_at_once(&mut stage, arrival);
    let arrival = on_files_dropped_finish(&mut stage);
    run_at_once(&mut stage, arrival);
    let arrival = resize(&mut stage, 1024, 768);
    run_at_once(&mut stage, arrival);
    assert_eq!(
        log(&stage),
        vec![
            HandlerCall::MouseMotion { x: 3, y: -4 },
            HandlerCall::RawMouseMotion { dx: 5, dy: 6 },
            HandlerCall::MouseButtonDown { btn: MouseButton { code: 0 }, x: 1, y: 2 },
            HandlerCall::MouseButtonUp { btn: MouseButton { code: 2 }, x: 7, y: 8 },
            HandlerCall::MouseWheel { dx: -1, dy: 120 },
            HandlerCall::KeyDown {
                key: KeyCode { code: 65 },
                mods: KeyMods::Reported { mask: 3 },
                repeat: true,
            },
            HandlerCall::KeyUp {
                key: KeyCode { code: 65 },
                mods: KeyMods::Reported { mask: 0 },
            },
            HandlerCall::Touch {
                phase: TouchPhase { code: 10 },
                id: 4294967295,
                x: bits(1.5),
                y: bits(-2.25),
            },
            HandlerCall::WindowRestored,
            HandlerCall::WindowMinimized,
            HandlerCall::FilesDropped,
            HandlerCall::Resize { width: 1024, height: 768 },
        ]
    );
    assert!(stage.deferred.is_empty());
}

#[test]
fn events_are_deferred_in_order_while_the_handler_runs() {
    let mut stage = busy();
    assert!(matches!(mouse_move(&mut stage, 1, 2), Arrival::Deferred));
    assert!(!key_down(&mut stage, 13, 1, false).is_immediate());
    assert!(!touch(&mut stage, 11, 7, bits(0.5), bits(0.0)).is_immediate());
    assert!(!focus(&mut stage, false).is_immediate());
    assert!(!on_files_dropped_finish(&mut stage).is_immediate());
    assert!(mouse_up(&mut stage, 9, 9, 1).deliver().is_none());
    assert!(matches!(stage.handler, HandlerSlot::Borrowed));
    let expected = vec![
        DeferredEvent::MouseMove { x: 1, y: 2 },
        DeferredEvent::KeyDown {
            key: KeyCode { code: 13 },
            mods: KeyMods::Reported { mask: 1 },
            repeat: false,
        },
        DeferredEvent::Touch { phase: TouchPhase { code: 11 }, id: 7, x: bits(0.5), y: bits(0.0) },
        DeferredEvent::Focus { has_focus: false },
        DeferredEvent::FilesDropped,
        DeferredEvent::MouseUp { btn: MouseButton { code: 1 }, x: 9, y: 9 },
    ];
    assert_eq!(queue(&stage), expected);
}

#[test]
fn a_drain_delivers_one_event_with_each_step() {
    let mut stage = started();
    let handler = tl_event_handler(&mut stage);
    mouse_move(&mut stage, 1, 2);
    focus(&mut stage, true);
    return_handler(&mut stage, handler);
    let mut delivered = Vec::new();
    let mut drain = Drain::Begin;
    loop {
        match drain_deferred_events(&mut stage, drain) {
            DrainStep::Deliver { mut handler, event, rest } => {
                assert!(matches!(stage.handler, HandlerSlot::Borrowed));
                // Fires while the handler runs, and is not part of this drain.
                assert!(!on_files_dropped_finish(&mut stage).is_immediate());
                dispatch_deferred_event(&mut handler, event);
                delivered.push(event);
                drain = Drain::Delivered { handler, rest };
            }
            DrainStep::Drained => break,
        }
    }
    assert_eq!(
        delivered,
        vec![
            DeferredEvent::MouseMove { x: 1, y: 2 },
            DeferredEvent::Focus { has_focus: true },
        ]
    );
    assert_eq!(
        log(&stage),
        vec![HandlerCall::MouseMotion { x: 1, y: 2 }, HandlerCall::WindowRestored]
    );
    assert_eq!(queue(&stage), vec![DeferredEvent::FilesDropped, DeferredEvent::FilesDropped]);
}

#[test]
fn a_drain_of_nothing_needs_no_handler() {
    let mut stage: Stage<Recorder> = Stage::new();
    assert!(matches!(drain_deferred_events(&mut stage, Drain::Begin), DrainStep::Drained));
    let mut stage = busy();
    assert!(matches!(drain_deferred_events(&mut stage, Drain::Begin), DrainStep::Drained));
}

#[test]
fn events_without_a_handler_are_dropped() {
    let mut stage: Stage<Recorder> = Stage::new();
    let arrival = mouse_wheel(&mut stage, 0, 1);
    assert!(matches!(arrival, Arrival::NoHandler));
    assert!(arrival.is_immediate());
    assert!(arrival.deliver().is_none());
    assert!(stage.deferred.is_empty());
    assert!(matches!(stage.handler, HandlerSlot::Empty));
}

#[test]
fn an_event_between_frames_overtakes_the_deferred_ones() {
    let mut stage = started();
    let handler = tl_event_handler(&mut stage);
    assert!(!mouse_move(&mut stage, 1, 1).is_immediate());
    return_handler(&mut stage, handler);
    let arrival = mouse_move(&mut stage, 2, 2);
    run_at_once(&mut stage, arrival);
    assert_eq!(log(&stage), vec![HandlerCall::MouseMotion { x: 2, y: 2 }]);
    assert_eq!(queue(&stage), vec![DeferredEvent::MouseMove { x: 1, y: 1 }]);
}

#[test]
fn an_event_during_an_immediate_call_is_deferred() {
    let mut stage = started();
    let outer = mouse_down(&mut stage, 1, 2, 0);
    assert!(!raw_mouse_move(&mut stage, 3, 4).is_immediate());
    run_at_once(&mut stage, outer);
    assert_eq!(queue(&stage), vec![DeferredEvent::RawMouseMove { dx: 3, dy: 4 }]);
}

#[test]
fn typed_characters_have_no_modifiers_and_do_not_repeat() {
    let mut stage = started();
    let arrival = key_press(&mut stage, 0x1F600).expect("a character");
    run_at_once(&mut stage, arrival);
    assert_eq!(
        log(&stage),
        vec![HandlerCall::Char {
            character: '\u{1F600}',
            mods: KeyMods::Unmodified,
            repeat: false,
        }]
    );
}

#[test]
fn typed_numbers_that_are_no_character_are_passed_over() {
    let mut stage = started();
    for key in [0xD800, 0xDFFF, 0x110000, u32::MAX] {
        assert!(key_press(&mut stage, key).is_none());
    }
    assert_eq!(log(&stage), vec![]);
    let mut stage = busy();
    for key in [0, 0x41, 0xD7FF, 0xE000, 0x10FFFF] {
        assert!(!key_press(&mut stage, key).expect("a character").is_immediate());
    }
    let typed: Vec<char> = stage
        .deferred
        .iter()
        .map(|event| match event {
            DeferredEvent::CharEvent { character, .. } => *character,
            _ => panic!("not a character"),
        })
        .collect();
    assert_eq!(typed, vec!['\0', 'A', '\u{D7FF}', '\u{E000}', '\u{10FFFF}']);
}

#[test]
fn a_new_size_is_known_at_once_though_the_event_is_deferred() {
    let mut stage = busy();
    assert!(!resize(&mut stage, 320, 200).is_immediate());
    let display = stage.display.as_ref().unwrap();
    assert_eq!((display.screen_width, display.screen_height), (320, 200));
    assert_eq!(display.dpi_scale, bits(1.0));
    assert_eq!(queue(&stage), vec![DeferredEvent::Resize { width: 320, height: 200 }]);
}

#[test]
fn dropped_files_are_those_of_the_last_drop() {
    let mut stage = started();
    on_files_dropped_start(&mut stage);
    on_file_dropped(&mut stage, "old.txt".to_string(), vec![9]);
    on_files_dropped_start(&mut stage);
    on_file_dropped(&mut stage, "a.txt".to_string(), vec![1, 2, 3]);
    on_file_dropped(&mut stage, "b/c.bin".to_string(), vec![]);
    let files = &stage.display.as_ref().unwrap().dropped_files;
    assert_eq!(files.paths, vec!["a.txt".to_string(), "b/c.bin".to_string()]);
    assert_eq!(files.bytes, vec![vec![1, 2, 3], vec![]]);
}

#[test]
fn dispatch_makes_one_call_for_each_event() {
    let mut recorder = Recorder::new();
    dispatch_deferred_event(&mut recorder, DeferredEvent::Focus { has_focus: true });
    dispatch_deferred_event(&mut recorder, DeferredEvent::Resize { width: 1, height: 2 });
    dispatch_deferred_event(&mut recorder, DeferredEvent::FilesDropped);
    update_and_draw(&mut recorder);
    assert_eq!(
        recorder.log,
        vec![
            HandlerCall::WindowRestored,
            HandlerCall::Resize { width: 1, height: 2 },
            HandlerCall::FilesDropped,
            HandlerCall::Update,
            HandlerCall::Draw,
        ]
    );
}

#[test]
fn the_handler_is_lent_and_given_back() {
    let mut stage = started();
    let handler = tl_event_handler(&mut stage);
    assert!(matches!(stage.handler, HandlerSlot::Borrowed));
    let event = DeferredEvent::FilesDropped;
    assert!(!try_event_handler_or_defer(&mut stage, event).is_immediate());
    return_handler(&mut stage, handler);
    assert!(matches!(stage.handler, HandlerSlot::Idle(_)));
    assert!(matches!(try_event_handler_or_defer(&mut stage, event), Arrival::Run { .. }));
}
