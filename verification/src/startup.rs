use vstd::prelude::*;

use crate::display::{DisplayData, DisplayView, DroppedFiles, DroppedFilesView};
use crate::event::FloatBits;
use crate::stage::{HandlerSlot, Stage, StageView};

verus! {

/// The versions of WebGL that a page can be asked for.
#[derive(Clone, Copy, Debug, PartialEq, Eq, Structural)]
pub enum WebGLVersion {
    WebGL1,
    WebGL2,
}

/// The part of the configuration that depends on the platform.
#[derive(Clone, Copy, Debug, PartialEq, Eq, Structural)]
pub struct Platform {
    pub webgl_version: WebGLVersion,
    pub blocking_event_loop: bool,
}

/// What an application is run with.
#[derive(Clone, Copy, Debug, PartialEq, Eq, Structural)]
pub struct Conf {
    pub platform: Platform,
    pub high_dpi: bool,
}

/// What happened since the last step of starting an application.
pub enum RunEvent<H> {
    /// The application is to be run.
    Begin,
    /// WebGL was set up.
    WebglReady,
    /// The canvas got its size.
    CanvasReady,
    /// The canvas was measured.
    Measured { width: i32, height: i32, dpi_scale: FloatBits },
    /// The application made its event handler.
    HandlerBuilt(H),
    /// The page calls for frames from now on.
    LoopStarted,
}

/// What starting an application wants done next.
#[derive(Clone, Copy, Debug, PartialEq, Eq, Structural)]
pub enum RunAction {
    InitWebgl { version: i32 },
    SetupCanvasSize { high_dpi: bool },
    MeasureCanvas,
    BuildHandler,
    RunAnimationLoop { blocking: bool },
    Finish,
}

/// The number by which the page knows a version of WebGL.
pub open spec fn version_number(version: WebGLVersion) -> i32 {
    match version {
        WebGLVersion::WebGL1 => 1,
        WebGLVersion::WebGL2 => 2,
    }
}

/// What starting an application wants done after `event`.
pub open spec fn run_action<H>(conf: Conf, event: RunEvent<H>) -> RunAction {
    match event {
        RunEvent::Begin => RunAction::InitWebgl {
            version: version_number(conf.platform.webgl_version),
        },
        RunEvent::WebglReady => RunAction::SetupCanvasSize { high_dpi: conf.high_dpi },
        RunEvent::CanvasReady => RunAction::MeasureCanvas,
        RunEvent::Measured { .. } => RunAction::BuildHandler,
        RunEvent::HandlerBuilt(_) => RunAction::RunAnimationLoop {
            blocking: conf.platform.blocking_event_loop,
        },
        RunEvent::LoopStarted => RunAction::Finish,
    }
}

/// What becomes of the stage with `event`.
pub open spec fn run_stage<H>(stage: StageView<H>, conf: Conf, event: RunEvent<H>) -> StageView<
    H,
> {
    match event {
        RunEvent::Measured { width, height, dpi_scale } => StageView {
            display: Some(
                DisplayView {
                    screen_width: width,
                    screen_height: height,
                    dpi_scale,
                    blocking_event_loop: conf.platform.blocking_event_loop,
                    dropped_files: DroppedFilesView::none(),
                },
            ),
            ..stage
        },
        RunEvent::HandlerBuilt(handler) => crate::stage::with_handler(stage, handler),
        _ => stage,
    }
}

/// Go on with starting an application, after what happened since the last step.
pub fn run<H>(stage: &mut Stage<H>, conf: &Conf, event: RunEvent<H>) -> (action: RunAction)
    requires
        event is HandlerBuilt ==> !(old(stage).handler is Borrowed),
    ensures
        final(stage)@ == run_stage(old(stage)@, *conf, event),
        action == run_action(*conf, event),
{
    match event {
        RunEvent::Begin => {
            let version: i32 = match conf.platform.webgl_version {
                WebGLVersion::WebGL1 => 1,
                WebGLVersion::WebGL2 => 2,
            };
            RunAction::InitWebgl { version }
        },
        RunEvent::WebglReady => RunAction::SetupCanvasSize { high_dpi: conf.high_dpi },
        RunEvent::CanvasReady => RunAction::MeasureCanvas,
        RunEvent::Measured { width, height, dpi_scale } => {
            stage.display = Some(
                DisplayData {
                    screen_width: width,
                    screen_height: height,
                    dpi_scale,
                    blocking_event_loop: conf.platform.blocking_event_loop,
                    dropped_files: DroppedFiles::default(),
                },
            );
            RunAction::BuildHandler
        },
        RunEvent::HandlerBuilt(handler) => {
            stage.handler = HandlerSlot::Idle(handler);
            RunAction::RunAnimationLoop { blocking: conf.platform.blocking_event_loop }
        },
        RunEvent::LoopStarted => RunAction::Finish,
    }
}

/// The version of the page's script that goes with this library.
pub fn crate_version() -> (version: u32)
    ensures
        version == 2,
{
    2
}

/// A buffer of zero bytes, for the page to write into.
pub fn allocate_vec_u8(len: usize) -> (buffer: Vec<u8>)
    requires
        len <= isize::MAX,
    ensures
        buffer@ == Seq::new(len as nat, |i: int| 0u8),
{
    let buffer: Vec<u8> = vec![0u8; len];
    assert(buffer@ =~= Seq::new(len as nat, |i: int| 0u8));
    buffer
}

} // verus!
