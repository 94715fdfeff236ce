//! The startup transition and the exit operation's observable values.
//!
//! Startup is a single transition from uninitialized to running. The
//! functions here fix every value that transition hands to the host
//! framework: the rendering-compatibility environment variable, the names
//! under which the operations are registered, the identifier of the main
//! window, and the best-effort requests issued against it. The host glue
//! performs the environment write, the registration and the window calls;
//! it decides nothing itself.

use vstd::prelude::*;

verus! {

/// One step of the startup transition, in the model of the whole sequence
/// given by [`startup_order`].
#[derive(Clone, Copy, Debug, PartialEq, Eq, Structural)]
pub enum StartupStep {
    /// Set the rendering-compatibility environment variable.
    SetRenderCompatEnv,
    /// Register the operations with the host's invocation dispatcher.
    RegisterOperations,
    /// Look the main window up and issue the best-effort requests against it.
    ConfigureMainWindow,
    /// Hand control to the host framework's blocking run loop.
    EnterRunLoop,
}

/// A best-effort request issued against the main window during startup.
/// A refusal by the platform is swallowed, never propagated.
#[derive(Clone, Copy, Debug, PartialEq, Eq, Structural)]
pub enum WindowRequest {
    /// Ask the window to enter fullscreen mode.
    Fullscreen,
    /// Ask the window to take input focus.
    Focus,
}

/// The startup steps in the order they must run.
pub open spec fn startup_order() -> Seq<StartupStep> {
    seq![
        StartupStep::SetRenderCompatEnv,
        StartupStep::RegisterOperations,
        StartupStep::ConfigureMainWindow,
        StartupStep::EnterRunLoop,
    ]
}

/// The startup steps, one occurrence of each, in the order they must run.
pub fn startup_steps() -> (r: Vec<StartupStep>)
    ensures
        r@ == startup_order(),
{
    let mut v: Vec<StartupStep> = Vec::new();
    v.push(StartupStep::SetRenderCompatEnv);
    v.push(StartupStep::RegisterOperations);
    v.push(StartupStep::ConfigureMainWindow);
    v.push(StartupStep::EnterRunLoop);
    v
}

/// The rendering-compatibility environment variable is set strictly before
/// the windowing subsystem is touched: in the startup order, the environment
/// step precedes both the window configuration and the run loop.
pub proof fn lemma_env_set_before_windowing()
    ensures
        forall|i: int, j: int|
            0 <= i < startup_order().len() && 0 <= j < startup_order().len()
                && startup_order()[i] == StartupStep::SetRenderCompatEnv
                && (startup_order()[j] == StartupStep::ConfigureMainWindow
                    || startup_order()[j] == StartupStep::EnterRunLoop) ==> i < j,
{
}

/// The name of the process environment variable that disables the GPU
/// buffer-sharing rendering path, read by the rendering backend at its own
/// startup.
pub fn render_compat_env_key() -> (r: &'static str)
    ensures
        r@ == "WEBKIT_DISABLE_DMABUF_RENDERER"@,
{
    "WEBKIT_DISABLE_DMABUF_RENDERER"
}

/// The value the rendering-compatibility variable is set to.
pub fn render_compat_env_value() -> (r: &'static str)
    ensures
        r@ == "1"@,
{
    "1"
}

/// The names under which the two operations are registered with the host's
/// invocation dispatcher: the greeting first, then the exit operation.
pub fn operation_names() -> (r: Vec<&'static str>)
    ensures
        r@.len() == 2,
        r@[0]@ == "greet"@,
        r@[1]@ == "exit_app"@,
{
    let mut v: Vec<&'static str> = Vec::new();
    v.push("greet");
    v.push("exit_app");
    v
}

/// The well-known identifier under which the main window is looked up.
pub fn main_window_label() -> (r: &'static str)
    ensures
        r@ == "main"@,
{
    "main"
}

/// The best-effort requests to issue against the main window, given whether
/// the lookup by [`main_window_label`] found it.
///
/// With the window present, fullscreen is requested first, then input focus.
/// With no window present nothing is requested and startup goes on: the
/// result is empty, never an error.
pub fn main_window_requests(window_present: bool) -> (r: Vec<WindowRequest>)
    ensures
        window_present ==> r@ =~= seq![WindowRequest::Fullscreen, WindowRequest::Focus],
        !window_present ==> r@ =~= Seq::<WindowRequest>::empty(),
{
    let mut v: Vec<WindowRequest> = Vec::new();
    if window_present {
        v.push(WindowRequest::Fullscreen);
        v.push(WindowRequest::Focus);
    }
    v
}

/// The exit status the exit operation requests from the host runtime:
/// success, whatever other state is in flight.
pub fn exit_status() -> (r: i32)
    ensures
        r == 0,
{
    0
}

} // verus!
