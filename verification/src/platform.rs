//! The build-time platform entry selector: which of the two launch
//! procedures runs, and with what configuration.

use vstd::prelude::*;

verus! {

/// The build-time platform flag. Exactly one target is selected per build;
/// a build with zero or two targets does not exist.
#[derive(Clone, Copy, Debug, PartialEq, Eq, Structural)]
pub enum Platform {
    Web,
    Desktop,
}

/// Whether the browser-hosted launch procedure runs on this platform.
pub open spec fn runs_web_launch(p: Platform) -> bool {
    p is Web
}

/// Whether the desktop-webview launch procedure runs on this platform.
pub open spec fn runs_desktop_launch(p: Platform) -> bool {
    p is Desktop
}

impl Platform {
    /// Whether this build targets the browser.
    pub fn is_web(&self) -> (r: bool)
        ensures
            r == runs_web_launch(*self),
    {
        match self {
            Platform::Web => true,
            Platform::Desktop => false,
        }
    }
}

/// One action of a platform launch procedure.
#[derive(Clone, Copy, Debug, PartialEq, Eq, Structural)]
pub enum LaunchStep {
    /// Initialize the browser-console logging sink.
    InitBrowserLogging,
    /// Initialize the structured (process-local) logging sink.
    InitStructuredLogging,
    /// Hand the main thread to the browser-hosted rendering driver.
    HandOffToBrowserDriver,
    /// Hand the main thread to the desktop-webview rendering driver.
    HandOffToDesktopDriver,
}

/// The launch procedure of a platform: its logging sink is initialized
/// first, then the rendering driver takes the main thread and does not
/// return under normal operation.
pub open spec fn launch_procedure(p: Platform) -> Seq<LaunchStep> {
    if p is Web {
        seq![LaunchStep::InitBrowserLogging, LaunchStep::HandOffToBrowserDriver]
    } else {
        seq![LaunchStep::InitStructuredLogging, LaunchStep::HandOffToDesktopDriver]
    }
}

/// Select the launch procedure for a platform. The host executes the steps
/// in the returned order; logging always comes before the hand-off.
pub fn select_launch(p: Platform) -> (steps: Vec<LaunchStep>)
    ensures
        steps@ == launch_procedure(p),
{
    let mut steps: Vec<LaunchStep> = Vec::new();
    if p.is_web() {
        steps.push(LaunchStep::InitBrowserLogging);
        steps.push(LaunchStep::HandOffToBrowserDriver);
    } else {
        steps.push(LaunchStep::InitStructuredLogging);
        steps.push(LaunchStep::HandOffToDesktopDriver);
    }
    proof {
        assert(steps@ =~= launch_procedure(p));
    }
    steps
}

/// The markup injected into the desktop webview's document head: one
/// external stylesheet reference.
pub open spec fn desktop_head_markup() -> Seq<char> {
    "<link rel=\"stylesheet\" href=\"public/tailwind.css\">"@
}

/// The custom head configured into the desktop rendering driver.
pub fn desktop_custom_head() -> (r: &'static str)
    ensures
        r@ == desktop_head_markup(),
{
    "<link rel=\"stylesheet\" href=\"public/tailwind.css\">"
}

/// Law: exactly one of the two launch procedures runs per build — never
/// both, and never neither.
pub proof fn lemma_exactly_one_launch(p: Platform)
    ensures
        runs_web_launch(p) != runs_desktop_launch(p),
{
}

/// Law: on either platform the launch procedure initializes its logging
/// sink strictly before the rendering driver takes the main thread.
pub proof fn lemma_logging_before_hand_off(p: Platform)
    ensures
        launch_procedure(p).len() == 2,
        launch_procedure(p)[0] == if p is Web {
            LaunchStep::InitBrowserLogging
        } else {
            LaunchStep::InitStructuredLogging
        },
        launch_procedure(p)[1] == if p is Web {
            LaunchStep::HandOffToBrowserDriver
        } else {
            LaunchStep::HandOffToDesktopDriver
        },
{
}

} // verus!
