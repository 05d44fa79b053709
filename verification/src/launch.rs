//! The startup decisions of the shell: which window the host runtime is
//! asked for on each build variant and platform, and what follows when
//! window construction succeeds or fails.

use vstd::prelude::*;
use crate::config::{Build, Chrome, Os, StartPage};
use crate::config::{desktop_chrome, start_url, window_label, window_title};
use crate::config::{
    spec_desktop_chrome, spec_start_url, spec_window_label, spec_window_title,
};

verus! {

/// Everything the shell asks of the host runtime for its one window.
/// `title` and `chrome` are absent on mobile, where the platform manages
/// its own window chrome; `overlay_title_bar` records the cosmetic
/// title-bar style applied after construction on macOS only.
pub struct WindowPlan {
    pub label: String,
    pub url: String,
    pub title: Option<String>,
    pub chrome: Option<Chrome>,
    pub overlay_title_bar: bool,
}

/// The one window the shell ever opens. Desktop builds fix the title and
/// the chrome; mobile builds omit both and load the same URL; the overlay
/// title bar is requested exactly on a macOS desktop.
pub fn window_plan(build: Build, os: Os, page: StartPage) -> (p: WindowPlan)
    ensures
        p.label@ == spec_window_label(),
        p.url@ == spec_start_url(page),
        build is Desktop ==> (p.title matches Some(t) && t@ == spec_window_title()),
        build is Desktop ==> p.chrome == Some(spec_desktop_chrome()),
        build is Mobile ==> p.title is None && p.chrome is None,
        p.overlay_title_bar <==> (build is Desktop && os is MacOs),
{
    match build {
        Build::Desktop => WindowPlan {
            label: window_label().to_owned(),
            url: start_url(page).to_owned(),
            title: Some(window_title().to_owned()),
            chrome: Some(desktop_chrome()),
            overlay_title_bar: os == Os::MacOs,
        },
        Build::Mobile => WindowPlan {
            label: window_label().to_owned(),
            url: start_url(page).to_owned(),
            title: None,
            chrome: None,
            overlay_title_bar: false,
        },
    }
}

/// What the shell does once window setup has been attempted.
#[derive(Clone, Copy, PartialEq, Eq, Structural, Debug)]
pub enum LaunchStep {
    /// Hand control to the host runtime's blocking event loop.
    StartEventLoop,
    /// Abort the process with the fatal diagnostic; the event loop never runs.
    Abort,
}

/// The shell runs the event loop exactly when window setup succeeded;
/// on failure it aborts, with no retry and no fallback.
pub fn next_step(window_built: bool) -> (step: LaunchStep)
    ensures
        step is StartEventLoop <==> window_built,
        step is Abort <==> !window_built,
{
    if window_built {
        LaunchStep::StartEventLoop
    } else {
        LaunchStep::Abort
    }
}

pub open spec fn spec_fatal_message() -> Seq<char> {
    "error while running tauri application"@
}

/// The fixed diagnostic the shell reports when it aborts.
pub fn fatal_message() -> (m: &'static str)
    ensures
        m@ == spec_fatal_message(),
{
    "error while running tauri application"
}

} // verus!
