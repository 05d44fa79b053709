//! The fixed values the shell hands to the host GUI runtime: the window
//! title and label, the start URL of each build variant, and the desktop
//! window's geometry and chrome flags.

use vstd::prelude::*;

verus! {

/// Whether the shell was built for a desktop or a mobile target.
#[derive(Clone, Copy, PartialEq, Eq, Structural, Debug)]
pub enum Build {
    Desktop,
    Mobile,
}

/// The desktop operating systems the shell tells apart: only macOS gets
/// special title-bar treatment.
#[derive(Clone, Copy, PartialEq, Eq, Structural, Debug)]
pub enum Os {
    MacOs,
    Other,
}

/// The page a build variant opens first: the login page or the inbox.
#[derive(Clone, Copy, PartialEq, Eq, Structural, Debug)]
pub enum StartPage {
    Login,
    Inbox,
}

pub open spec fn spec_login_url() -> Seq<char> {
    "https://nubo.email/login"@
}

pub open spec fn spec_inbox_url() -> Seq<char> {
    "https://nubo.email/mail/inbox"@
}

/// The URL a build variant loads.
pub open spec fn spec_start_url(page: StartPage) -> Seq<char> {
    match page {
        StartPage::Login => spec_login_url(),
        StartPage::Inbox => spec_inbox_url(),
    }
}

/// The URL the window loads: fixed per build variant, nothing appended.
pub fn start_url(page: StartPage) -> (url: &'static str)
    ensures
        url@ == spec_start_url(page),
{
    match page {
        StartPage::Login => "https://nubo.email/login",
        StartPage::Inbox => "https://nubo.email/mail/inbox",
    }
}

/// Whatever the build variant, the window loads exactly one of the two
/// fixed pages, the two pages are distinct, and the URL carries no query
/// or fragment part.
pub proof fn lemma_start_url_fixed(page: StartPage)
    ensures
        spec_start_url(page) == spec_login_url() || spec_start_url(page) == spec_inbox_url(),
        spec_login_url() != spec_inbox_url(),
        forall|i: int| 0 <= i < spec_start_url(page).len()
            ==> spec_start_url(page)[i] != '?' && spec_start_url(page)[i] != '#',
{
    reveal_strlit("https://nubo.email/login");
    reveal_strlit("https://nubo.email/mail/inbox");
}

/// Geometry and chrome flags of the desktop window. Sizes are in logical
/// pixels; the host toolkit takes them as-is.
#[derive(Clone, Copy, PartialEq, Eq, Structural, Debug)]
pub struct Chrome {
    pub inner_width: u32,
    pub inner_height: u32,
    pub min_width: u32,
    pub min_height: u32,
    pub resizable: bool,
    pub fullscreen: bool,
    pub decorations: bool,
    pub visible: bool,
}

/// The one chrome configuration the desktop build ever uses.
pub open spec fn spec_desktop_chrome() -> Chrome {
    Chrome {
        inner_width: 1400,
        inner_height: 900,
        min_width: 800,
        min_height: 600,
        resizable: true,
        fullscreen: false,
        decorations: true,
        visible: true,
    }
}

/// The desktop window's geometry and chrome flags: a 1400 by 900 window,
/// at least 800 by 600, resizable, decorated, visible, not fullscreen.
pub fn desktop_chrome() -> (c: Chrome)
    ensures
        c == spec_desktop_chrome(),
{
    Chrome {
        inner_width: 1400,
        inner_height: 900,
        min_width: 800,
        min_height: 600,
        resizable: true,
        fullscreen: false,
        decorations: true,
        visible: true,
    }
}

pub open spec fn spec_window_title() -> Seq<char> {
    "Nubo"@
}

/// The desktop window's title.
pub fn window_title() -> (t: &'static str)
    ensures
        t@ == spec_window_title(),
{
    "Nubo"
}

pub open spec fn spec_window_label() -> Seq<char> {
    "main"@
}

/// The label under which the host runtime registers the window.
pub fn window_label() -> (l: &'static str)
    ensures
        l@ == spec_window_label(),
{
    "main"
}

} // verus!
