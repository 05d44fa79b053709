use nubo_shell::config::{desktop_chrome, start_url, window_label, window_title};
use nubo_shell::config::{Build, Os, StartPage};
use nubo_shell::launch::{fatal_message, next_step, window_plan, LaunchStep};

#[test]
fn desktop_window_configuration() {
    let p = window_plan(Build::Desktop, Os::Other, StartPage::Login);
    assert_eq!(p.label, "main");
    assert_eq!(p.title.as_deref(), Some("Nubo"));
    let c = p.chrome.expect("desktop plan fixes the chrome");
    assert_eq!(c.inner_width, 1400);
    assert_eq!(c.inner_height, 900);
    assert_eq!(c.min_width, 800);
    assert_eq!(c.min_height, 600);
    assert!(c.resizable);
    assert!(!c.fullscreen);
    assert!(c.decorations);
    assert!(c.visible);
    assert_eq!(c, desktop_chrome());
}

#[test]
fn window_title_and_label_are_fixed() {
    assert_eq!(window_title(), "Nubo");
    assert_eq!(window_label(), "main");
}

#[test]
fn start_urls_are_the_two_fixed_pages() {
    assert_eq!(start_url(StartPage::Login), "https://nubo.email/login");
    assert_eq!(start_url(StartPage::Inbox), "https://nubo.email/mail/inbox");
    assert_ne!(start_url(StartPage::Login), start_url(StartPage::Inbox));
}

#[test]
fn start_urls_carry_no_query_or_fragment() {
    for page in [StartPage::Login, StartPage::Inbox] {
        let url = start_url(page);
        assert!(!url.contains('?'));
        assert!(!url.contains('#'));
    }
}

#[test]
fn overlay_title_bar_only_on_macos_desktop() {
    assert!(window_plan(Build::Desktop, Os::MacOs, StartPage::Login).overlay_title_bar);
    assert!(!window_plan(Build::Desktop, Os::Other, StartPage::Login).overlay_title_bar);
    assert!(!window_plan(Build::Mobile, Os::MacOs, StartPage::Login).overlay_title_bar);
    assert!(!window_plan(Build::Mobile, Os::Other, StartPage::Login).overlay_title_bar);
}

#[test]
fn mobile_omits_chrome_and_loads_same_url() {
    let desktop = window_plan(Build::Desktop, Os::Other, StartPage::Login);
    let mobile = window_plan(Build::Mobile, Os::Other, StartPage::Login);
    assert!(mobile.title.is_none());
    assert!(mobile.chrome.is_none());
    assert_eq!(mobile.url, desktop.url);
    assert_eq!(mobile.label, desktop.label);
}

#[test]
fn failure_aborts_before_the_event_loop() {
    assert_eq!(next_step(false), LaunchStep::Abort);
    assert_eq!(fatal_message(), "error while running tauri application");
}

#[test]
fn success_starts_the_event_loop() {
    assert_eq!(next_step(true), LaunchStep::StartEventLoop);
}
