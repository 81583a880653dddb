use appshell::platform::LaunchStep;
use appshell::platform::Platform;
use appshell::platform::desktop_custom_head;
use appshell::platform::select_launch;

#[test]
fn web_launch_logs_to_browser_then_hands_off() {
    let steps = select_launch(Platform::Web);
    assert_eq!(
        steps,
        vec![LaunchStep::InitBrowserLogging, LaunchStep::HandOffToBrowserDriver]
    );
}

#[test]
fn desktop_launch_logs_structured_then_hands_off() {
    let steps = select_launch(Platform::Desktop);
    assert_eq!(
        steps,
        vec![LaunchStep::InitStructuredLogging, LaunchStep::HandOffToDesktopDriver]
    );
}

#[test]
fn exactly_one_launch_procedure_per_build() {
    for platform in [Platform::Web, Platform::Desktop] {
        let steps = select_launch(platform);
        let web = steps.contains(&LaunchStep::HandOffToBrowserDriver);
        let desktop = steps.contains(&LaunchStep::HandOffToDesktopDriver);
        assert!(web != desktop);
        assert!(web || desktop);
    }
}

#[test]
fn is_web_matches_platform() {
    assert!(Platform::Web.is_web());
    assert!(!Platform::Desktop.is_web());
}

#[test]
fn desktop_head_references_the_stylesheet() {
    assert_eq!(
        desktop_custom_head(),
        r#"<link rel="stylesheet" href="public/tailwind.css">"#
    );
}
