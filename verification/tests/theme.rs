use appshell::appearance::Appearance;
use appshell::theme::BodyHandle;
use appshell::theme::DocumentHandle;
use appshell::theme::DomSurface;
use appshell::theme::WindowHandle;
use appshell::theme::replay_transitions;
use appshell::theme::run_theme_effect;

fn reachable_surface(class: &str) -> DomSurface {
    DomSurface {
        window: Some(WindowHandle {
            document: Some(DocumentHandle {
                body: Some(BodyHandle { class_name: class.to_string() }),
            }),
        }),
    }
}

fn surface_class(surface: &DomSurface) -> &str {
    surface
        .window
        .as_ref()
        .unwrap()
        .document
        .as_ref()
        .unwrap()
        .body
        .as_ref()
        .unwrap()
        .class_name
        .as_str()
}

#[test]
fn class_name_dark_is_dark() {
    assert_eq!(Appearance::Dark.class_name(), "dark");
}

#[test]
fn class_name_light_is_empty() {
    assert_eq!(Appearance::Light.class_name(), "");
}

#[test]
fn first_run_sets_dark_class() {
    let mut surface = reachable_surface("stale");
    run_theme_effect(&mut surface, Appearance::Dark);
    assert_eq!(surface_class(&surface), "dark");
}

#[test]
fn first_run_sets_empty_class_for_light() {
    let mut surface = reachable_surface("stale");
    run_theme_effect(&mut surface, Appearance::Light);
    assert_eq!(surface_class(&surface), "");
}

#[test]
fn effect_skips_missing_window() {
    let mut surface = DomSurface { window: None };
    run_theme_effect(&mut surface, Appearance::Dark);
    assert!(surface.window.is_none());
}

#[test]
fn effect_skips_missing_document() {
    let mut surface = DomSurface { window: Some(WindowHandle { document: None }) };
    run_theme_effect(&mut surface, Appearance::Dark);
    assert!(surface.window.as_ref().unwrap().document.is_none());
}

#[test]
fn effect_skips_missing_body() {
    let mut surface = DomSurface {
        window: Some(WindowHandle { document: Some(DocumentHandle { body: None }) }),
    };
    run_theme_effect(&mut surface, Appearance::Dark);
    assert!(
        surface
            .window
            .as_ref()
            .unwrap()
            .document
            .as_ref()
            .unwrap()
            .body
            .is_none()
    );
}

#[test]
fn light_dark_light_ends_empty_and_passes_through_dark() {
    let mut surface = reachable_surface("stale");
    run_theme_effect(&mut surface, Appearance::Light);
    assert_eq!(surface_class(&surface), "");
    run_theme_effect(&mut surface, Appearance::Dark);
    assert_eq!(surface_class(&surface), "dark");
    run_theme_effect(&mut surface, Appearance::Light);
    assert_eq!(surface_class(&surface), "");
}

#[test]
fn replay_applies_transitions_in_order() {
    let mut surface = reachable_surface("stale");
    let transitions = vec![Appearance::Light, Appearance::Dark, Appearance::Light];
    replay_transitions(&mut surface, &transitions);
    assert_eq!(surface_class(&surface), "");

    let mut surface = reachable_surface("stale");
    let transitions = vec![Appearance::Light, Appearance::Dark];
    replay_transitions(&mut surface, &transitions);
    assert_eq!(surface_class(&surface), "dark");
}

#[test]
fn replay_on_unreachable_surface_mutates_nothing() {
    let mut surface = DomSurface { window: Some(WindowHandle { document: None }) };
    let transitions = vec![Appearance::Dark, Appearance::Light, Appearance::Dark];
    replay_transitions(&mut surface, &transitions);
    assert!(surface.window.as_ref().unwrap().document.is_none());
}

#[test]
fn empty_replay_leaves_class_untouched() {
    let mut surface = reachable_surface("stale");
    let transitions: Vec<Appearance> = Vec::new();
    replay_transitions(&mut surface, &transitions);
    assert_eq!(surface_class(&surface), "stale");
}
