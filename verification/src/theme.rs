//! The theme synchronization effect: keeping the document body's class
//! attribute in step with the appearance value, against an external
//! rendering surface whose handles may be absent.

use vstd::prelude::*;
use crate::appearance::Appearance;
use crate::appearance::class_of;

verus! {

/// The document body: the one node whose class attribute this layer
/// writes.
pub struct BodyHandle {
    /// The body's class attribute.
    pub class_name: String,
}

/// The document; its body may be absent.
pub struct DocumentHandle {
    /// The document body, when one exists.
    pub body: Option<BodyHandle>,
}

/// The window; its document may be absent.
pub struct WindowHandle {
    /// The window's document, when one exists.
    pub document: Option<DocumentHandle>,
}

/// The external rendering surface as the effect sees it: a chain of
/// fallible lookups — window, then document, then body — each of which may
/// come up empty, for instance during non-windowed execution.
pub struct DomSurface {
    /// The global window, when one exists.
    pub window: Option<WindowHandle>,
}

/// Whether the global window handle is available.
pub open spec fn has_window(s: DomSurface) -> bool {
    s.window is Some
}

/// Whether the window and its document are available.
pub open spec fn has_document(s: DomSurface) -> bool {
    match s.window {
        Some(w) => w.document is Some,
        None => false,
    }
}

/// Whether the whole chain — window, document, body — is available, so
/// that a synchronization run can reach the class attribute.
pub open spec fn has_body(s: DomSurface) -> bool {
    match s.window {
        Some(w) => match w.document {
            Some(d) => d.body is Some,
            None => false,
        },
        None => false,
    }
}

/// The body's class attribute; the empty sequence where no body exists.
pub open spec fn body_class(s: DomSurface) -> Seq<char> {
    match s.window {
        Some(w) => match w.document {
            Some(d) => match d.body {
                Some(b) => b.class_name@,
                None => Seq::<char>::empty(),
            },
            None => Seq::<char>::empty(),
        },
        None => Seq::<char>::empty(),
    }
}

/// The class attribute one run of the effect leaves behind: the class of
/// the appearance when the body is reachable, the previous class — no
/// mutation — when any handle in the chain is missing.
pub open spec fn class_after(cls: Seq<char>, reachable: bool, a: Appearance) -> Seq<char> {
    if reachable {
        class_of(a)
    } else {
        cls
    }
}

/// One run of the theme synchronization effect: look up window, document
/// and body in turn, short-circuit to a no-op when any is absent, and
/// otherwise set the body's class attribute to the class of the appearance.
/// It runs once upon registration and again on every appearance change;
/// it never fails, and touches nothing but the class attribute.
pub fn run_theme_effect(surface: &mut DomSurface, appearance: Appearance)
    ensures
        has_window(*final(surface)) == has_window(*old(surface)),
        has_document(*final(surface)) == has_document(*old(surface)),
        has_body(*final(surface)) == has_body(*old(surface)),
        body_class(*final(surface)) == class_after(
            body_class(*old(surface)),
            has_body(*old(surface)),
            appearance,
        ),
        !has_body(*old(surface)) ==> *final(surface) == *old(surface),
{
    if let Some(window) = &mut surface.window {
        if let Some(document) = &mut window.document {
            if let Some(body) = &mut document.body {
                body.class_name = String::from_str(appearance.class_name());
            }
        }
    }
}

/// The class attribute after a whole sequence of appearance transitions,
/// each applied by one run of the effect, in the order they occurred.
pub open spec fn class_after_all(cls: Seq<char>, reachable: bool, transitions: Seq<Appearance>) -> Seq<char>
    decreases transitions.len(),
{
    if transitions.len() == 0 {
        cls
    } else {
        class_after(
            class_after_all(cls, reachable, transitions.drop_last()),
            reachable,
            transitions.last(),
        )
    }
}

/// Replay a sequence of appearance transitions against the surface, one
/// effect run per transition, in order — no transition reordered, none
/// dropped.
pub fn replay_transitions(surface: &mut DomSurface, transitions: &Vec<Appearance>)
    ensures
        has_window(*final(surface)) == has_window(*old(surface)),
        has_document(*final(surface)) == has_document(*old(surface)),
        has_body(*final(surface)) == has_body(*old(surface)),
        body_class(*final(surface)) == class_after_all(
            body_class(*old(surface)),
            has_body(*old(surface)),
            transitions@,
        ),
{
    let mut i: usize = 0;
    while i < transitions.len()
        invariant
            i <= transitions.len(),
            has_window(*surface) == has_window(*old(surface)),
            has_document(*surface) == has_document(*old(surface)),
            has_body(*surface) == has_body(*old(surface)),
            body_class(*surface) == class_after_all(
                body_class(*old(surface)),
                has_body(*old(surface)),
                transitions@.take(i as int),
            ),
        decreases transitions.len() - i,
    {
        run_theme_effect(surface, transitions[i]);
        proof {
            assert(transitions@.take(i + 1).drop_last() =~= transitions@.take(i as int));
            assert(transitions@.take(i + 1).last() == transitions@[i as int]);
        }
        i = i + 1;
    }
    proof {
        assert(transitions@.take(transitions@.len() as int) =~= transitions@);
    }
}

/// Law: immediately after the effect runs on a reachable surface, the
/// body's class equals `"dark"` when the appearance is `Dark` and the
/// empty string when it is `Light`, whatever class stood there before.
pub proof fn lemma_initial_sync(cls: Seq<char>, a: Appearance)
    ensures
        class_after(cls, true, a) == class_of(a),
        a is Dark ==> class_after(cls, true, a) == "dark"@,
        a is Light ==> class_after(cls, true, a) == ""@,
{
}

/// Law: when the window, document or body handle is unavailable, an effect
/// run mutates nothing — the class attribute is exactly what it was.
pub proof fn lemma_skip_when_unreachable(cls: Seq<char>, a: Appearance)
    ensures
        class_after(cls, false, a) == cls,
{
}

/// Law: across the transitions `Light`, `Dark`, `Light` on a reachable
/// surface the class is `"dark"` after the `Dark` transition — after the
/// first transition and before the second back to `Light` — and the empty
/// string at the end; the transitions apply in order.
pub proof fn lemma_transition_order(cls: Seq<char>)
    ensures
        class_after(class_after(cls, true, Appearance::Light), true, Appearance::Dark) == "dark"@,
        class_after(
            class_after(class_after(cls, true, Appearance::Light), true, Appearance::Dark),
            true,
            Appearance::Light,
        ) == ""@,
{
}

} // verus!
