//! The visual theme of the application and the class string it demands of
//! the external rendering surface.

use vstd::prelude::*;

verus! {

/// The appearance of the application: a closed two-variant tag. No other
/// states are permitted.
#[derive(Clone, Copy, Debug, PartialEq, Eq, Structural)]
pub enum Appearance {
    Dark,
    Light,
}

/// The class string the document body must carry for an appearance:
/// `"dark"` for `Dark`, the empty string for `Light`.
pub open spec fn class_of(a: Appearance) -> Seq<char> {
    match a {
        Appearance::Dark => "dark"@,
        Appearance::Light => ""@,
    }
}

impl Appearance {
    /// The class name the theme effect writes for this appearance.
    pub fn class_name(self) -> (r: &'static str)
        ensures
            r@ == class_of(self),
    {
        match self {
            Appearance::Dark => "dark",
            Appearance::Light => "",
        }
    }
}

} // verus!
