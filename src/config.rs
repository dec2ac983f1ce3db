//! Editor appearance settings that carry logic of their own.
use vstd::prelude::*;

verus! {

/// Colour scheme of the editor.
#[derive(Debug, Clone, Copy, PartialEq, Eq, Structural)]
pub enum Theme {
    /// Dark text on a light background.
    Light,
    /// Light text on a dark background.
    Dark,
}

impl Default for Theme {
    fn default() -> (r: Theme)
        ensures
            r == Theme::Dark,
    {
        Theme::Dark
    }
}

impl Theme {
    /// The other theme: light becomes dark and dark becomes light.
    pub fn toggled(self) -> (r: Theme)
        ensures
            r != self,
            self == Theme::Light ==> r == Theme::Dark,
            self == Theme::Dark ==> r == Theme::Light,
    {
        match self {
            Theme::Light => Theme::Dark,
            Theme::Dark => Theme::Light,
        }
    }
}

} // verus!
