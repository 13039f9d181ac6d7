use vstd::prelude::*;

verus! {

/// The colour theme of the application.
#[derive(Clone, Copy, Debug, PartialEq, Eq, Structural)]
pub enum UITheme {
    Light,
    Dark,
}

impl Default for UITheme {
    fn default() -> (r: Self)
        ensures
            r == UITheme::Dark,
    {
        UITheme::Dark
    }
}

/// What is stored of the user interface.
#[derive(Clone, Copy, Debug, PartialEq, Eq, Structural)]
pub struct UISettings {
    pub theme: UITheme,
}

impl UISettings {
    /// The settings of a first start: the dark theme.
    pub fn default() -> (r: Self)
        ensures
            r == (UISettings { theme: UITheme::Dark }),
    {
        UISettings { theme: UITheme::Dark }
    }
}

} // verus!
