use vstd::prelude::*;

verus! {

/// The signs on the buttons of the window.
pub struct Icon {}

impl Icon {
    /// The sign for firing a request.
    pub fn go() -> (r: String)
        ensures
            r@ == "⏵"@,
    {
        "⏵".to_string()
    }

    /// The sign of a folded collection.
    pub fn triangle_right() -> (r: String)
        ensures
            r@ == "▶"@,
    {
        "▶".to_string()
    }

    /// The sign of an unfolded collection.
    pub fn triangle_bottom() -> (r: String)
        ensures
            r@ == "▼"@,
    {
        "▼".to_string()
    }

    /// The sign for deleting.
    pub fn delete() -> (r: String)
        ensures
            r@ == "✖"@,
    {
        "✖".to_string()
    }

    /// The sign for the list of events.
    pub fn list() -> (r: String)
        ensures
            r@ == "☰"@,
    {
        "☰".to_string()
    }
}

} // verus!
