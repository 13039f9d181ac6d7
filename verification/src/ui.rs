//! What the window draws with that is no drawing itself.

pub mod icons;
