use vstd::prelude::*;

verus! {

/// Why a step of the extraction failed.
#[derive(Clone, Copy, Debug, PartialEq, Eq, Structural)]
pub enum ExtractError {
    /// The automation endpoint could not be reached or initialised.
    Connection,
    /// The initial page load failed.
    Navigation,
    /// A required element was absent after its query policy ran out.
    NotFound,
    /// An element exists but could not be interacted with.
    NotClickable,
    /// A wait for an element ran out of time.
    Timeout,
    /// The label of the selected table button names neither variant, or
    /// still names the unwanted one after the toggle.
    UnknownVariant,
}

} // verus!
