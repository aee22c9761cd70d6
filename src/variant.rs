use vstd::prelude::*;

use crate::error::ExtractError;

verus! {

/// The two views of the statistics table; the page toggles between them.
#[derive(Clone, Copy, Debug, PartialEq, Eq, Structural)]
pub enum TableVariant {
    Standard,
    Expanded,
}

/// The variant that a single toggle leads to.
pub open spec fn toggle(v: TableVariant) -> TableVariant {
    match v {
        TableVariant::Standard => TableVariant::Expanded,
        TableVariant::Expanded => TableVariant::Standard,
    }
}

/// Toggling leaves the variant that was active, and toggling twice comes back to it.
pub proof fn lemma_toggle_round_trip(v: TableVariant)
    ensures
        toggle(v) != v,
        toggle(toggle(v)) == v,
{
}

impl TableVariant {
    /// The variant that is active after the page's toggle button is clicked once.
    pub fn toggled(self) -> (r: TableVariant)
        ensures
            r == toggle(self),
    {
        match self {
            TableVariant::Standard => TableVariant::Expanded,
            TableVariant::Expanded => TableVariant::Standard,
        }
    }
}

/// What `str::to_lowercase` makes of a string.
pub uninterp spec fn lower_of(s: Seq<char>) -> Seq<char>;

/// Relies on `str::to_lowercase`: the result depends on the characters alone,
/// and an empty string stays empty.
#[verifier::external_body]
pub(crate) fn lowercase(s: &str) -> (r: String)
    ensures
        r@ == lower_of(s@),
        s@.len() == 0 ==> r@.len() == 0,
{
    s.to_lowercase()
}

/// The variant that an already lowercased button label names, if any.
pub open spec fn variant_of_lowered(s: Seq<char>) -> Option<TableVariant> {
    if s == "standard"@ {
        Some(TableVariant::Standard)
    } else if s == "expanded"@ {
        Some(TableVariant::Expanded)
    } else {
        None
    }
}

/// The result that reading a lowercased label gives.
pub open spec fn parsed_variant(s: Seq<char>) -> Result<TableVariant, ExtractError> {
    match variant_of_lowered(s) {
        Some(v) => Ok(v),
        None => Err(ExtractError::UnknownVariant),
    }
}

/// Maps a lowercased button label to the variant it names.
pub fn variant_from_lowered(lowered: &str) -> (r: Result<TableVariant, ExtractError>)
    ensures
        r == parsed_variant(lowered@),
{
    let label: String = lowered.to_owned();
    let standard: String = "standard".to_owned();
    let expanded: String = "expanded".to_owned();
    if label == standard {
        Ok(TableVariant::Standard)
    } else if label == expanded {
        Ok(TableVariant::Expanded)
    } else {
        Err(ExtractError::UnknownVariant)
    }
}

/// Maps the text of the selected table button to the variant it names,
/// ignoring case.
pub fn variant_from_label(label: &str) -> (r: Result<TableVariant, ExtractError>)
    ensures
        r == parsed_variant(lower_of(label@)),
{
    let lowered = lowercase(label);
    variant_from_lowered(lowered.as_str())
}

} // verus!
