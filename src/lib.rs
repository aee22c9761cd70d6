//! Decision logic for scraping a two-variant statistics table: parsing which
//! variant is active, normalising column headers, assembling rows fail-fast,
//! and the step functions that drive the browser session.
use vstd::prelude::*;

pub mod error;
pub mod headers;
pub mod protocol;
pub mod rows;
pub mod snapshot;
pub mod variant;

verus! {

} // verus!
