//! The marker type the API-documentation layer hangs its description on;
//! the document itself is produced outside the library.

use vstd::prelude::*;

verus! {

/// Marker for the served API description.
pub struct ApiDoc;

} // verus!
