// Player profiles read from career pages.
//
// `model`: the profile types. `tables`, `text`: lookup tables and text routines.
// `page`, `url_path`: parsed documents and icon addresses. `extract`: field decoders
// and the profile extractor. `laws`: properties of the decoders.
// `admission`: the bound on concurrent page fetches. `lookup`: the per-request
// cache-aside flow, as a state machine driven by its surroundings.

use vstd::prelude::*;

pub mod admission;
pub mod extract;
pub mod laws;
pub mod lookup;
pub mod model;
pub mod page;
pub mod tables;
pub mod text;
pub mod url_path;

verus! {

} // verus!
