use vstd::prelude::*;

verus! {

/// The header record of an installed data set: edition and validity
/// metadata, read back by callers once an installation has finished.
#[derive(Debug, Clone)]
pub struct Header {
    pub version: String,
    pub arincversion: String,
    pub record_set: String,
    pub current_airac: String,
    pub revision: String,
    pub effective_fromto: String,
    pub previous_airac: String,
    pub previous_fromto: String,
    pub parsed_at: String,
}

} // verus!
