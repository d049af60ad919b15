//! Data records of the system widgets.

use vstd::prelude::*;

verus! {

/// The positional record of a loading placeholder.
#[derive(Debug, Clone)]
#[allow(missing_docs)]
pub struct LoadingPlaceholderLSData {
    pub id: Option<String>,
    pub custom_data: Option<String>,
}

} // verus!
