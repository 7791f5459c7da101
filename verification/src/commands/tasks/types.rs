//! Google Tasks resources, as far as the library reads them.

use vstd::prelude::*;

verus! {

/// A task of the Google Tasks API.
pub struct Task {
    pub id: Option<String>,
    pub title: Option<String>,
    pub notes: Option<String>,
    pub status: Option<String>,
    pub due: Option<String>,
    pub completed: Option<String>,
    pub parent: Option<String>,
    pub position: Option<String>,
    pub deleted: Option<bool>,
    pub hidden: Option<bool>,
    pub updated: Option<String>,
}

} // verus!
