use vstd::prelude::*;

use crate::types::full::playlist::Item;

verus! {

/// A playlist with its tracks loaded.
pub struct AppPlaylist {
    pub id: String,
    pub name: String,
    pub items: Vec<Item>,
}

} // verus!
