use vstd::prelude::*;

use crate::types::User;

verus! {

/// The part of the system configuration that the daemon reads: the users, each
/// under its name.
///
/// The configuration holds the users in a map from name to user; here its
/// entries stand as (name, user) pairs, in the order the map gave them.
#[derive(Debug, Clone)]
pub struct PartialConfig {
    pub users: Vec<(String, User)>,
}

/// No name occurs twice among the entries, as in a map.
pub open spec fn names_distinct(entries: Seq<(String, User)>) -> bool {
    forall|i: int, j: int|
        0 <= i < entries.len() && 0 <= j < entries.len() && i != j ==> entries[i].0@
            != entries[j].0@
}

impl PartialConfig {
    /// The configuration holds each name once.
    pub open spec fn well_formed(&self) -> bool {
        names_distinct(self.users@)
    }
}

} // verus!
