use vstd::prelude::*;

verus! {

/// One entry of the roster: a team's number and the domain it serves.
#[derive(Clone, Debug, PartialEq, Eq)]
pub struct Team {
    pub team_number: u8,
    pub domain: String,
}

} // verus!
