use vstd::prelude::*;
use crate::apex::Legend;
use crate::apex::SquadType;
use crate::time::Timestamp;

verus! {

/// One recorded match outcome. Constructed once, appended to a record
/// store, and never mutated afterwards.
#[derive(Debug, PartialEq, Eq)]
pub struct Observation {
    pub number_of_kills: u64,
    pub damage_dealt: u64,
    pub squad_position: u64,
    pub legend: Legend,
    pub at: Timestamp,
    pub squad_type: SquadType,
    pub notes: String,
}

impl Observation {
    /// An exact copy of this observation.
    pub fn duplicate(&self) -> (r: Observation)
        ensures
            r == *self,
    {
        Observation {
            number_of_kills: self.number_of_kills,
            damage_dealt: self.damage_dealt,
            squad_position: self.squad_position,
            legend: self.legend,
            at: self.at,
            squad_type: self.squad_type,
            notes: self.notes.clone(),
        }
    }

    /// The squad finished first.
    pub fn is_win(&self) -> (r: bool)
        ensures
            r == (self.squad_position == 1),
    {
        self.squad_position == 1
    }

    /// The squad finished among the first three.
    pub fn is_top_three(&self) -> (r: bool)
        ensures
            r == (self.squad_position < 4),
    {
        self.squad_position < 4
    }

    /// The squad finished at placement twenty or later. The threshold is a
    /// fixed constant, a known approximation that ignores the actual lobby
    /// size of the match.
    pub fn is_last(&self) -> (r: bool)
        ensures
            r == (self.squad_position >= 20),
    {
        self.squad_position >= 20
    }
}

} // verus!
