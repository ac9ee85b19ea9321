//! The player's species. It starts as the base protoplasm form and is
//! changed exactly once, at the sentience transition, to a successor drawn
//! from the candidate set of the kingdom branch that was taken.

use vstd::prelude::*;

verus! {

#[derive(Clone, Copy, PartialEq, Eq, Structural, Debug)]
pub enum Species {
    Protoplasm,
    // Fungi kingdom
    Sporgar,
    Shroomi,
    Molding,
    // Plant kingdom
    Entish,
    Cacti,
    Pinguicula,
}

/// The successor candidates when the fungi branch (chitin) was taken.
pub open spec fn is_fungi_species(s: Species) -> bool {
    s == Species::Sporgar || s == Species::Shroomi || s == Species::Molding
}

/// The successor candidates when the plant branch (chloroplasts) was taken.
pub open spec fn is_plant_species(s: Species) -> bool {
    s == Species::Entish || s == Species::Cacti || s == Species::Pinguicula
}

#[derive(Clone, Copy, PartialEq, Eq, Structural, Debug)]
pub struct Race {
    pub species: Species,
}

impl Default for Race {
    fn default() -> (r: Race)
        ensures
            r.species == Species::Protoplasm,
    {
        Race { species: Species::Protoplasm }
    }
}

} // verus!
