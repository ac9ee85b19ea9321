//! Progression state of the evolutionary tree: one optional counter per
//! repeatable upgrade and one optional flag per one-shot branch node.
//!
//! `None` means the node is not reachable yet. For a counter, `Some(n)`
//! means the upgrade is unlocked and has been bought `n` times. For a
//! flag, `Some(false)` means the branch is available and `Some(true)` that
//! it was taken.

use vstd::prelude::*;

verus! {

/// Upper bound on every repeatable upgrade level. It keeps the capacity
/// and cost formulas inside machine integers; a purchase that would pass
/// the bound is refused.
pub const LEVEL_LIMIT: u32 = 1_000_000;

#[derive(Clone, Copy, PartialEq, Eq, Debug)]
pub struct Evolution {
    pub dna_unlocked: bool,
    pub membrane: Option<u32>,
    pub organelles: Option<u32>,
    pub nucleus: Option<u32>,
    pub eukaryotic_cell: Option<u32>,
    pub mitochondria: Option<u32>,
    pub sexual_reproduction: Option<bool>,
    pub phagocytosis: Option<bool>,
    pub chloroplasts: Option<bool>,
    pub chitin: Option<bool>,
    pub multicellular: Option<bool>,
    pub bilateral_symmetry: Option<bool>,
    pub poikilohydric: Option<bool>,
    pub spores: Option<bool>,
    pub bryophyte: Option<bool>,
    pub sentience: Option<bool>,
    pub progress: Option<u32>,
}

pub open spec fn level_ok(level: Option<u32>) -> bool {
    match level {
        Some(l) => l <= LEVEL_LIMIT,
        None => true,
    }
}

/// The level of an upgrade that counts as zero while locked; cost and
/// capacity formulas read it.
pub open spec fn level_or_zero(level: Option<u32>) -> int {
    match level {
        Some(l) => l as int,
        None => 0,
    }
}

/// Whether an upgrade is unlocked with at least `n` purchases.
pub open spec fn lvl_ge(level: Option<u32>, n: int) -> bool {
    match level {
        Some(c) => c >= n,
        None => false,
    }
}

/// Whether one more purchase of the upgrade is admissible.
pub open spec fn lvl_lt_limit(level: Option<u32>) -> bool {
    match level {
        Some(c) => c < LEVEL_LIMIT,
        None => false,
    }
}

/// RNA capacity gained per membrane, in whole units; it scales with the
/// mitochondria level once mitochondria are unlocked.
pub open spec fn spec_membrane_bonus(e: Evolution) -> int {
    match e.mitochondria {
        Some(c) => c * 5 + 5,
        None => 5,
    }
}

/// DNA capacity gained per eukaryotic cell, in whole units; it scales
/// with the mitochondria level once mitochondria are unlocked.
pub open spec fn spec_eukaryotic_bonus(e: Evolution) -> int {
    match e.mitochondria {
        Some(c) => c * 10 + 10,
        None => 10,
    }
}

/// Passive RNA generated per organelle level per second, in whole units:
/// doubled once the sexual reproduction branch is taken.
pub open spec fn spec_organelle_rate(e: Evolution) -> int {
    if e.sexual_reproduction == Some(true) {
        2
    } else {
        1
    }
}

impl Evolution {
    pub fn membrane_bonus(&self) -> (r: u64)
        ensures
            r == spec_membrane_bonus(*self),
    {
        match self.mitochondria {
            Some(c) => c as u64 * 5 + 5,
            None => 5,
        }
    }

    pub fn eukaryotic_bonus(&self) -> (r: u64)
        ensures
            r == spec_eukaryotic_bonus(*self),
    {
        match self.mitochondria {
            Some(c) => c as u64 * 10 + 10,
            None => 10,
        }
    }

    pub fn organelle_rate(&self) -> (r: u64)
        ensures
            r == spec_organelle_rate(*self),
    {
        if self.sexual_reproduction == Some(true) {
            2
        } else {
            1
        }
    }

    pub open spec fn wf(self) -> bool {
        &&& level_ok(self.membrane)
        &&& level_ok(self.organelles)
        &&& level_ok(self.nucleus)
        &&& level_ok(self.eukaryotic_cell)
        &&& level_ok(self.mitochondria)
    }

    /// The starting tree: nothing reached yet.
    pub fn new() -> (r: Evolution)
        ensures
            r == (Evolution {
                dna_unlocked: false,
                membrane: None,
                organelles: None,
                nucleus: None,
                eukaryotic_cell: None,
                mitochondria: None,
                sexual_reproduction: None,
                phagocytosis: None,
                chloroplasts: None,
                chitin: None,
                multicellular: None,
                bilateral_symmetry: None,
                poikilohydric: None,
                spores: None,
                bryophyte: None,
                sentience: None,
                progress: None,
            }),
            r.wf(),
    {
        Evolution {
            dna_unlocked: false,
            membrane: None,
            organelles: None,
            nucleus: None,
            eukaryotic_cell: None,
            mitochondria: None,
            sexual_reproduction: None,
            phagocytosis: None,
            chloroplasts: None,
            chitin: None,
            multicellular: None,
            bilateral_symmetry: None,
            poikilohydric: None,
            spores: None,
            bryophyte: None,
            sentience: None,
            progress: None,
        }
    }
}

} // verus!
