//! The engine state and its transitions: the purchase protocol for every
//! action, the unlock sweep, and the periodic production and capacity
//! ticks. Every mutation preserves the well-formedness invariant `GameV::wf`,
//! which carries the catalog's no-duplicate guarantee and the hard
//! exclusivity of the kingdom forks.

use vstd::prelude::*;

use crate::action::{
    no_dups, remove_id, spec_add_seq, spec_costs, spec_count, ActionHolder, ActionId, Category,
};
use crate::evolution::{
    level_or_zero, lvl_ge, lvl_lt_limit, spec_eukaryotic_bonus, spec_membrane_bonus,
    spec_organelle_rate, Evolution, LEVEL_LIMIT,
};
use crate::race::{is_fungi_species, is_plant_species, Race, Species};
use crate::resource::{
    spec_afford, spec_modify, spec_pay, spec_rate, Resource, Resources, ResourceType, AMOUNT_LIMIT,
    START_CAP, UNIT,
};
use crate::rng::{rng_index, rng_with_seed};

verus! {

/// Cadence of the production and unlock sweep, in milliseconds.
pub const FAST_TICK_MS: u64 = 250;

/// Cadence of the capacity recomputation, in milliseconds.
pub const MID_TICK_MS: u64 = 1000;

/// Cadence of the autosave snapshot, in milliseconds.
pub const SLOW_TICK_MS: u64 = 5000;

/// Net change in parts that one fast tick applies per whole unit of a
/// per-second rate: `UNIT` parts scaled by a quarter second.
pub const TICK_PARTS: u64 = 250;

#[derive(Clone, Copy, PartialEq, Eq, Structural, Debug)]
pub enum GameStage {
    Evolution,
    Civilization,
}

/// Mathematical snapshot of the engine state (the generator state aside):
/// the contracts of every transition are stated over this view.
#[verifier::ext_equal]
pub ghost struct GameV {
    pub seed: u64,
    pub resources: Resources,
    pub evolution: Evolution,
    pub race: Race,
    pub stage: GameStage,
    pub active: Seq<ActionId>,
    pub unlocks: Seq<ActionId>,
}

/// The whole engine: the resource ledger, the progression state, the
/// species, the live action catalog, and the seeded generator used once
/// at the sentience transition.
pub struct Game {
    pub seed: u64,
    pub resources: Resources,
    pub evolution: Evolution,
    pub race: Race,
    pub stage: GameStage,
    pub actions: ActionHolder,
    pub rng: fastrand::Rng,
}

impl View for Game {
    type V = GameV;

    open spec fn view(&self) -> GameV {
        GameV {
            seed: self.seed,
            resources: self.resources,
            evolution: self.evolution,
            race: self.race,
            stage: self.stage,
            active: self.actions.active@,
            unlocks: self.actions.unlocks@,
        }
    }
}

impl GameV {
    /// Consistency of the progression state with the live catalog: an
    /// offered upgrade is initialised, an offered one-shot is pending,
    /// each reachable node's ancestors were taken, and a chosen kingdom
    /// fork has irrevocably displaced its two siblings.
    pub open spec fn tree_wf(self) -> bool {
        let e = self.evolution;
        // an offered repeatable upgrade has been initialised
        &&& (self.active.contains(ActionId::Membrane) ==> e.membrane.is_some())
        &&& (self.active.contains(ActionId::Organelles) ==> e.organelles.is_some())
        &&& (self.active.contains(ActionId::Nucleus) ==> e.nucleus.is_some())
        &&& (self.active.contains(ActionId::EukaryoticCell) ==> e.eukaryotic_cell.is_some())
        &&& (self.active.contains(ActionId::Mitochondria) ==> e.mitochondria.is_some())
        // an offered one-shot is still pending
        &&& (self.active.contains(ActionId::Phagocytosis) ==> e.phagocytosis == Some(false))
        &&& (self.active.contains(ActionId::Chloroplasts) ==> e.chloroplasts == Some(false))
        &&& (self.active.contains(ActionId::Chitin) ==> e.chitin == Some(false))
        &&& (self.active.contains(ActionId::Multicellular) ==> e.multicellular == Some(false))
        &&& (self.active.contains(ActionId::Poikilohydric) ==> e.poikilohydric == Some(false))
        &&& (self.active.contains(ActionId::Spores) ==> e.spores == Some(false))
        &&& (self.active.contains(ActionId::Bryophyte) ==> e.bryophyte == Some(false))
        &&& (self.active.contains(ActionId::Sentience) ==> e.sentience == Some(false))
        // a reachable fork means the branch point was taken and withdrawn
        &&& ((e.phagocytosis.is_some() || e.chloroplasts.is_some() || e.chitin.is_some())
            ==> e.sexual_reproduction == Some(true) && !self.active.contains(
            ActionId::SexualReproduction,
        ))
        // a taken fork has irrevocably displaced its two siblings
        &&& (e.phagocytosis == Some(true) ==> e.chloroplasts.is_none() && e.chitin.is_none()
            && !self.active.contains(ActionId::Phagocytosis) && !self.active.contains(
            ActionId::Chloroplasts,
        ) && !self.active.contains(ActionId::Chitin))
        &&& (e.chloroplasts == Some(true) ==> e.phagocytosis.is_none() && e.chitin.is_none()
            && !self.active.contains(ActionId::Phagocytosis) && !self.active.contains(
            ActionId::Chloroplasts,
        ) && !self.active.contains(ActionId::Chitin))
        &&& (e.chitin == Some(true) ==> e.phagocytosis.is_none() && e.chloroplasts.is_none()
            && !self.active.contains(ActionId::Phagocytosis) && !self.active.contains(
            ActionId::Chloroplasts,
        ) && !self.active.contains(ActionId::Chitin))
        // each node past the forks presupposes its ancestor
        &&& (e.multicellular.is_some() ==> e.phagocytosis == Some(true) || e.chloroplasts == Some(
            true,
        ) || e.chitin == Some(true))
        &&& (e.bilateral_symmetry.is_some() ==> e.phagocytosis == Some(true) && e.multicellular
            == Some(true))
        &&& (e.poikilohydric.is_some() ==> e.chloroplasts == Some(true) && e.multicellular == Some(
            true,
        ))
        &&& (e.spores.is_some() ==> e.chitin == Some(true) && e.multicellular == Some(true))
        &&& (e.bryophyte.is_some() ==> e.poikilohydric == Some(true) || e.spores == Some(true))
        &&& (e.sentience.is_some() ==> e.bryophyte == Some(true))
    }

    pub open spec fn wf(self) -> bool {
        &&& self.resources.wf()
        &&& self.evolution.wf()
        &&& no_dups(self.active)
        &&& no_dups(self.unlocks)
        &&& self.tree_wf()
    }
}

/// The complete starting state for a fresh game with the given seed.
pub open spec fn spec_new_game(seed: u64) -> GameV {
    GameV {
        seed,
        resources: Resources {
            rna: Resource { amount: 0, max: START_CAP, delta: 0, rate: 0, visible: true },
            dna: Resource { amount: 0, max: START_CAP, delta: 0, rate: 0, visible: false },
        },
        evolution: Evolution {
            dna_unlocked: false,
            membrane: None,
            organelles: None,
            nucleus: None,
            eukaryotic_cell: None,
            mitochondria: None,
            sexual_reproduction: None,
            phagocytosis: None,
            chloroplasts: None,
            chitin: None,
            multicellular: None,
            bilateral_symmetry: None,
            poikilohydric: None,
            spores: None,
            bryophyte: None,
            sentience: None,
            progress: None,
        },
        race: Race { species: Species::Protoplasm },
        stage: GameStage::Evolution,
        active: seq![ActionId::Rna],
        unlocks: seq![ActionId::Rna],
    }
}

/// A capacity raised by `bonus_units` whole units, clamped at the ledger
/// bound so that growth saturates instead of overflowing.
pub open spec fn spec_cap_bump(max: int, bonus_units: int) -> int {
    let raw = max + bonus_units * UNIT;
    if raw > AMOUNT_LIMIT {
        AMOUNT_LIMIT as int
    } else {
        raw
    }
}

/// The capacity a level-`lvl` upgrade grants over the starting cap,
/// clamped at the ledger bound.
pub open spec fn spec_cap_formula(lvl: Option<u32>, bonus_units: int) -> int {
    let raw = START_CAP + level_or_zero(lvl) * bonus_units * UNIT;
    if raw > AMOUNT_LIMIT {
        AMOUNT_LIMIT as int
    } else {
        raw
    }
}

/// The mid tick: while still evolving, both capacity ceilings are
/// recomputed from the current upgrade levels (amounts are clamped under
/// the new ceilings, which in ordinary play only ever rise).
pub open spec fn spec_mid_tick(v: GameV) -> GameV {
    if v.race.species == Species::Protoplasm {
        let rna_max = spec_cap_formula(v.evolution.membrane, spec_membrane_bonus(v.evolution));
        let dna_max = spec_cap_formula(
            v.evolution.eukaryotic_cell,
            spec_eukaryotic_bonus(v.evolution),
        );
        let rna_amount = if v.resources.rna.amount > rna_max {
            rna_max
        } else {
            v.resources.rna.amount as int
        };
        let dna_amount = if v.resources.dna.amount > dna_max {
            dna_max
        } else {
            v.resources.dna.amount as int
        };
        GameV {
            resources: Resources {
                rna: Resource {
                    max: rna_max as u64,
                    amount: rna_amount as u64,
                    ..v.resources.rna
                },
                dna: Resource {
                    max: dna_max as u64,
                    amount: dna_amount as u64,
                    ..v.resources.dna
                },
            },
            ..v
        }
    } else {
        v
    }
}

/// Passive DNA production of one fast tick: the nucleus converts RNA to
/// DNA at two RNA per DNA per second, throttled to the largest whole
/// conversion rate the RNA on hand can pay for, and skipped entirely
/// while DNA is full.
pub open spec fn spec_dna_production(rs: Resources, e: Evolution) -> Resources {
    match e.nucleus {
        Some(nuc) => {
            if rs.dna.amount < rs.dna.max {
                let room = rs.rna.amount as int / (2 * UNIT as int);
                let inc = if nuc as int <= room {
                    nuc as int
                } else {
                    room
                };
                let rs1 = Resources {
                    dna: spec_modify(rs.dna, inc * TICK_PARTS, false, false).0,
                    ..rs
                };
                Resources {
                    rna: spec_modify(rs1.rna, -(inc * 2 * TICK_PARTS), false, false).0,
                    ..rs1
                }
            } else {
                rs
            }
        },
        None => rs,
    }
}

/// Passive RNA production of one fast tick: each organelle level yields
/// its per-second rate scaled over the quarter-second tick.
pub open spec fn spec_rna_production(rs: Resources, e: Evolution) -> Resources {
    match e.organelles {
        Some(org) => Resources {
            rna: spec_modify(rs.rna, org * spec_organelle_rate(e) * TICK_PARTS, false, false).0,
            ..rs
        },
        None => rs,
    }
}

/// The unlock sweep: the precondition ladder is evaluated in fixed
/// priority order and the first satisfied rung wins this tick; later
/// rungs get their turn on later sweeps. Each rung offers its action and
/// initialises the node it gates.
pub open spec fn spec_ladder(v: GameV) -> GameV {
    let e = v.evolution;
    let rs = v.resources;
    if rs.rna.amount >= 2 * UNIT && !v.unlocks.contains(ActionId::Dna) {
        GameV {
            resources: Resources { dna: Resource { visible: true, ..rs.dna }, ..rs },
            active: spec_add_seq(v.active, ActionId::Dna),
            unlocks: spec_add_seq(v.unlocks, ActionId::Dna),
            ..v
        }
    } else if rs.rna.amount >= 10 * UNIT && !v.unlocks.contains(ActionId::Membrane) {
        GameV {
            evolution: Evolution { membrane: Some(0u32), ..e },
            active: spec_add_seq(v.active, ActionId::Membrane),
            unlocks: spec_add_seq(v.unlocks, ActionId::Membrane),
            ..v
        }
    } else if rs.dna.amount >= 2 * UNIT && !v.unlocks.contains(ActionId::Organelles) {
        GameV {
            evolution: Evolution { organelles: Some(0u32), ..e },
            active: spec_add_seq(v.active, ActionId::Organelles),
            unlocks: spec_add_seq(v.unlocks, ActionId::Organelles),
            ..v
        }
    } else if lvl_ge(e.organelles, 2) && !v.unlocks.contains(ActionId::Nucleus) {
        GameV {
            evolution: Evolution { nucleus: Some(0u32), ..e },
            active: spec_add_seq(v.active, ActionId::Nucleus),
            unlocks: spec_add_seq(v.unlocks, ActionId::Nucleus),
            ..v
        }
    } else if lvl_ge(e.nucleus, 1) && !v.unlocks.contains(ActionId::EukaryoticCell) {
        GameV {
            evolution: Evolution { eukaryotic_cell: Some(0u32), ..e },
            active: spec_add_seq(v.active, ActionId::EukaryoticCell),
            unlocks: spec_add_seq(v.unlocks, ActionId::EukaryoticCell),
            ..v
        }
    } else if lvl_ge(e.eukaryotic_cell, 1) && !v.unlocks.contains(ActionId::Mitochondria) {
        GameV {
            evolution: Evolution { mitochondria: Some(0u32), ..e },
            active: spec_add_seq(v.active, ActionId::Mitochondria),
            unlocks: spec_add_seq(v.unlocks, ActionId::Mitochondria),
            ..v
        }
    } else if lvl_ge(e.mitochondria, 1) && e.sexual_reproduction.is_none() {
        GameV {
            evolution: Evolution { sexual_reproduction: Some(false), ..e },
            active: spec_add_seq(v.active, ActionId::SexualReproduction),
            unlocks: spec_add_seq(v.unlocks, ActionId::SexualReproduction),
            ..v
        }
    } else {
        v
    }
}

/// The fast tick: while still evolving, passive production runs and the
/// unlock sweep follows; in every stage the displayed rates then close
/// their quarter-second interval.
pub open spec fn spec_fast_tick(v: GameV) -> GameV {
    let v1 = if v.race.species == Species::Protoplasm {
        let rs1 = spec_dna_production(v.resources, v.evolution);
        let rs2 = spec_rna_production(rs1, v.evolution);
        spec_ladder(GameV { resources: rs2, ..v })
    } else {
        v
    };
    GameV {
        resources: Resources {
            rna: spec_rate(v1.resources.rna, FAST_TICK_MS as int),
            dna: spec_rate(v1.resources.dna, FAST_TICK_MS as int),
        },
        ..v1
    }
}

/// One unlock sweep preserves the registry's guarantees: no entry is
/// duplicated, nothing offered is withdrawn, and no unlocked id is lost.
pub proof fn lemma_ladder_props(v: GameV)
    requires
        no_dups(v.active),
        no_dups(v.unlocks),
    ensures
        no_dups(spec_ladder(v).active),
        no_dups(spec_ladder(v).unlocks),
        forall|id: ActionId|
            v.active.contains(id) ==> #[trigger] spec_ladder(v).active.contains(id),
        forall|id: ActionId|
            v.unlocks.contains(id) ==> #[trigger] spec_ladder(v).unlocks.contains(id),
{
    crate::action::lemma_add_seq_props(v.active, ActionId::Dna);
    crate::action::lemma_add_seq_props(v.unlocks, ActionId::Dna);
    crate::action::lemma_add_seq_props(v.active, ActionId::Membrane);
    crate::action::lemma_add_seq_props(v.unlocks, ActionId::Membrane);
    crate::action::lemma_add_seq_props(v.active, ActionId::Organelles);
    crate::action::lemma_add_seq_props(v.unlocks, ActionId::Organelles);
    crate::action::lemma_add_seq_props(v.active, ActionId::Nucleus);
    crate::action::lemma_add_seq_props(v.unlocks, ActionId::Nucleus);
    crate::action::lemma_add_seq_props(v.active, ActionId::EukaryoticCell);
    crate::action::lemma_add_seq_props(v.unlocks, ActionId::EukaryoticCell);
    crate::action::lemma_add_seq_props(v.active, ActionId::Mitochondria);
    crate::action::lemma_add_seq_props(v.unlocks, ActionId::Mitochondria);
    crate::action::lemma_add_seq_props(v.active, ActionId::SexualReproduction);
    crate::action::lemma_add_seq_props(v.unlocks, ActionId::SexualReproduction);
}

/// Law: the unlock-precondition sweep is idempotent with respect to
/// duplication. Running it twice in immediate succession without an
/// intervening state change never duplicates a catalog entry — every id
/// is offered at most once afterwards — and every id that was unlocked or
/// offered after the first sweep still is after the second.
pub proof fn lemma_unlock_idempotent(v: GameV)
    requires
        no_dups(v.active),
        no_dups(v.unlocks),
    ensures
        no_dups(spec_ladder(spec_ladder(v)).active),
        no_dups(spec_ladder(spec_ladder(v)).unlocks),
        forall|id: ActionId|
            spec_ladder(v).active.contains(id) ==> #[trigger] spec_ladder(
                spec_ladder(v),
            ).active.contains(id),
        forall|id: ActionId|
            spec_ladder(v).unlocks.contains(id) ==> #[trigger] spec_ladder(
                spec_ladder(v),
            ).unlocks.contains(id),
{
    lemma_ladder_props(v);
    lemma_ladder_props(spec_ladder(v));
}

/// Law: fork exclusivity. In every well-formed state at most one of the
/// three kingdom forks has been taken, and a taken fork leaves the other
/// two with their flags absent and their catalog entries withdrawn.
/// Every engine transition preserves well-formedness, so within a
/// session this lock-out is irreversible.
pub proof fn lemma_fork_exclusive(v: GameV)
    requires
        v.wf(),
    ensures
        v.evolution.phagocytosis == Some(true) ==> v.evolution.chloroplasts.is_none()
            && v.evolution.chitin.is_none() && !v.active.contains(ActionId::Chloroplasts)
            && !v.active.contains(ActionId::Chitin),
        v.evolution.chloroplasts == Some(true) ==> v.evolution.phagocytosis.is_none()
            && v.evolution.chitin.is_none() && !v.active.contains(ActionId::Phagocytosis)
            && !v.active.contains(ActionId::Chitin),
        v.evolution.chitin == Some(true) ==> v.evolution.phagocytosis.is_none()
            && v.evolution.chloroplasts.is_none() && !v.active.contains(ActionId::Phagocytosis)
            && !v.active.contains(ActionId::Chloroplasts),
        !(v.evolution.phagocytosis == Some(true) && v.evolution.chloroplasts == Some(true)),
        !(v.evolution.phagocytosis == Some(true) && v.evolution.chitin == Some(true)),
        !(v.evolution.chloroplasts == Some(true) && v.evolution.chitin == Some(true)),
{
}

/// Law: conservation on purchase. No action lists a resource twice, so
/// paying an affordable price list decreases each priced resource's
/// amount by exactly the line item that `cost` reported before the call,
/// and leaves every other resource untouched. A successful `execute`
/// ensures its ledger equals this payment (plus, for the two capacity
/// upgrades, a raised ceiling).
pub proof fn lemma_purchase_conservation(v: GameV, id: ActionId)
    requires
        v.wf(),
        spec_afford(v.resources, spec_costs(id, v.evolution)),
    ensures
        forall|i: int|
            0 <= i < spec_costs(id, v.evolution).len() ==> spec_pay(
                v.resources,
                spec_costs(id, v.evolution),
            ).spec_get(#[trigger] spec_costs(id, v.evolution)[i].resource).amount == v.resources.spec_get(
                spec_costs(id, v.evolution)[i].resource,
            ).amount - spec_costs(id, v.evolution)[i].amount,
        forall|rt: ResourceType|
            (forall|i: int|
                0 <= i < spec_costs(id, v.evolution).len() ==> spec_costs(id, v.evolution)[i].resource
                    != rt) ==> spec_pay(v.resources, spec_costs(id, v.evolution)).spec_get(rt)
                == v.resources.spec_get(rt),
{
    let costs = spec_costs(id, v.evolution);
    assert(costs.len() <= 2);
    assert(costs.len() == 2 ==> costs[0].resource == ResourceType::RNA && costs[1].resource
        == ResourceType::DNA);
    crate::resource::lemma_pay_exact(v.resources, costs);
}

/// Exactly when executing `id` succeeds: the action must be on offer and
/// its price affordable; the root actions also demand headroom in what
/// they produce, a repeatable upgrade demands its level bound, and the
/// bilateral-symmetry branch carries no content yet and is refused.
pub open spec fn spec_can_execute(v: GameV, id: ActionId) -> bool {
    match id {
        ActionId::Rna => v.active.contains(id) && v.resources.rna.amount < v.resources.rna.max,
        ActionId::Dna => v.active.contains(id) && v.resources.rna.amount >= 2 * UNIT
            && v.resources.dna.amount < v.resources.dna.max,
        ActionId::Membrane | ActionId::Organelles | ActionId::Nucleus | ActionId::EukaryoticCell
            | ActionId::Mitochondria => v.active.contains(id) && lvl_lt_limit(
            spec_count(id, v.evolution),
        ) && spec_afford(v.resources, spec_costs(id, v.evolution)),
        ActionId::BilateralSymmetry => false,
        _ => v.active.contains(id) && spec_afford(v.resources, spec_costs(id, v.evolution)),
    }
}

/// The state after a successful execution of every action but sentience
/// (whose outcome involves the generator; see `spec_sentience_ok`).
pub open spec fn spec_apply(v: GameV, id: ActionId) -> GameV {
    let e = v.evolution;
    let paid = spec_pay(v.resources, spec_costs(id, e));
    match id {
        ActionId::Rna => GameV {
            resources: Resources {
                rna: spec_modify(v.resources.rna, UNIT as int, true, false).0,
                ..v.resources
            },
            ..v
        },
        ActionId::Dna => {
            let rs1 = Resources {
                rna: spec_modify(v.resources.rna, -(2 * UNIT as int), true, false).0,
                ..v.resources
            };
            GameV {
                resources: Resources {
                    dna: spec_modify(rs1.dna, UNIT as int, true, false).0,
                    ..rs1
                },
                ..v
            }
        },
        ActionId::Membrane => GameV {
            resources: Resources {
                rna: Resource {
                    max: spec_cap_bump(paid.rna.max as int, spec_membrane_bonus(e)) as u64,
                    ..paid.rna
                },
                ..paid
            },
            evolution: Evolution { membrane: Some((level_or_zero(e.membrane) + 1) as u32), ..e },
            ..v
        },
        ActionId::Organelles => GameV {
            resources: paid,
            evolution: Evolution {
                organelles: Some((level_or_zero(e.organelles) + 1) as u32),
                ..e
            },
            ..v
        },
        ActionId::Nucleus => GameV {
            resources: paid,
            evolution: Evolution { nucleus: Some((level_or_zero(e.nucleus) + 1) as u32), ..e },
            ..v
        },
        ActionId::EukaryoticCell => GameV {
            resources: Resources {
                dna: Resource {
                    max: spec_cap_bump(paid.dna.max as int, spec_eukaryotic_bonus(e)) as u64,
                    ..paid.dna
                },
                ..paid
            },
            evolution: Evolution {
                eukaryotic_cell: Some((level_or_zero(e.eukaryotic_cell) + 1) as u32),
                ..e
            },
            ..v
        },
        ActionId::Mitochondria => GameV {
            resources: paid,
            evolution: Evolution {
                mitochondria: Some((level_or_zero(e.mitochondria) + 1) as u32),
                ..e
            },
            ..v
        },
        ActionId::SexualReproduction => GameV {
            resources: paid,
            evolution: Evolution {
                sexual_reproduction: Some(true),
                phagocytosis: Some(false),
                chloroplasts: Some(false),
                chitin: Some(false),
                progress: Some(20u32),
                ..e
            },
            active: spec_add_seq(
                spec_add_seq(
                    spec_add_seq(
                        remove_id(v.active, ActionId::SexualReproduction),
                        ActionId::Phagocytosis,
                    ),
                    ActionId::Chloroplasts,
                ),
                ActionId::Chitin,
            ),
            unlocks: spec_add_seq(
                spec_add_seq(
                    spec_add_seq(v.unlocks, ActionId::Phagocytosis),
                    ActionId::Chloroplasts,
                ),
                ActionId::Chitin,
            ),
            ..v
        },
        ActionId::Phagocytosis | ActionId::Chloroplasts | ActionId::Chitin => GameV {
            resources: paid,
            evolution: Evolution {
                phagocytosis: if id == ActionId::Phagocytosis {
                    Some(true)
                } else {
                    None
                },
                chloroplasts: if id == ActionId::Chloroplasts {
                    Some(true)
                } else {
                    None
                },
                chitin: if id == ActionId::Chitin {
                    Some(true)
                } else {
                    None
                },
                multicellular: Some(false),
                progress: Some(40u32),
                ..e
            },
            active: spec_add_seq(
                remove_id(
                    remove_id(remove_id(v.active, ActionId::Phagocytosis), ActionId::Chloroplasts),
                    ActionId::Chitin,
                ),
                ActionId::Multicellular,
            ),
            unlocks: spec_add_seq(v.unlocks, ActionId::Multicellular),
            ..v
        },
        ActionId::Multicellular => {
            let base = remove_id(v.active, ActionId::Multicellular);
            if e.phagocytosis.is_some() {
                GameV {
                    resources: paid,
                    evolution: Evolution {
                        multicellular: Some(true),
                        progress: Some(60u32),
                        bilateral_symmetry: Some(false),
                        ..e
                    },
                    active: spec_add_seq(base, ActionId::BilateralSymmetry),
                    unlocks: spec_add_seq(v.unlocks, ActionId::BilateralSymmetry),
                    ..v
                }
            } else if e.chloroplasts.is_some() {
                GameV {
                    resources: paid,
                    evolution: Evolution {
                        multicellular: Some(true),
                        progress: Some(60u32),
                        poikilohydric: Some(false),
                        ..e
                    },
                    active: spec_add_seq(base, ActionId::Poikilohydric),
                    unlocks: spec_add_seq(v.unlocks, ActionId::Poikilohydric),
                    ..v
                }
            } else if e.chitin.is_some() {
                GameV {
                    resources: paid,
                    evolution: Evolution {
                        multicellular: Some(true),
                        progress: Some(60u32),
                        spores: Some(false),
                        ..e
                    },
                    active: spec_add_seq(base, ActionId::Spores),
                    unlocks: spec_add_seq(v.unlocks, ActionId::Spores),
                    ..v
                }
            } else {
                GameV {
                    resources: paid,
                    evolution: Evolution { multicellular: Some(true), progress: Some(60u32), ..e },
                    active: base,
                    ..v
                }
            }
        },
        ActionId::Poikilohydric => GameV {
            resources: paid,
            evolution: Evolution {
                poikilohydric: Some(true),
                bryophyte: Some(false),
                progress: Some(80u32),
                ..e
            },
            active: spec_add_seq(remove_id(v.active, ActionId::Poikilohydric), ActionId::Bryophyte),
            unlocks: spec_add_seq(v.unlocks, ActionId::Bryophyte),
            ..v
        },
        ActionId::Spores => GameV {
            resources: paid,
            evolution: Evolution {
                spores: Some(true),
                bryophyte: Some(false),
                progress: Some(80u32),
                ..e
            },
            active: spec_add_seq(remove_id(v.active, ActionId::Spores), ActionId::Bryophyte),
            unlocks: spec_add_seq(v.unlocks, ActionId::Bryophyte),
            ..v
        },
        ActionId::Bryophyte => GameV {
            resources: paid,
            evolution: Evolution {
                bryophyte: Some(true),
                sentience: Some(false),
                progress: Some(100u32),
                ..e
            },
            active: spec_add_seq(remove_id(v.active, ActionId::Bryophyte), ActionId::Sentience),
            unlocks: spec_add_seq(v.unlocks, ActionId::Sentience),
            ..v
        },
        ActionId::BilateralSymmetry => v,
        ActionId::Sentience => v,
    }
}

/// What a successful sentience transition guarantees: the price paid, the
/// action withdrawn, the tree closed, both resources hidden, the stage
/// advanced, and the species drawn from the candidate set of the kingdom
/// branch that was taken.
pub open spec fn spec_sentience_ok(pre: GameV, post: GameV) -> bool {
    let paid = spec_pay(pre.resources, spec_costs(ActionId::Sentience, pre.evolution));
    &&& post.evolution == (Evolution { sentience: Some(true), ..pre.evolution })
    &&& post.active == remove_id(pre.active, ActionId::Sentience)
    &&& post.unlocks == pre.unlocks
    &&& post.stage == GameStage::Civilization
    &&& post.resources == (Resources {
        rna: Resource { visible: false, ..paid.rna },
        dna: Resource { visible: false, ..paid.dna },
    })
    &&& post.seed == pre.seed
    &&& (pre.evolution.chitin.is_some() ==> is_fungi_species(post.race.species))
    &&& (pre.evolution.chitin.is_none() ==> is_plant_species(post.race.species))
}

impl Game {
    /// A fresh game: empty ledger at starting caps, no tree progress, the
    /// base species, and only the root action on offer.
    pub fn new(seed: u64) -> (g: Game)
        ensures
            g@ == spec_new_game(seed),
            g@.wf(),
    {
        let mut actions = ActionHolder::new();
        actions.add(Category::Evolution, ActionId::Rna);
        let g = Game {
            seed,
            resources: Resources::new(),
            evolution: Evolution::new(),
            race: Race::default(),
            stage: GameStage::Evolution,
            actions,
            rng: rng_with_seed(seed),
        };
        proof {
            assert(g@.active =~= seq![ActionId::Rna]);
            assert(g@.unlocks =~= seq![ActionId::Rna]);
            assert(g@ =~= spec_new_game(seed));
        }
        g
    }

    /// The mid tick: recomputes both capacity ceilings from the current
    /// upgrade levels.
    pub fn mid_loop(&mut self)
        requires
            old(self)@.wf(),
        ensures
            final(self)@ == spec_mid_tick(old(self)@),
            final(self)@.wf(),
            final(self).rng == old(self).rng,
    {
        if self.race.species == Species::Protoplasm {
            let membrane_lvl: u64 = match self.evolution.membrane {
                Some(l) => l as u64,
                None => 0,
            };
            let euk_lvl: u64 = match self.evolution.eukaryotic_cell {
                Some(l) => l as u64,
                None => 0,
            };
            let mem_bonus: u64 = self.evolution.membrane_bonus();
            let euk_bonus: u64 = self.evolution.eukaryotic_bonus();
            proof {
                assert(membrane_lvl * mem_bonus <= 10_000_010_000_000 && membrane_lvl * mem_bonus
                    * UNIT <= 10_000_010_000_000_000) by (nonlinear_arith)
                    requires
                        membrane_lvl <= 1_000_000,
                        mem_bonus <= 10_000_010,
                        UNIT == 1000,
                ;
                assert(euk_lvl * euk_bonus <= 10_000_010_000_000 && euk_lvl * euk_bonus * UNIT
                    <= 10_000_010_000_000_000) by (nonlinear_arith)
                    requires
                        euk_lvl <= 1_000_000,
                        euk_bonus <= 10_000_010,
                        UNIT == 1000,
                ;
            }
            let raw_rna: u64 = START_CAP + membrane_lvl * mem_bonus * UNIT;
            let raw_dna: u64 = START_CAP + euk_lvl * euk_bonus * UNIT;
            let rna_max = if raw_rna > AMOUNT_LIMIT {
                AMOUNT_LIMIT
            } else {
                raw_rna
            };
            let dna_max = if raw_dna > AMOUNT_LIMIT {
                AMOUNT_LIMIT
            } else {
                raw_dna
            };
            self.resources.rna.max = rna_max;
            if self.resources.rna.amount > rna_max {
                self.resources.rna.amount = rna_max;
            }
            self.resources.dna.max = dna_max;
            if self.resources.dna.amount > dna_max {
                self.resources.dna.amount = dna_max;
            }
            proof {
                assert(self@ =~= spec_mid_tick(old(self)@));
            }
        }
    }

    fn produce_dna(&mut self)
        requires
            old(self)@.wf(),
        ensures
            final(self).resources == spec_dna_production(old(self).resources, old(self).evolution),
            final(self).resources.wf(),
            final(self).seed == old(self).seed,
            final(self).evolution == old(self).evolution,
            final(self).race == old(self).race,
            final(self).stage == old(self).stage,
            final(self).actions == old(self).actions,
            final(self).rng == old(self).rng,
    {
        match self.evolution.nucleus {
            Some(nuc) => {
                if self.resources.dna.amount < self.resources.dna.max {
                    let room: u64 = self.resources.rna.amount / (2 * UNIT);
                    let inc: u64 = if (nuc as u64) <= room {
                        nuc as u64
                    } else {
                        room
                    };
                    self.resources.modify(
                        ResourceType::DNA,
                        (inc * TICK_PARTS) as i64,
                        false,
                        false,
                    );
                    self.resources.modify(
                        ResourceType::RNA,
                        -((inc * 2 * TICK_PARTS) as i64),
                        false,
                        false,
                    );
                }
            },
            None => {},
        }
    }

    fn produce_rna(&mut self)
        requires
            old(self)@.wf(),
        ensures
            final(self).resources == spec_rna_production(old(self).resources, old(self).evolution),
            final(self).resources.wf(),
            final(self).seed == old(self).seed,
            final(self).evolution == old(self).evolution,
            final(self).race == old(self).race,
            final(self).stage == old(self).stage,
            final(self).actions == old(self).actions,
            final(self).rng == old(self).rng,
    {
        match self.evolution.organelles {
            Some(org) => {
                let mult: u64 = self.evolution.organelle_rate();
                proof {
                    assert(org * mult <= 2_000_000 && org * mult * TICK_PARTS
                        <= 500_000_000) by (nonlinear_arith)
                        requires
                            org <= 1_000_000,
                            mult <= 2,
                            TICK_PARTS == 250,
                    ;
                }
                let amt: u64 = (org as u64) * mult * TICK_PARTS;
                self.resources.modify(ResourceType::RNA, amt as i64, false, false);
            },
            None => {},
        }
    }

    /// The unlock sweep of the fast tick; see `spec_ladder`.
    #[verifier::rlimit(60)]
    fn check_unlocks(&mut self)
        requires
            old(self)@.wf(),
        ensures
            final(self)@ == spec_ladder(old(self)@),
            final(self)@.wf(),
            final(self).rng == old(self).rng,
    {
        let rna_amt = self.resources.rna.amount;
        let dna_amt = self.resources.dna.amount;
        let org_ge2 = match self.evolution.organelles {
            Some(c) => c >= 2,
            None => false,
        };
        let nuc_ge1 = match self.evolution.nucleus {
            Some(c) => c >= 1,
            None => false,
        };
        let euk_ge1 = match self.evolution.eukaryotic_cell {
            Some(c) => c >= 1,
            None => false,
        };
        let mito_ge1 = match self.evolution.mitochondria {
            Some(c) => c >= 1,
            None => false,
        };
        let sr_none = self.evolution.sexual_reproduction.is_none();
        if rna_amt >= 2 * UNIT && !self.actions.unlocked(ActionId::Dna) {
            self.actions.add(Category::Evolution, ActionId::Dna);
            self.resources.dna.visible = true;
        } else if rna_amt >= 10 * UNIT && !self.actions.unlocked(ActionId::Membrane) {
            self.actions.add(Category::Evolution, ActionId::Membrane);
            self.evolution.membrane = Some(0);
        } else if dna_amt >= 2 * UNIT && !self.actions.unlocked(ActionId::Organelles) {
            self.actions.add(Category::Evolution, ActionId::Organelles);
            self.evolution.organelles = Some(0);
        } else if org_ge2 && !self.actions.unlocked(ActionId::Nucleus) {
            self.actions.add(Category::Evolution, ActionId::Nucleus);
            self.evolution.nucleus = Some(0);
        } else if nuc_ge1 && !self.actions.unlocked(ActionId::EukaryoticCell) {
            self.actions.add(Category::Evolution, ActionId::EukaryoticCell);
            self.evolution.eukaryotic_cell = Some(0);
        } else if euk_ge1 && !self.actions.unlocked(ActionId::Mitochondria) {
            self.actions.add(Category::Evolution, ActionId::Mitochondria);
            self.evolution.mitochondria = Some(0);
        } else if mito_ge1 && sr_none {
            self.actions.add(Category::Evolution, ActionId::SexualReproduction);
            self.evolution.sexual_reproduction = Some(false);
        }
        proof {
            assert(self@ =~= spec_ladder(old(self)@));
        }
    }

    /// The fast tick: passive production, the unlock sweep, and the
    /// closing of the displayed-rate interval.
    pub fn fast_loop(&mut self)
        requires
            old(self)@.wf(),
        ensures
            final(self)@ == spec_fast_tick(old(self)@),
            final(self)@.wf(),
            final(self).rng == old(self).rng,
    {
        if self.race.species == Species::Protoplasm {
            self.produce_dna();
            self.produce_rna();
            proof {
                assert(self@.wf());
            }
            self.check_unlocks();
        }
        self.resources.recompute_rates(FAST_TICK_MS);
        proof {
            assert(self@ =~= spec_fast_tick(old(self)@));
        }
    }

    fn exec_rna(&mut self) -> (r: bool)
        requires
            old(self)@.wf(),
        ensures
            final(self)@.wf(),
            r == spec_can_execute(old(self)@, ActionId::Rna),
            !r ==> final(self)@ == old(self)@,
            r ==> final(self)@ == spec_apply(old(self)@, ActionId::Rna),
            final(self).rng == old(self).rng,
    {
        if !self.actions.is_active(ActionId::Rna) {
            return false;
        }
        if self.resources.rna.is_full() {
            return false;
        }
        self.resources.modify(ResourceType::RNA, UNIT as i64, true, false);
        proof {
            assert(self@ =~= spec_apply(old(self)@, ActionId::Rna));
        }
        true
    }

    fn exec_dna(&mut self) -> (r: bool)
        requires
            old(self)@.wf(),
        ensures
            final(self)@.wf(),
            r == spec_can_execute(old(self)@, ActionId::Dna),
            !r ==> final(self)@ == old(self)@,
            r ==> final(self)@ == spec_apply(old(self)@, ActionId::Dna),
            final(self).rng == old(self).rng,
    {
        if !self.actions.is_active(ActionId::Dna) {
            return false;
        }
        if self.resources.rna.amount < 2 * UNIT || self.resources.dna.is_full() {
            return false;
        }
        self.resources.modify(ResourceType::RNA, -((2 * UNIT) as i64), true, false);
        self.resources.modify(ResourceType::DNA, UNIT as i64, true, false);
        proof {
            assert(self@ =~= spec_apply(old(self)@, ActionId::Dna));
        }
        true
    }

    fn exec_upgrade(&mut self, id: ActionId) -> (r: bool)
        requires
            old(self)@.wf(),
            id == ActionId::Membrane || id == ActionId::Organelles || id == ActionId::Nucleus || id
                == ActionId::EukaryoticCell || id == ActionId::Mitochondria,
        ensures
            final(self)@.wf(),
            r == spec_can_execute(old(self)@, id),
            !r ==> final(self)@ == old(self)@,
            r ==> final(self)@ == spec_apply(old(self)@, id),
            final(self).rng == old(self).rng,
    {
        if !self.actions.is_active(id) {
            return false;
        }
        let lvl_opt: Option<u32> = id.count(&self.evolution);
        let lvl: u32 = match lvl_opt {
            Some(l) => l,
            None => {
                return false;
            },
        };
        if lvl >= LEVEL_LIMIT {
            return false;
        }
        let costs = id.cost(&self.evolution);
        if !self.resources.afford(&costs) {
            return false;
        }
        self.resources.pay(&costs);
        match id {
            ActionId::Membrane => {
                let bonus = self.evolution.membrane_bonus();
                let raw = self.resources.rna.max + bonus * UNIT;
                self.resources.rna.max = if raw > AMOUNT_LIMIT {
                    AMOUNT_LIMIT
                } else {
                    raw
                };
                self.evolution.membrane = Some(lvl + 1);
            },
            ActionId::Organelles => {
                self.evolution.organelles = Some(lvl + 1);
            },
            ActionId::Nucleus => {
                self.evolution.nucleus = Some(lvl + 1);
            },
            ActionId::EukaryoticCell => {
                self.evolution.eukaryotic_cell = Some(lvl + 1);
                let bonus = self.evolution.eukaryotic_bonus();
                let raw = self.resources.dna.max + bonus * UNIT;
                self.resources.dna.max = if raw > AMOUNT_LIMIT {
                    AMOUNT_LIMIT
                } else {
                    raw
                };
            },
            ActionId::Mitochondria => {
                self.evolution.mitochondria = Some(lvl + 1);
            },
            _ => {
                proof {
                    assert(false);
                }
            },
        }
        proof {
            assert(self@ =~= spec_apply(old(self)@, id));
        }
        true
    }

    fn exec_sexual_reproduction(&mut self) -> (r: bool)
        requires
            old(self)@.wf(),
        ensures
            final(self)@.wf(),
            r == spec_can_execute(old(self)@, ActionId::SexualReproduction),
            !r ==> final(self)@ == old(self)@,
            r ==> final(self)@ == spec_apply(old(self)@, ActionId::SexualReproduction),
            final(self).rng == old(self).rng,
    {
        if !self.actions.is_active(ActionId::SexualReproduction) {
            return false;
        }
        let costs = ActionId::SexualReproduction.cost(&self.evolution);
        if !self.resources.afford(&costs) {
            return false;
        }
        self.resources.pay(&costs);
        self.evolution.sexual_reproduction = Some(true);
        self.evolution.phagocytosis = Some(false);
        self.evolution.chloroplasts = Some(false);
        self.evolution.chitin = Some(false);
        self.actions.remove(Category::Evolution, ActionId::SexualReproduction);
        self.actions.add(Category::Evolution, ActionId::Phagocytosis);
        self.actions.add(Category::Evolution, ActionId::Chloroplasts);
        self.actions.add(Category::Evolution, ActionId::Chitin);
        self.evolution.progress = Some(20);
        proof {
            assert(self@ =~= spec_apply(old(self)@, ActionId::SexualReproduction));
        }
        true
    }

    fn exec_fork(&mut self, id: ActionId) -> (r: bool)
        requires
            old(self)@.wf(),
            id == ActionId::Phagocytosis || id == ActionId::Chloroplasts || id
                == ActionId::Chitin,
        ensures
            final(self)@.wf(),
            r == spec_can_execute(old(self)@, id),
            !r ==> final(self)@ == old(self)@,
            r ==> final(self)@ == spec_apply(old(self)@, id),
            final(self).rng == old(self).rng,
    {
        if !self.actions.is_active(id) {
            return false;
        }
        let costs = id.cost(&self.evolution);
        if !self.resources.afford(&costs) {
            return false;
        }
        self.resources.pay(&costs);
        self.actions.remove(Category::Evolution, ActionId::Phagocytosis);
        self.actions.remove(Category::Evolution, ActionId::Chloroplasts);
        self.actions.remove(Category::Evolution, ActionId::Chitin);
        self.actions.add(Category::Evolution, ActionId::Multicellular);
        match id {
            ActionId::Phagocytosis => {
                self.evolution.phagocytosis = Some(true);
                self.evolution.chloroplasts = None;
                self.evolution.chitin = None;
            },
            ActionId::Chloroplasts => {
                self.evolution.chloroplasts = Some(true);
                self.evolution.phagocytosis = None;
                self.evolution.chitin = None;
            },
            _ => {
                self.evolution.chitin = Some(true);
                self.evolution.phagocytosis = None;
                self.evolution.chloroplasts = None;
            },
        }
        self.evolution.multicellular = Some(false);
        self.evolution.progress = Some(40);
        proof {
            assert(self@ =~= spec_apply(old(self)@, id));
        }
        true
    }

    fn exec_multicellular(&mut self) -> (r: bool)
        requires
            old(self)@.wf(),
        ensures
            final(self)@.wf(),
            r == spec_can_execute(old(self)@, ActionId::Multicellular),
            !r ==> final(self)@ == old(self)@,
            r ==> final(self)@ == spec_apply(old(self)@, ActionId::Multicellular),
            final(self).rng == old(self).rng,
    {
        if !self.actions.is_active(ActionId::Multicellular) {
            return false;
        }
        let costs = ActionId::Multicellular.cost(&self.evolution);
        if !self.resources.afford(&costs) {
            return false;
        }
        self.resources.pay(&costs);
        self.actions.remove(Category::Evolution, ActionId::Multicellular);
        self.evolution.multicellular = Some(true);
        self.evolution.progress = Some(60);
        if self.evolution.phagocytosis.is_some() {
            self.actions.add(Category::Evolution, ActionId::BilateralSymmetry);
            self.evolution.bilateral_symmetry = Some(false);
        } else if self.evolution.chloroplasts.is_some() {
            self.actions.add(Category::Evolution, ActionId::Poikilohydric);
            self.evolution.poikilohydric = Some(false);
        } else if self.evolution.chitin.is_some() {
            self.actions.add(Category::Evolution, ActionId::Spores);
            self.evolution.spores = Some(false);
        }
        proof {
            assert(self@ =~= spec_apply(old(self)@, ActionId::Multicellular));
        }
        true
    }

    fn exec_kingdom(&mut self, id: ActionId) -> (r: bool)
        requires
            old(self)@.wf(),
            id == ActionId::Poikilohydric || id == ActionId::Spores,
        ensures
            final(self)@.wf(),
            r == spec_can_execute(old(self)@, id),
            !r ==> final(self)@ == old(self)@,
            r ==> final(self)@ == spec_apply(old(self)@, id),
            final(self).rng == old(self).rng,
    {
        if !self.actions.is_active(id) {
            return false;
        }
        let costs = id.cost(&self.evolution);
        if !self.resources.afford(&costs) {
            return false;
        }
        self.resources.pay(&costs);
        self.actions.remove(Category::Evolution, id);
        self.actions.add(Category::Evolution, ActionId::Bryophyte);
        match id {
            ActionId::Poikilohydric => {
                self.evolution.poikilohydric = Some(true);
            },
            _ => {
                self.evolution.spores = Some(true);
            },
        }
        self.evolution.bryophyte = Some(false);
        self.evolution.progress = Some(80);
        proof {
            assert(self@ =~= spec_apply(old(self)@, id));
        }
        true
    }

    fn exec_bryophyte(&mut self) -> (r: bool)
        requires
            old(self)@.wf(),
        ensures
            final(self)@.wf(),
            r == spec_can_execute(old(self)@, ActionId::Bryophyte),
            !r ==> final(self)@ == old(self)@,
            r ==> final(self)@ == spec_apply(old(self)@, ActionId::Bryophyte),
            final(self).rng == old(self).rng,
    {
        if !self.actions.is_active(ActionId::Bryophyte) {
            return false;
        }
        let costs = ActionId::Bryophyte.cost(&self.evolution);
        if !self.resources.afford(&costs) {
            return false;
        }
        self.resources.pay(&costs);
        self.actions.remove(Category::Evolution, ActionId::Bryophyte);
        self.actions.add(Category::Evolution, ActionId::Sentience);
        self.evolution.bryophyte = Some(true);
        self.evolution.progress = Some(100);
        self.evolution.sentience = Some(false);
        proof {
            assert(self@ =~= spec_apply(old(self)@, ActionId::Bryophyte));
        }
        true
    }

    fn exec_sentience(&mut self) -> (r: bool)
        requires
            old(self)@.wf(),
        ensures
            final(self)@.wf(),
            r == spec_can_execute(old(self)@, ActionId::Sentience),
            !r ==> final(self)@ == old(self)@ && final(self).rng == old(self).rng,
            r ==> spec_sentience_ok(old(self)@, final(self)@),
    {
        if !self.actions.is_active(ActionId::Sentience) {
            return false;
        }
        let costs = ActionId::Sentience.cost(&self.evolution);
        if !self.resources.afford(&costs) {
            return false;
        }
        self.resources.pay(&costs);
        self.actions.remove(Category::Evolution, ActionId::Sentience);
        self.evolution.sentience = Some(true);
        proof {
            // the tree invariant guarantees a plant or fungi branch below us
            assert(old(self)@.evolution.bryophyte == Some(true));
            assert(old(self)@.evolution.poikilohydric == Some(true) || old(
                self,
            )@.evolution.spores == Some(true));
            assert(self.evolution.chloroplasts == Some(true) || self.evolution.chitin == Some(
                true,
            ));
        }
        let species: Species = if self.evolution.chitin.is_some() {
            let k = rng_index(&mut self.rng, 3);
            if k == 0 {
                Species::Sporgar
            } else if k == 1 {
                Species::Shroomi
            } else {
                Species::Molding
            }
        } else {
            let k = rng_index(&mut self.rng, 3);
            if k == 0 {
                Species::Entish
            } else if k == 1 {
                Species::Cacti
            } else {
                Species::Pinguicula
            }
        };
        self.race.species = species;
        self.stage = GameStage::Civilization;
        self.resources.rna.visible = false;
        self.resources.dna.visible = false;
        true
    }

    /// Attempts the action `id` under the canonical purchase protocol:
    /// the price is computed against the current state, checked whole for
    /// affordability, and only then paid, after which the action's own
    /// state change and catalog transition apply. On any unmet condition
    /// nothing changes at all.
    pub fn execute(&mut self, id: ActionId) -> (r: bool)
        requires
            old(self)@.wf(),
        ensures
            final(self)@.wf(),
            r == spec_can_execute(old(self)@, id),
            !r ==> final(self)@ == old(self)@ && final(self).rng == old(self).rng,
            (r && id != ActionId::Sentience) ==> final(self)@ == spec_apply(old(self)@, id)
                && final(self).rng == old(self).rng,
            (r && id == ActionId::Sentience) ==> spec_sentience_ok(old(self)@, final(self)@),
    {
        match id {
            ActionId::Rna => self.exec_rna(),
            ActionId::Dna => self.exec_dna(),
            ActionId::Membrane | ActionId::Organelles | ActionId::Nucleus
                | ActionId::EukaryoticCell | ActionId::Mitochondria => self.exec_upgrade(id),
            ActionId::SexualReproduction => self.exec_sexual_reproduction(),
            ActionId::Phagocytosis | ActionId::Chloroplasts | ActionId::Chitin => self.exec_fork(
                id,
            ),
            ActionId::Multicellular => self.exec_multicellular(),
            // the animal kingdom carries no content yet: refused, not offered
            ActionId::BilateralSymmetry => false,
            ActionId::Poikilohydric | ActionId::Spores => self.exec_kingdom(id),
            ActionId::Bryophyte => self.exec_bryophyte(),
            ActionId::Sentience => self.exec_sentience(),
        }
    }
}

} // verus!
