use evolve_core::action::{ActionId, Category};
use evolve_core::game::{Game, GameStage};
use evolve_core::race::Species;
use evolve_core::resource::UNIT;

fn occurrences(g: &Game, id: ActionId) -> usize {
    g.actions.list(Category::Evolution).iter().filter(|&&x| x == id).count()
}

/// Early game: two manual RNA productions reach RNA = 2, and the next
/// sweep offers the DNA action at its cost of 2 RNA.
#[test]
fn early_game_unlocks_dna_formation() {
    let mut g = Game::new(1);
    assert_eq!(occurrences(&g, ActionId::Rna), 1);
    assert_eq!(g.actions.list(Category::Evolution).len(), 1);

    assert!(g.execute(ActionId::Rna));
    assert!(g.execute(ActionId::Rna));
    assert_eq!(g.resources.rna.amount, 2 * UNIT);

    g.fast_loop();
    assert!(g.actions.is_active(ActionId::Dna));
    assert!(g.actions.unlocked(ActionId::Dna));
    assert_eq!(occurrences(&g, ActionId::Dna), 1);
    assert!(g.resources.dna.visible);
    let costs = ActionId::Dna.cost(&g.evolution);
    assert_eq!(costs[0].amount, 2 * UNIT);
}

/// Idempotent unlock: a second sweep without an intervening state change
/// leaves the catalog free of duplicates.
#[test]
fn unlock_sweep_never_duplicates() {
    let mut g = Game::new(1);
    g.resources.rna.amount = 2 * UNIT;
    g.fast_loop();
    g.fast_loop();
    assert_eq!(occurrences(&g, ActionId::Dna), 1);
    assert!(g.actions.unlocked(ActionId::Dna));
}

/// The rungs below the first fire on later sweeps once the first is
/// already unlocked.
#[test]
fn ladder_fires_one_rung_per_sweep() {
    let mut g = Game::new(1);
    g.resources.rna.amount = 10 * UNIT;
    g.fast_loop();
    assert!(g.actions.is_active(ActionId::Dna));
    assert!(!g.actions.is_active(ActionId::Membrane));
    g.resources.rna.amount = 10 * UNIT;
    g.fast_loop();
    assert!(g.actions.is_active(ActionId::Membrane));
    assert_eq!(g.evolution.membrane, Some(0));
}

/// Capacity growth: membrane level 2 with mitochondria unlocked at count
/// 0 yields an RNA cap of 110; after mitochondria reach level 1 the next
/// mid tick yields 120.
#[test]
fn capacity_growth_scales_with_mitochondria() {
    let mut g = Game::new(1);
    g.evolution.membrane = Some(2);
    g.evolution.mitochondria = Some(0);
    g.mid_loop();
    assert_eq!(g.resources.rna.max, 110 * UNIT);

    g.evolution.mitochondria = Some(1);
    g.mid_loop();
    assert_eq!(g.resources.rna.max, 120 * UNIT);
}

#[test]
fn dna_capacity_follows_eukaryotic_cells() {
    let mut g = Game::new(1);
    g.evolution.eukaryotic_cell = Some(3);
    g.mid_loop();
    assert_eq!(g.resources.dna.max, (100 + 3 * 10) * UNIT);
    g.evolution.mitochondria = Some(2);
    g.mid_loop();
    assert_eq!(g.resources.dna.max, (100 + 3 * 30) * UNIT);
}

/// Conservation on purchase: a successful execute subtracts exactly the
/// cost reported before the call, and nothing else.
#[test]
fn purchase_pays_exactly_the_reported_cost() {
    let mut g = Game::new(1);
    g.evolution.membrane = Some(1);
    g.actions.add(Category::Evolution, ActionId::Membrane);
    g.resources.rna.amount = 50 * UNIT;
    let cost_before = ActionId::Membrane.cost(&g.evolution)[0].amount;
    assert_eq!(cost_before, 4 * UNIT);

    assert!(g.execute(ActionId::Membrane));
    assert_eq!(g.resources.rna.amount, 50 * UNIT - cost_before);
    assert_eq!(g.evolution.membrane, Some(2));
    // the membrane purchase itself raises the RNA cap by its bonus
    assert_eq!(g.resources.rna.max, 100 * UNIT + 5 * UNIT);
    assert_eq!(g.resources.dna.amount, 0);
}

/// No partial payment: an unaffordable execute changes nothing at all.
#[test]
fn unaffordable_execute_is_a_no_op() {
    let mut g = Game::new(1);
    g.evolution.organelles = Some(0);
    g.actions.add(Category::Evolution, ActionId::Organelles);
    g.resources.rna.amount = 50 * UNIT;
    g.resources.dna.amount = 1 * UNIT;  // needs 4 DNA
    let before_rna = g.resources.rna.amount;
    let before_dna = g.resources.dna.amount;

    assert!(!g.execute(ActionId::Organelles));
    assert_eq!(g.resources.rna.amount, before_rna);
    assert_eq!(g.resources.dna.amount, before_dna);
    assert_eq!(g.evolution.organelles, Some(0));
}

#[test]
fn execute_refuses_actions_not_on_offer() {
    let mut g = Game::new(1);
    g.resources.dna.amount = 100 * UNIT;
    assert!(!g.execute(ActionId::SexualReproduction));
    assert_eq!(g.resources.dna.amount, 100 * UNIT);
}

#[test]
fn rna_action_respects_the_cap() {
    let mut g = Game::new(1);
    g.resources.rna.amount = g.resources.rna.max;
    assert!(!g.execute(ActionId::Rna));
    g.resources.rna.amount -= UNIT / 2;
    assert!(g.execute(ActionId::Rna));
    // the last half unit is clamped at the cap
    assert_eq!(g.resources.rna.amount, g.resources.rna.max);
}

#[test]
fn dna_action_converts_two_rna() {
    let mut g = Game::new(1);
    g.actions.add(Category::Evolution, ActionId::Dna);
    g.resources.rna.amount = 3 * UNIT;
    assert!(g.execute(ActionId::Dna));
    assert_eq!(g.resources.rna.amount, 1 * UNIT);
    assert_eq!(g.resources.dna.amount, 1 * UNIT);
}

/// Passive production: organelles generate RNA at level x multiplier per
/// second, applied over the quarter-second tick.
#[test]
fn organelles_produce_rna() {
    let mut g = Game::new(1);
    g.evolution.organelles = Some(3);
    g.fast_loop();
    assert_eq!(g.resources.rna.amount, 3 * 250);
    assert_eq!(g.resources.rna.rate, 3 * UNIT as i64);

    // the sexual reproduction branch doubles the multiplier
    let mut g2 = Game::new(1);
    g2.evolution.organelles = Some(3);
    g2.evolution.sexual_reproduction = Some(true);
    g2.fast_loop();
    assert_eq!(g2.resources.rna.amount, 3 * 2 * 250);
}

/// The nucleus converts RNA to DNA at 2:1, throttled down to what the
/// RNA on hand can pay.
#[test]
fn nucleus_converts_rna_to_dna() {
    let mut g = Game::new(1);
    g.evolution.nucleus = Some(2);
    g.resources.rna.amount = 10 * UNIT;
    g.fast_loop();
    assert_eq!(g.resources.dna.amount, 2 * 250);
    assert_eq!(g.resources.rna.amount, 10 * UNIT - 2 * 2 * 250);

    // throttled: 4 RNA only supports a conversion rate of 2 per second
    let mut g2 = Game::new(1);
    g2.evolution.nucleus = Some(5);
    g2.resources.rna.amount = 4 * UNIT;
    g2.fast_loop();
    assert_eq!(g2.resources.dna.amount, 2 * 250);
    assert_eq!(g2.resources.rna.amount, 4 * UNIT - 2 * 2 * 250);

    // skipped entirely while DNA is full
    let mut g3 = Game::new(1);
    g3.evolution.nucleus = Some(2);
    g3.resources.rna.amount = 10 * UNIT;
    g3.resources.dna.amount = g3.resources.dna.max;
    g3.fast_loop();
    assert_eq!(g3.resources.rna.amount, 10 * UNIT);
}

fn game_at_fork() -> Game {
    let mut g = Game::new(7);
    g.evolution.membrane = Some(5);
    g.evolution.organelles = Some(4);
    g.evolution.nucleus = Some(2);
    g.evolution.eukaryotic_cell = Some(1);
    g.evolution.mitochondria = Some(1);
    g.evolution.sexual_reproduction = Some(true);
    g.evolution.phagocytosis = Some(false);
    g.evolution.chloroplasts = Some(false);
    g.evolution.chitin = Some(false);
    g.evolution.progress = Some(20);
    g.actions.add(Category::Evolution, ActionId::Phagocytosis);
    g.actions.add(Category::Evolution, ActionId::Chloroplasts);
    g.actions.add(Category::Evolution, ActionId::Chitin);
    g.resources.dna.max = 5_000 * UNIT;
    g.resources.dna.amount = 2_000 * UNIT;
    g.resources.rna.max = 5_000 * UNIT;
    g.resources.rna.amount = 1_000 * UNIT;
    g
}

/// Fork lock-out: taking chloroplasts removes the sibling forks' catalog
/// entries, resets their flags to absent, and opens multicellular.
#[test]
fn fork_lock_out() {
    let mut g = game_at_fork();
    assert!(g.execute(ActionId::Chloroplasts));
    assert_eq!(g.evolution.chloroplasts, Some(true));
    assert_eq!(g.evolution.phagocytosis, None);
    assert_eq!(g.evolution.chitin, None);
    assert!(!g.actions.is_active(ActionId::Phagocytosis));
    assert!(!g.actions.is_active(ActionId::Chloroplasts));
    assert!(!g.actions.is_active(ActionId::Chitin));
    assert_eq!(g.evolution.multicellular, Some(false));
    assert!(g.actions.is_active(ActionId::Multicellular));
    assert_eq!(g.evolution.progress, Some(40));
    assert_eq!(g.resources.dna.amount, (2_000 - 175) * UNIT);
}

/// The plant path runs fork to sentience: each node withdraws itself,
/// opens its successor and advances the progress milestone.
#[test]
fn plant_path_to_sentience() {
    let mut g = game_at_fork();
    assert!(g.execute(ActionId::Chloroplasts));
    assert!(g.execute(ActionId::Multicellular));
    assert_eq!(g.evolution.multicellular, Some(true));
    assert_eq!(g.evolution.poikilohydric, Some(false));
    assert!(g.actions.is_active(ActionId::Poikilohydric));
    assert_eq!(g.evolution.progress, Some(60));

    assert!(g.execute(ActionId::Poikilohydric));
    assert_eq!(g.evolution.poikilohydric, Some(true));
    assert_eq!(g.evolution.bryophyte, Some(false));
    assert!(g.actions.is_active(ActionId::Bryophyte));
    assert_eq!(g.evolution.progress, Some(80));

    assert!(g.execute(ActionId::Bryophyte));
    assert_eq!(g.evolution.bryophyte, Some(true));
    assert_eq!(g.evolution.sentience, Some(false));
    assert!(g.actions.is_active(ActionId::Sentience));
    assert_eq!(g.evolution.progress, Some(100));
}

/// Sentience on the plant branch picks a plant species, never a fungi or
/// animal one, and closes the evolution stage.
#[test]
fn sentience_species_pick_plant() {
    let mut g = game_at_fork();
    assert!(g.execute(ActionId::Chloroplasts));
    assert!(g.execute(ActionId::Multicellular));
    assert!(g.execute(ActionId::Poikilohydric));
    assert!(g.execute(ActionId::Bryophyte));
    let before = g.resources.dna.amount;
    assert!(g.execute(ActionId::Sentience));
    assert!(matches!(
        g.race.species,
        Species::Entish | Species::Cacti | Species::Pinguicula
    ));
    assert_eq!(g.evolution.sentience, Some(true));
    assert!(!g.actions.is_active(ActionId::Sentience));
    assert!(matches!(g.stage, GameStage::Civilization));
    assert!(!g.resources.rna.visible);
    assert!(!g.resources.dna.visible);
    assert_eq!(g.resources.dna.amount, before - 300 * UNIT);
}

/// Sentience on the fungi branch picks a fungi species.
#[test]
fn sentience_species_pick_fungi() {
    let mut g = game_at_fork();
    assert!(g.execute(ActionId::Chitin));
    assert!(g.execute(ActionId::Multicellular));
    assert_eq!(g.evolution.spores, Some(false));
    assert!(g.execute(ActionId::Spores));
    assert!(g.execute(ActionId::Bryophyte));
    assert!(g.execute(ActionId::Sentience));
    assert!(matches!(
        g.race.species,
        Species::Sporgar | Species::Shroomi | Species::Molding
    ));
}

/// The animal kingdom branch carries no content and is refused.
#[test]
fn bilateral_symmetry_is_refused() {
    let mut g = game_at_fork();
    assert!(g.execute(ActionId::Phagocytosis));
    assert!(g.execute(ActionId::Multicellular));
    assert_eq!(g.evolution.bilateral_symmetry, Some(false));
    assert!(g.actions.is_active(ActionId::BilateralSymmetry));
    let before = g.resources.dna.amount;
    assert!(!g.execute(ActionId::BilateralSymmetry));
    assert_eq!(g.resources.dna.amount, before);
}

/// Organic early game, driven only through the public protocol: manual
/// production, sweeps, and purchases, with every milestone checked.
#[test]
fn early_game_played_through() {
    let mut g = Game::new(3);
    for _ in 0..2 {
        assert!(g.execute(ActionId::Rna));
    }
    g.fast_loop();
    assert!(g.actions.is_active(ActionId::Dna));

    for _ in 0..8 {
        assert!(g.execute(ActionId::Rna));
    }
    assert_eq!(g.resources.rna.amount, 10 * UNIT);
    g.fast_loop();
    assert!(g.actions.is_active(ActionId::Membrane));
    assert_eq!(g.evolution.membrane, Some(0));

    // first membrane: 2 RNA, and the cap rises by the base bonus of 5
    assert!(g.execute(ActionId::Membrane));
    assert_eq!(g.evolution.membrane, Some(1));
    assert_eq!(g.resources.rna.amount, 8 * UNIT);
    assert_eq!(g.resources.rna.max, 105 * UNIT);

    // form DNA twice to reach the organelles rung
    assert!(g.execute(ActionId::Dna));
    assert!(g.execute(ActionId::Dna));
    assert_eq!(g.resources.rna.amount, 4 * UNIT);
    assert_eq!(g.resources.dna.amount, 2 * UNIT);
    g.fast_loop();
    assert!(g.actions.is_active(ActionId::Organelles));
    assert_eq!(g.evolution.organelles, Some(0));

    // organelles want 12 RNA and 4 DNA: not affordable yet, so a no-op
    assert!(!g.execute(ActionId::Organelles));
    assert_eq!(g.evolution.organelles, Some(0));
    assert_eq!(g.resources.rna.amount, 4 * UNIT);
    assert_eq!(g.resources.dna.amount, 2 * UNIT);
}

fn plant_species_for_seed(seed: u64) -> Species {
    let mut g = game_at_fork();
    g.rng = {
        let fresh = Game::new(seed);
        fresh.rng
    };
    assert!(g.execute(ActionId::Chloroplasts));
    assert!(g.execute(ActionId::Multicellular));
    assert!(g.execute(ActionId::Poikilohydric));
    assert!(g.execute(ActionId::Bryophyte));
    assert!(g.execute(ActionId::Sentience));
    g.race.species
}

/// The species draw really depends on the generator: across seeds it
/// covers more than one candidate, and for one seed it is deterministic.
#[test]
fn species_pick_uses_the_seeded_generator() {
    let mut seen = Vec::new();
    for seed in 0..32u64 {
        let s = plant_species_for_seed(seed);
        assert!(matches!(s, Species::Entish | Species::Cacti | Species::Pinguicula));
        if !seen.contains(&s) {
            seen.push(s);
        }
    }
    assert!(seen.len() >= 2);
    assert_eq!(plant_species_for_seed(11), plant_species_for_seed(11));
}

#[test]
fn new_game_starts_clean() {
    let g = Game::new(42);
    assert_eq!(g.seed, 42);
    assert!(matches!(g.stage, GameStage::Evolution));
    assert!(matches!(g.race.species, Species::Protoplasm));
    assert_eq!(g.evolution.membrane, None);
    assert_eq!(g.evolution.progress, None);
}
