use evolve_core::action::{ActionHolder, ActionId, Category};
use evolve_core::evolution::Evolution;
use evolve_core::resource::{ResourceType, UNIT};

fn occurrences(h: &ActionHolder, id: ActionId) -> usize {
    h.list(Category::Evolution).iter().filter(|&&x| x == id).count()
}

#[test]
fn add_offers_and_marks_unlocked() {
    let mut h = ActionHolder::new();
    h.add(Category::Evolution, ActionId::Rna);
    assert!(h.is_active(ActionId::Rna));
    assert!(h.unlocked(ActionId::Rna));
    assert_eq!(occurrences(&h, ActionId::Rna), 1);
}

#[test]
fn add_keeps_insertion_order() {
    let mut h = ActionHolder::new();
    h.add(Category::Evolution, ActionId::Rna);
    h.add(Category::Evolution, ActionId::Dna);
    h.add(Category::Evolution, ActionId::Membrane);
    let list = h.list(Category::Evolution);
    assert_eq!(list[0], ActionId::Rna);
    assert_eq!(list[1], ActionId::Dna);
    assert_eq!(list[2], ActionId::Membrane);
}

#[test]
fn remove_is_idempotent_and_keeps_unlocked() {
    let mut h = ActionHolder::new();
    h.add(Category::Evolution, ActionId::Rna);
    h.add(Category::Evolution, ActionId::Dna);
    h.remove(Category::Evolution, ActionId::Dna);
    assert!(!h.is_active(ActionId::Dna));
    // removing an id that is not present is a no-op
    h.remove(Category::Evolution, ActionId::Dna);
    assert!(!h.is_active(ActionId::Dna));
    // once unlocked, an id stays flagged even after removal
    assert!(h.unlocked(ActionId::Dna));
    assert!(h.is_active(ActionId::Rna));
}

#[test]
fn clear_resets_to_root() {
    let mut h = ActionHolder::new();
    h.add(Category::Evolution, ActionId::Rna);
    h.add(Category::Evolution, ActionId::Dna);
    h.add(Category::Evolution, ActionId::Membrane);
    h.clear();
    assert_eq!(h.list(Category::Evolution).len(), 1);
    assert!(h.is_active(ActionId::Rna));
    assert!(!h.unlocked(ActionId::Dna));
}

#[test]
fn dna_costs_two_rna() {
    let e = Evolution::new();
    let costs = ActionId::Dna.cost(&e);
    assert_eq!(costs.len(), 1);
    assert_eq!(costs[0].resource, ResourceType::RNA);
    assert_eq!(costs[0].amount, 2 * UNIT);
}

#[test]
fn membrane_cost_scales_with_level() {
    let mut e = Evolution::new();
    e.membrane = Some(0);
    let c0 = ActionId::Membrane.cost(&e);
    assert_eq!(c0[0].amount, 2 * UNIT);
    e.membrane = Some(3);
    let c3 = ActionId::Membrane.cost(&e);
    assert_eq!(c3[0].amount, 8 * UNIT);
}

#[test]
fn organelles_cost_two_resources() {
    let mut e = Evolution::new();
    e.organelles = Some(2);
    let c = ActionId::Organelles.cost(&e);
    assert_eq!(c.len(), 2);
    assert_eq!(c[0].resource, ResourceType::RNA);
    assert_eq!(c[0].amount, (2 * 8 + 12) * UNIT);
    assert_eq!(c[1].resource, ResourceType::DNA);
    assert_eq!(c[1].amount, (2 * 4 + 4) * UNIT);
}

#[test]
fn nucleus_cost_discounted_when_multicellular() {
    let mut e = Evolution::new();
    e.nucleus = Some(1);
    let full = ActionId::Nucleus.cost(&e);
    assert_eq!(full[0].amount, (32 + 38) * UNIT);
    assert_eq!(full[1].amount, (16 + 18) * UNIT);
    e.multicellular = Some(true);
    let cut = ActionId::Nucleus.cost(&e);
    assert_eq!(cut[0].amount, (16 + 38) * UNIT);
    assert_eq!(cut[1].amount, (12 + 18) * UNIT);
}

#[test]
fn mitochondria_and_eukaryotic_cost_formulas() {
    let mut e = Evolution::new();
    e.mitochondria = Some(1);
    let m = ActionId::Mitochondria.cost(&e);
    assert_eq!(m[0].amount, (50 + 75) * UNIT);
    assert_eq!(m[1].amount, (35 + 65) * UNIT);
    e.eukaryotic_cell = Some(2);
    let k = ActionId::EukaryoticCell.cost(&e);
    assert_eq!(k[0].amount, (2 * 20 + 20) * UNIT);
    assert_eq!(k[1].amount, (2 * 12 + 40) * UNIT);
}

#[test]
fn one_shot_prices() {
    let e = Evolution::new();
    assert_eq!(ActionId::SexualReproduction.cost(&e)[0].amount, 150 * UNIT);
    assert_eq!(ActionId::Chloroplasts.cost(&e)[0].amount, 175 * UNIT);
    assert_eq!(ActionId::Multicellular.cost(&e)[0].amount, 200 * UNIT);
    assert_eq!(ActionId::Poikilohydric.cost(&e)[0].amount, 230 * UNIT);
    assert_eq!(ActionId::Bryophyte.cost(&e)[0].amount, 260 * UNIT);
    let s = ActionId::Sentience.cost(&e);
    assert_eq!(s[0].amount, 300 * UNIT);
    assert_eq!(s[1].amount, 300 * UNIT);
    assert!(ActionId::Rna.cost(&e).is_empty());
}

#[test]
fn count_is_the_level_of_repeatables() {
    let mut e = Evolution::new();
    assert_eq!(ActionId::Membrane.count(&e), None);
    e.membrane = Some(4);
    assert_eq!(ActionId::Membrane.count(&e), Some(4));
    assert_eq!(ActionId::Sentience.count(&e), None);
}

#[test]
fn keys_and_effects() {
    assert_eq!(ActionId::Membrane.id_key(), "evolution-membrane");
    assert_eq!(ActionId::Rna.title(), "resource_RNA_name");
    assert_eq!(ActionId::Dna.description(), "evo_dna_desc");
    assert_eq!(ActionId::Rna.effect(), None);
    assert_eq!(ActionId::Spores.effect(), Some("evo_nucleus_boost"));

    let mut e = Evolution::new();
    assert_eq!(ActionId::Membrane.effect_value(&e), Some(5));
    e.mitochondria = Some(2);
    assert_eq!(ActionId::Membrane.effect_value(&e), Some(15));
    assert_eq!(ActionId::EukaryoticCell.effect_value(&e), Some(30));
    e.sexual_reproduction = Some(true);
    assert_eq!(ActionId::Organelles.effect_value(&e), Some(2));
    assert_eq!(ActionId::Nucleus.effect_value(&e), Some(1));
    assert_eq!(ActionId::Chitin.effect_value(&e), None);
}
