//! The action catalog: the closed set of purchasable actions, the live
//! registry of which of them are currently offered (grouped by category,
//! insertion order is display order), and the per-action cost, count and
//! effect tables that the interface queries every frame.

use vstd::prelude::*;

use crate::evolution::{
    level_or_zero, spec_eukaryotic_bonus, spec_membrane_bonus, spec_organelle_rate, Evolution,
};
use crate::resource::{Cost, ResourceType, UNIT};

verus! {

#[derive(Clone, Copy, PartialEq, Eq, Structural, Debug)]
pub enum Category {
    Evolution,
}

/// Every distinct action of the progression tree, one tag per node.
#[derive(Clone, Copy, PartialEq, Eq, Structural, Debug)]
pub enum ActionId {
    Rna,
    Dna,
    Membrane,
    Organelles,
    Nucleus,
    EukaryoticCell,
    Mitochondria,
    SexualReproduction,
    Phagocytosis,
    Chloroplasts,
    Chitin,
    Multicellular,
    BilateralSymmetry,
    Poikilohydric,
    Spores,
    Bryophyte,
    Sentience,
}

pub open spec fn no_dups(s: Seq<ActionId>) -> bool {
    forall|i: int, j: int| 0 <= i < j < s.len() ==> s[i] != s[j]
}

/// Appending an id that is not yet present; a present id is left alone,
/// so the registry never holds an entry twice.
pub open spec fn spec_add_seq(s: Seq<ActionId>, id: ActionId) -> Seq<ActionId> {
    if s.contains(id) {
        s
    } else {
        s.push(id)
    }
}

/// The order-preserving removal of every entry equal to `id`.
pub open spec fn remove_id(s: Seq<ActionId>, id: ActionId) -> Seq<ActionId>
    decreases s.len(),
{
    if s.len() == 0 {
        s
    } else if s.last() == id {
        remove_id(s.drop_last(), id)
    } else {
        remove_id(s.drop_last(), id).push(s.last())
    }
}

pub proof fn lemma_push_contains(s: Seq<ActionId>, e: ActionId, x: ActionId)
    ensures
        s.push(e).contains(x) == (s.contains(x) || x == e),
{
    if s.contains(x) {
        let i = choose|i: int| 0 <= i < s.len() && s[i] == x;
        assert(s.push(e)[i] == x);
    }
    if x == e {
        assert(s.push(e)[s.len() as int] == x);
    }
    if s.push(e).contains(x) {
        let i = choose|i: int| 0 <= i < s.push(e).len() && s.push(e)[i] == x;
        if i < s.len() {
            assert(s[i] == x);
        }
    }
}

pub proof fn lemma_remove_id(s: Seq<ActionId>, id: ActionId)
    ensures
        !remove_id(s, id).contains(id),
        forall|x: ActionId| x != id ==> remove_id(s, id).contains(x) == s.contains(x),
        no_dups(s) ==> no_dups(remove_id(s, id)),
        remove_id(s, id).len() <= s.len(),
    decreases s.len(),
{
    if s.len() == 0 {
    } else {
        let pre = s.drop_last();
        lemma_remove_id(pre, id);
        assert(pre.push(s.last()) =~= s);
        assert forall|x: ActionId| #[trigger] s.contains(x) implies pre.contains(x) || x
            == s.last() by {
            lemma_push_contains(pre, s.last(), x);
        }
        assert forall|x: ActionId| pre.contains(x) || x == s.last() implies #[trigger] s.contains(
            x,
        ) by {
            lemma_push_contains(pre, s.last(), x);
        }
        if s.last() == id {
            assert(remove_id(s, id) == remove_id(pre, id));
        } else {
            let rd = remove_id(pre, id);
            assert(remove_id(s, id) == rd.push(s.last()));
            assert forall|x: ActionId| true implies #[trigger] rd.push(s.last()).contains(x) == (
            rd.contains(x) || x == s.last()) by {
                lemma_push_contains(rd, s.last(), x);
            }
            if no_dups(s) {
                assert(no_dups(pre));
                assert(!pre.contains(s.last())) by {
                    if pre.contains(s.last()) {
                        let i = choose|i: int| 0 <= i < pre.len() && pre[i] == s.last();
                        assert(s[i] == s[s.len() - 1]);
                    }
                }
                assert(!rd.contains(s.last()));
                assert forall|i: int, j: int|
                    0 <= i < j < rd.push(s.last()).len() implies rd.push(s.last())[i] != rd.push(
                    s.last(),
                )[j] by {
                    if j < rd.len() {
                    } else {
                        assert(rd.contains(rd[i]));
                    }
                }
            }
        }
    }
}

pub proof fn lemma_add_seq_props(s: Seq<ActionId>, id: ActionId)
    ensures
        forall|x: ActionId|
            #[trigger] spec_add_seq(s, id).contains(x) == (s.contains(x) || x == id),
        no_dups(s) ==> no_dups(spec_add_seq(s, id)),
        spec_add_seq(s, id).contains(id),
{
    assert forall|x: ActionId| true implies #[trigger] spec_add_seq(s, id).contains(x) == (
    s.contains(x) || x == id) by {
        lemma_push_contains(s, id, x);
    }
    if no_dups(s) && !s.contains(id) {
        assert forall|i: int, j: int|
            0 <= i < j < spec_add_seq(s, id).len() implies spec_add_seq(s, id)[i] != spec_add_seq(
            s,
            id,
        )[j] by {
            if j < s.len() {
            } else {
                assert(s.contains(s[i]));
            }
        }
    }
}

/// The live registry of currently purchasable actions, plus the set of
/// ids that were ever unlocked (an id stays in that set even after its
/// entry leaves the active list).
#[derive(Debug)]
pub struct ActionHolder {
    pub active: Vec<ActionId>,
    pub unlocks: Vec<ActionId>,
}

fn vec_contains(v: &Vec<ActionId>, id: ActionId) -> (r: bool)
    ensures
        r == v@.contains(id),
{
    let mut i: usize = 0;
    while i < v.len()
        invariant
            0 <= i <= v@.len(),
            forall|j: int| 0 <= j < i ==> v@[j] != id,
        decreases v@.len() - i,
    {
        if v[i] == id {
            assert(v@[i as int] == id);
            return true;
        }
        i += 1;
    }
    false
}

impl ActionHolder {
    pub open spec fn wf(self) -> bool {
        no_dups(self.active@) && no_dups(self.unlocks@)
    }

    /// Whether `id` has ever been unlocked.
    pub open spec fn spec_unlocked(self, id: ActionId) -> bool {
        self.unlocks@.contains(id)
    }

    /// Whether `id` is currently offered.
    pub open spec fn spec_active(self, id: ActionId) -> bool {
        self.active@.contains(id)
    }

    pub fn new() -> (h: ActionHolder)
        ensures
            h.active@.len() == 0,
            h.unlocks@.len() == 0,
            h.wf(),
    {
        ActionHolder { active: Vec::new(), unlocks: Vec::new() }
    }

    /// Offers `id` (appended, so display order is unlock order) and marks
    /// it as ever unlocked. An id that is already offered is not
    /// duplicated.
    pub fn add(&mut self, _category: Category, id: ActionId)
        requires
            old(self).wf(),
        ensures
            final(self).active@ == spec_add_seq(old(self).active@, id),
            final(self).unlocks@ == spec_add_seq(old(self).unlocks@, id),
            final(self).wf(),
            forall|x: ActionId|
                #[trigger] final(self).active@.contains(x) == (old(self).active@.contains(x) || x
                    == id),
            forall|x: ActionId|
                #[trigger] final(self).unlocks@.contains(x) == (old(self).unlocks@.contains(x) || x
                    == id),
    {
        let ghost old_active = self.active@;
        let ghost old_unlocks = self.unlocks@;
        if !vec_contains(&self.active, id) {
            self.active.push(id);
        }
        if !vec_contains(&self.unlocks, id) {
            self.unlocks.push(id);
        }
        proof {
            assert forall|x: ActionId| true implies #[trigger] self.active@.contains(x) == (
            old_active.contains(x) || x == id) by {
                lemma_push_contains(old_active, id, x);
            }
            assert forall|x: ActionId| true implies #[trigger] self.unlocks@.contains(x) == (
            old_unlocks.contains(x) || x == id) by {
                lemma_push_contains(old_unlocks, id, x);
            }
            if !old_active.contains(id) {
                assert forall|i: int, j: int|
                    0 <= i < j < self.active@.len() implies self.active@[i] != self.active@[j] by {
                    if j < old_active.len() {
                    } else {
                        assert(old_active.contains(old_active[i]));
                    }
                }
            }
            if !old_unlocks.contains(id) {
                assert forall|i: int, j: int|
                    0 <= i < j < self.unlocks@.len() implies self.unlocks@[i]
                    != self.unlocks@[j] by {
                    if j < old_unlocks.len() {
                    } else {
                        assert(old_unlocks.contains(old_unlocks[i]));
                    }
                }
            }
        }
    }

    /// Withdraws every offered entry matching `id`; removing an id that is
    /// not offered is a no-op. The ever-unlocked set keeps the id.
    pub fn remove(&mut self, _category: Category, id: ActionId)
        requires
            old(self).wf(),
        ensures
            final(self).active@ == remove_id(old(self).active@, id),
            final(self).unlocks@ == old(self).unlocks@,
            final(self).wf(),
            !final(self).active@.contains(id),
            forall|x: ActionId|
                x != id ==> #[trigger] final(self).active@.contains(x) == old(
                    self,
                ).active@.contains(x),
    {
        let mut kept: Vec<ActionId> = Vec::new();
        let mut i: usize = 0;
        while i < self.active.len()
            invariant
                0 <= i <= self.active@.len(),
                *self == *old(self),
                kept@ == remove_id(self.active@.subrange(0, i as int), id),
            decreases self.active@.len() - i,
        {
            proof {
                let pre = self.active@.subrange(0, i as int);
                let cur = self.active@.subrange(0, i + 1);
                assert(cur.drop_last() =~= pre);
                assert(cur.last() == self.active@[i as int]);
            }
            let x = self.active[i];
            if x != id {
                kept.push(x);
            }
            i += 1;
        }
        proof {
            assert(self.active@.subrange(0, self.active@.len() as int) =~= self.active@);
            lemma_remove_id(old(self).active@, id);
        }
        self.active = kept;
    }

    /// Resets the registry to the single root action.
    pub fn clear(&mut self)
        ensures
            final(self).active@ == seq![ActionId::Rna],
            final(self).unlocks@ == seq![ActionId::Rna],
            final(self).wf(),
    {
        let mut active: Vec<ActionId> = Vec::new();
        active.push(ActionId::Rna);
        let mut unlocks: Vec<ActionId> = Vec::new();
        unlocks.push(ActionId::Rna);
        self.active = active;
        self.unlocks = unlocks;
        proof {
            assert(self.active@ =~= seq![ActionId::Rna]);
            assert(self.unlocks@ =~= seq![ActionId::Rna]);
        }
    }

    /// Membership in the ever-unlocked set.
    pub fn unlocked(&self, id: ActionId) -> (r: bool)
        ensures
            r == self.spec_unlocked(id),
    {
        vec_contains(&self.unlocks, id)
    }

    /// Whether `id` is currently offered for purchase.
    pub fn is_active(&self, id: ActionId) -> (r: bool)
        ensures
            r == self.spec_active(id),
    {
        vec_contains(&self.active, id)
    }

    /// The ordered list of currently offered actions in a category.
    pub fn list(&self, _category: Category) -> (r: &Vec<ActionId>)
        ensures
            r@ == self.active@,
    {
        &self.active
    }
}

/// One line item of `units` whole resource units.
pub open spec fn line(rt: ResourceType, units: int) -> Cost {
    Cost { resource: rt, amount: (units * UNIT) as u64 }
}

/// The price list of an action against the given progression state, in
/// fixed-point parts. Repeatable upgrades grow linearly with their own
/// level; a locked upgrade prices as level zero.
pub open spec fn spec_costs(id: ActionId, evo: Evolution) -> Seq<Cost> {
    match id {
        ActionId::Rna => Seq::empty(),
        ActionId::Dna => seq![line(ResourceType::RNA, 2)],
        ActionId::Membrane => seq![line(ResourceType::RNA, level_or_zero(evo.membrane) * 2 + 2)],
        ActionId::Organelles => seq![
            line(ResourceType::RNA, level_or_zero(evo.organelles) * 8 + 12),
            line(ResourceType::DNA, level_or_zero(evo.organelles) * 4 + 4),
        ],
        ActionId::Nucleus => {
            let multi = evo.multicellular == Some(true);
            seq![
                line(
                    ResourceType::RNA,
                    level_or_zero(evo.nucleus) * (if multi {
                        16int
                    } else {
                        32int
                    }) + 38,
                ),
                line(
                    ResourceType::DNA,
                    level_or_zero(evo.nucleus) * (if multi {
                        12int
                    } else {
                        16int
                    }) + 18,
                ),
            ]
        },
        ActionId::EukaryoticCell => seq![
            line(ResourceType::RNA, level_or_zero(evo.eukaryotic_cell) * 20 + 20),
            line(ResourceType::DNA, level_or_zero(evo.eukaryotic_cell) * 12 + 40),
        ],
        ActionId::Mitochondria => seq![
            line(ResourceType::RNA, level_or_zero(evo.mitochondria) * 50 + 75),
            line(ResourceType::DNA, level_or_zero(evo.mitochondria) * 35 + 65),
        ],
        ActionId::SexualReproduction => seq![line(ResourceType::DNA, 150)],
        ActionId::Phagocytosis => seq![line(ResourceType::DNA, 175)],
        ActionId::Chloroplasts => seq![line(ResourceType::DNA, 175)],
        ActionId::Chitin => seq![line(ResourceType::DNA, 175)],
        ActionId::Multicellular => seq![line(ResourceType::DNA, 200)],
        ActionId::BilateralSymmetry => seq![line(ResourceType::DNA, 230)],
        ActionId::Poikilohydric => seq![line(ResourceType::DNA, 230)],
        ActionId::Spores => seq![line(ResourceType::DNA, 230)],
        ActionId::Bryophyte => seq![line(ResourceType::DNA, 260)],
        ActionId::Sentience => seq![
            line(ResourceType::RNA, 300),
            line(ResourceType::DNA, 300),
        ],
    }
}

/// The owned count shown on a repeatable upgrade: its level, once
/// unlocked. One-shot actions have none.
pub open spec fn spec_count(id: ActionId, evo: Evolution) -> Option<u32> {
    match id {
        ActionId::Membrane => evo.membrane,
        ActionId::Organelles => evo.organelles,
        ActionId::Nucleus => evo.nucleus,
        ActionId::EukaryoticCell => evo.eukaryotic_cell,
        ActionId::Mitochondria => evo.mitochondria,
        _ => None,
    }
}

impl ActionId {
    fn level_of(self, evo: &Evolution) -> (r: u64)
        ensures
            r == match self {
                ActionId::Membrane => level_or_zero(evo.membrane),
                ActionId::Organelles => level_or_zero(evo.organelles),
                ActionId::Nucleus => level_or_zero(evo.nucleus),
                ActionId::EukaryoticCell => level_or_zero(evo.eukaryotic_cell),
                ActionId::Mitochondria => level_or_zero(evo.mitochondria),
                _ => 0int,
            },
            r <= u32::MAX,
    {
        let lv: Option<u32> = match self {
            ActionId::Membrane => evo.membrane,
            ActionId::Organelles => evo.organelles,
            ActionId::Nucleus => evo.nucleus,
            ActionId::EukaryoticCell => evo.eukaryotic_cell,
            ActionId::Mitochondria => evo.mitochondria,
            _ => None,
        };
        match lv {
            Some(x) => x as u64,
            None => 0,
        }
    }

    /// The current price list of this action, evaluated freshly against
    /// the given progression state; free actions price as the empty list.
    pub fn cost(self, evo: &Evolution) -> (r: Vec<Cost>)
        ensures
            r@ == spec_costs(self, *evo),
    {
        let mut v: Vec<Cost> = Vec::new();
        let l = self.level_of(evo);
        match self {
            ActionId::Rna => {},
            ActionId::Dna => {
                v.push(Cost { resource: ResourceType::RNA, amount: 2 * UNIT });
            },
            ActionId::Membrane => {
                v.push(Cost { resource: ResourceType::RNA, amount: (l * 2 + 2) * UNIT });
            },
            ActionId::Organelles => {
                v.push(Cost { resource: ResourceType::RNA, amount: (l * 8 + 12) * UNIT });
                v.push(Cost { resource: ResourceType::DNA, amount: (l * 4 + 4) * UNIT });
            },
            ActionId::Nucleus => {
                let (rna_m, dna_m): (u64, u64) = if evo.multicellular == Some(true) {
                    (16, 12)
                } else {
                    (32, 16)
                };
                v.push(Cost { resource: ResourceType::RNA, amount: (l * rna_m + 38) * UNIT });
                v.push(Cost { resource: ResourceType::DNA, amount: (l * dna_m + 18) * UNIT });
            },
            ActionId::EukaryoticCell => {
                v.push(Cost { resource: ResourceType::RNA, amount: (l * 20 + 20) * UNIT });
                v.push(Cost { resource: ResourceType::DNA, amount: (l * 12 + 40) * UNIT });
            },
            ActionId::Mitochondria => {
                v.push(Cost { resource: ResourceType::RNA, amount: (l * 50 + 75) * UNIT });
                v.push(Cost { resource: ResourceType::DNA, amount: (l * 35 + 65) * UNIT });
            },
            ActionId::SexualReproduction => {
                v.push(Cost { resource: ResourceType::DNA, amount: 150 * UNIT });
            },
            ActionId::Phagocytosis | ActionId::Chloroplasts | ActionId::Chitin => {
                v.push(Cost { resource: ResourceType::DNA, amount: 175 * UNIT });
            },
            ActionId::Multicellular => {
                v.push(Cost { resource: ResourceType::DNA, amount: 200 * UNIT });
            },
            ActionId::BilateralSymmetry | ActionId::Poikilohydric | ActionId::Spores => {
                v.push(Cost { resource: ResourceType::DNA, amount: 230 * UNIT });
            },
            ActionId::Bryophyte => {
                v.push(Cost { resource: ResourceType::DNA, amount: 260 * UNIT });
            },
            ActionId::Sentience => {
                v.push(Cost { resource: ResourceType::RNA, amount: 300 * UNIT });
                v.push(Cost { resource: ResourceType::DNA, amount: 300 * UNIT });
            },
        }
        proof {
            assert(v@ =~= spec_costs(self, *evo));
        }
        v
    }

    /// The owned count to display beside the action, if it is repeatable.
    pub fn count(self, evo: &Evolution) -> (r: Option<u32>)
        ensures
            r == spec_count(self, *evo),
    {
        match self {
            ActionId::Membrane => evo.membrane,
            ActionId::Organelles => evo.organelles,
            ActionId::Nucleus => evo.nucleus,
            ActionId::EukaryoticCell => evo.eukaryotic_cell,
            ActionId::Mitochondria => evo.mitochondria,
            _ => None,
        }
    }

    /// The stable unique key of this action, namespaced by category.
    pub fn id_key(self) -> (r: &'static str)
        ensures
            r@ == spec_id_key(self),
    {
        match self {
            ActionId::Rna => "evolution-rna",
            ActionId::Dna => "evolution-dna",
            ActionId::Membrane => "evolution-membrane",
            ActionId::Organelles => "evolution-organelles",
            ActionId::Nucleus => "evolution-nucleus",
            ActionId::EukaryoticCell => "evolution-eukaryotic_cell",
            ActionId::Mitochondria => "evolution-mitochondria",
            ActionId::SexualReproduction => "evolution-sexual_reproduction",
            ActionId::Phagocytosis => "evolution-phagocytosis",
            ActionId::Chloroplasts => "evolution-chloroplasts",
            ActionId::Chitin => "evolution-chitin",
            ActionId::Multicellular => "evolution-multicellular",
            ActionId::BilateralSymmetry => "evolution-bilateral_symmetry",
            ActionId::Poikilohydric => "evolution-poikilohydric",
            ActionId::Spores => "evolution-spores",
            ActionId::Bryophyte => "evolution-bryophyte",
            ActionId::Sentience => "evolution-sentience",
        }
    }

    /// The localization key of the action's display title.
    pub fn title(self) -> (r: &'static str)
        ensures
            r@ == spec_title_key(self),
    {
        match self {
            ActionId::Rna => "resource_RNA_name",
            ActionId::Dna => "evo_dna_title",
            ActionId::Membrane => "evo_membrane_title",
            ActionId::Organelles => "evo_organelles_title",
            ActionId::Nucleus => "evo_nucleus_title",
            ActionId::EukaryoticCell => "evo_eukaryotic_title",
            ActionId::Mitochondria => "evo_mitochondria_title",
            ActionId::SexualReproduction => "evo_sexual_reproduction_title",
            ActionId::Phagocytosis => "evo_phagocytosis_title",
            ActionId::Chloroplasts => "evo_chloroplasts_title",
            ActionId::Chitin => "evo_chitin_title",
            ActionId::Multicellular => "evo_multicellular_title",
            ActionId::BilateralSymmetry => "evo_bilateral_symmetry_title",
            ActionId::Poikilohydric => "evo_poikilohydric_title",
            ActionId::Spores => "evo_spores_title",
            ActionId::Bryophyte => "evo_bryophyte_title",
            ActionId::Sentience => "evo_sentience_title",
        }
    }

    /// The localization key of the action's description text.
    pub fn description(self) -> (r: &'static str)
        ensures
            r@ == spec_description_key(self),
    {
        match self {
            ActionId::Rna => "evo_rna",
            ActionId::Dna => "evo_dna_desc",
            ActionId::Membrane => "evo_membrane_desc",
            ActionId::Organelles => "evo_organelles_desc",
            ActionId::Nucleus => "evo_nucleus_desc",
            ActionId::EukaryoticCell => "evo_eukaryotic_desc",
            ActionId::Mitochondria => "evo_mitochondria_desc",
            ActionId::SexualReproduction => "evo_sexual_reproduction_desc",
            ActionId::Phagocytosis => "evo_phagocytosis_desc",
            ActionId::Chloroplasts => "evo_chloroplasts_desc",
            ActionId::Chitin => "evo_chitin_desc",
            ActionId::Multicellular => "evo_multicellular_desc",
            ActionId::BilateralSymmetry => "evo_bilateral_symmetry_desc",
            ActionId::Poikilohydric => "evo_poikilohydric_desc",
            ActionId::Spores => "evo_spores_desc",
            ActionId::Bryophyte => "evo_bryophyte_desc",
            ActionId::Sentience => "evo_sentience_desc",
        }
    }

    /// The localization key of the action's effect preview, absent for
    /// the root action, which has none.
    pub fn effect(self) -> (r: Option<&'static str>)
        ensures
            r.is_none() == (self == ActionId::Rna),
            r.is_some() ==> r->Some_0@ == spec_effect_key(self),
    {
        match self {
            ActionId::Rna => None,
            ActionId::Dna => Some("evo_dna_effect"),
            ActionId::Membrane => Some("evo_membrane_effect"),
            ActionId::Organelles => Some("evo_organelles_effect"),
            ActionId::Nucleus => Some("evo_nucleus_effect"),
            ActionId::EukaryoticCell => Some("evo_eukaryotic_effect"),
            ActionId::Mitochondria => Some("evo_mitochondria_effect"),
            ActionId::SexualReproduction => Some("evo_sexual_reproduction_effect"),
            ActionId::Phagocytosis => Some("evo_phagocytosis_effect"),
            ActionId::Chloroplasts => Some("evo_chloroplasts_effect"),
            ActionId::Chitin => Some("evo_chitin_effect"),
            ActionId::Multicellular => Some("evo_multicellular_effect"),
            ActionId::BilateralSymmetry => Some("evo_nucleus_boost"),
            ActionId::Poikilohydric => Some("evo_nucleus_boost"),
            ActionId::Spores => Some("evo_nucleus_boost"),
            ActionId::Bryophyte => Some("evo_bryophyte_effect"),
            ActionId::Sentience => Some("evo_sentience_effect"),
        }
    }

    /// The dynamic numeric argument interpolated into the effect text:
    /// the capacity bonus of a membrane or eukaryotic cell, the RNA rate
    /// of an organelle, the DNA yield of a nucleus.
    pub fn effect_value(self, evo: &Evolution) -> (r: Option<u64>)
        ensures
            r == spec_effect_value(self, *evo),
    {
        match self {
            ActionId::Membrane => Some(evo.membrane_bonus()),
            ActionId::Organelles => Some(evo.organelle_rate()),
            ActionId::Nucleus => Some(1),
            ActionId::EukaryoticCell => Some(evo.eukaryotic_bonus()),
            _ => None,
        }
    }
}

/// The stable unique keys, as the save and interface layers spell them.
pub open spec fn spec_id_key(id: ActionId) -> Seq<char> {
    match id {
        ActionId::Rna => "evolution-rna"@,
        ActionId::Dna => "evolution-dna"@,
        ActionId::Membrane => "evolution-membrane"@,
        ActionId::Organelles => "evolution-organelles"@,
        ActionId::Nucleus => "evolution-nucleus"@,
        ActionId::EukaryoticCell => "evolution-eukaryotic_cell"@,
        ActionId::Mitochondria => "evolution-mitochondria"@,
        ActionId::SexualReproduction => "evolution-sexual_reproduction"@,
        ActionId::Phagocytosis => "evolution-phagocytosis"@,
        ActionId::Chloroplasts => "evolution-chloroplasts"@,
        ActionId::Chitin => "evolution-chitin"@,
        ActionId::Multicellular => "evolution-multicellular"@,
        ActionId::BilateralSymmetry => "evolution-bilateral_symmetry"@,
        ActionId::Poikilohydric => "evolution-poikilohydric"@,
        ActionId::Spores => "evolution-spores"@,
        ActionId::Bryophyte => "evolution-bryophyte"@,
        ActionId::Sentience => "evolution-sentience"@,
    }
}

pub open spec fn spec_title_key(id: ActionId) -> Seq<char> {
    match id {
        ActionId::Rna => "resource_RNA_name"@,
        ActionId::Dna => "evo_dna_title"@,
        ActionId::Membrane => "evo_membrane_title"@,
        ActionId::Organelles => "evo_organelles_title"@,
        ActionId::Nucleus => "evo_nucleus_title"@,
        ActionId::EukaryoticCell => "evo_eukaryotic_title"@,
        ActionId::Mitochondria => "evo_mitochondria_title"@,
        ActionId::SexualReproduction => "evo_sexual_reproduction_title"@,
        ActionId::Phagocytosis => "evo_phagocytosis_title"@,
        ActionId::Chloroplasts => "evo_chloroplasts_title"@,
        ActionId::Chitin => "evo_chitin_title"@,
        ActionId::Multicellular => "evo_multicellular_title"@,
        ActionId::BilateralSymmetry => "evo_bilateral_symmetry_title"@,
        ActionId::Poikilohydric => "evo_poikilohydric_title"@,
        ActionId::Spores => "evo_spores_title"@,
        ActionId::Bryophyte => "evo_bryophyte_title"@,
        ActionId::Sentience => "evo_sentience_title"@,
    }
}

pub open spec fn spec_description_key(id: ActionId) -> Seq<char> {
    match id {
        ActionId::Rna => "evo_rna"@,
        ActionId::Dna => "evo_dna_desc"@,
        ActionId::Membrane => "evo_membrane_desc"@,
        ActionId::Organelles => "evo_organelles_desc"@,
        ActionId::Nucleus => "evo_nucleus_desc"@,
        ActionId::EukaryoticCell => "evo_eukaryotic_desc"@,
        ActionId::Mitochondria => "evo_mitochondria_desc"@,
        ActionId::SexualReproduction => "evo_sexual_reproduction_desc"@,
        ActionId::Phagocytosis => "evo_phagocytosis_desc"@,
        ActionId::Chloroplasts => "evo_chloroplasts_desc"@,
        ActionId::Chitin => "evo_chitin_desc"@,
        ActionId::Multicellular => "evo_multicellular_desc"@,
        ActionId::BilateralSymmetry => "evo_bilateral_symmetry_desc"@,
        ActionId::Poikilohydric => "evo_poikilohydric_desc"@,
        ActionId::Spores => "evo_spores_desc"@,
        ActionId::Bryophyte => "evo_bryophyte_desc"@,
        ActionId::Sentience => "evo_sentience_desc"@,
    }
}

pub open spec fn spec_effect_key(id: ActionId) -> Seq<char> {
    match id {
        ActionId::Rna => ""@,
        ActionId::Dna => "evo_dna_effect"@,
        ActionId::Membrane => "evo_membrane_effect"@,
        ActionId::Organelles => "evo_organelles_effect"@,
        ActionId::Nucleus => "evo_nucleus_effect"@,
        ActionId::EukaryoticCell => "evo_eukaryotic_effect"@,
        ActionId::Mitochondria => "evo_mitochondria_effect"@,
        ActionId::SexualReproduction => "evo_sexual_reproduction_effect"@,
        ActionId::Phagocytosis => "evo_phagocytosis_effect"@,
        ActionId::Chloroplasts => "evo_chloroplasts_effect"@,
        ActionId::Chitin => "evo_chitin_effect"@,
        ActionId::Multicellular => "evo_multicellular_effect"@,
        ActionId::BilateralSymmetry => "evo_nucleus_boost"@,
        ActionId::Poikilohydric => "evo_nucleus_boost"@,
        ActionId::Spores => "evo_nucleus_boost"@,
        ActionId::Bryophyte => "evo_bryophyte_effect"@,
        ActionId::Sentience => "evo_sentience_effect"@,
    }
}

pub open spec fn spec_effect_value(id: ActionId, e: Evolution) -> Option<u64> {
    match id {
        ActionId::Membrane => Some(spec_membrane_bonus(e) as u64),
        ActionId::Organelles => Some(spec_organelle_rate(e) as u64),
        ActionId::Nucleus => Some(1u64),
        ActionId::EukaryoticCell => Some(spec_eukaryotic_bonus(e) as u64),
        _ => None,
    }
}

} // verus!
