use crate::inventory::Item;
use crate::weapons::DamageType;
use vstd::prelude::*;

verus! {

/// The body locations an attack can land on.
#[derive(Debug, Clone, Copy, PartialEq, Eq, Structural, Hash)]
pub enum HitZone {
    Head,
    LeftHand,
    RightHand,
    LeftArm,
    RightArm,
    Shoulders,
    Chest,
    Stomach,
    Vitals,
    Thighs,
    LeftLeg,
    RightLeg,
    LeftFoot,
    RightFoot,
}

/// How many hit zones there are.
pub const ZONE_COUNT: usize = 14;

/// The position of a zone in the fixed zone order.
pub open spec fn zone_index(z: HitZone) -> nat {
    match z {
        HitZone::Head => 0,
        HitZone::LeftHand => 1,
        HitZone::RightHand => 2,
        HitZone::LeftArm => 3,
        HitZone::RightArm => 4,
        HitZone::Shoulders => 5,
        HitZone::Chest => 6,
        HitZone::Stomach => 7,
        HitZone::Vitals => 8,
        HitZone::Thighs => 9,
        HitZone::LeftLeg => 10,
        HitZone::RightLeg => 11,
        HitZone::LeftFoot => 12,
        HitZone::RightFoot => 13,
    }
}

/// The name of a zone, as it is written in the rules.
pub open spec fn zone_name(z: HitZone) -> &'static str {
    match z {
        HitZone::Head => "Head",
        HitZone::LeftHand => "LeftHand",
        HitZone::RightHand => "RightHand",
        HitZone::LeftArm => "LeftArm",
        HitZone::RightArm => "RightArm",
        HitZone::Shoulders => "Shoulders",
        HitZone::Chest => "Chest",
        HitZone::Stomach => "Stomach",
        HitZone::Vitals => "Vitals",
        HitZone::Thighs => "Thighs",
        HitZone::LeftLeg => "LeftLeg",
        HitZone::RightLeg => "RightLeg",
        HitZone::LeftFoot => "LeftFoot",
        HitZone::RightFoot => "RightFoot",
    }
}

/// Distinct zones have distinct positions.
pub proof fn lemma_zone_index_injective(a: HitZone, b: HitZone)
    ensures
        zone_index(a) == zone_index(b) ==> a == b,
        zone_index(a) < ZONE_COUNT,
{
}

impl HitZone {
    /// The name of the zone.
    pub fn name(&self) -> (r: &'static str)
        ensures
            r@ == zone_name(*self)@,
    {
        match self {
            HitZone::Head => "Head",
            HitZone::LeftHand => "LeftHand",
            HitZone::RightHand => "RightHand",
            HitZone::LeftArm => "LeftArm",
            HitZone::RightArm => "RightArm",
            HitZone::Shoulders => "Shoulders",
            HitZone::Chest => "Chest",
            HitZone::Stomach => "Stomach",
            HitZone::Vitals => "Vitals",
            HitZone::Thighs => "Thighs",
            HitZone::LeftLeg => "LeftLeg",
            HitZone::RightLeg => "RightLeg",
            HitZone::LeftFoot => "LeftFoot",
            HitZone::RightFoot => "RightFoot",
        }
    }

    pub fn index(&self) -> (r: usize)
        ensures
            r == zone_index(*self),
    {
        match self {
            HitZone::Head => 0,
            HitZone::LeftHand => 1,
            HitZone::RightHand => 2,
            HitZone::LeftArm => 3,
            HitZone::RightArm => 4,
            HitZone::Shoulders => 5,
            HitZone::Chest => 6,
            HitZone::Stomach => 7,
            HitZone::Vitals => 8,
            HitZone::Thighs => 9,
            HitZone::LeftLeg => 10,
            HitZone::RightLeg => 11,
            HitZone::LeftFoot => 12,
            HitZone::RightFoot => 13,
        }
    }
}

/// What one armor layer did to a hit: what went on through it, and what it stopped.
#[derive(Debug, Clone, Copy, PartialEq, Eq, Structural)]
pub struct DamageResult {
    pub remaining_damage: usize,
    pub absorbed_damage: usize,
}

/// Half of `n`, rounded up.
pub open spec fn ceil_half(n: nat) -> nat {
    (n + 1) / 2
}

/// The protection that a layer with current protection `p` opposes to damage of type `dt`.
pub open spec fn effective_protection(p: nat, is_hard: bool, dt: DamageType) -> nat {
    match dt {
        DamageType::ArmorPiercing => p / 2,
        DamageType::Slashing => if is_hard {
            p
        } else {
            ceil_half(p)
        },
        _ => p,
    }
}

/// The damage that a hit of `d` points of type `dt` presents to the armor.
pub open spec fn presented_damage(d: nat, dt: DamageType) -> nat {
    match dt {
        DamageType::HollowPoint => ceil_half(d),
        _ => d,
    }
}

/// The layer stops the hit entirely: ties go to the armor.
pub open spec fn stops_hit(p: nat, is_hard: bool, d: nat, dt: DamageType) -> bool {
    effective_protection(p, is_hard, dt) >= presented_damage(d, dt)
}

/// What a covering layer with protection `p` absorbs of the hit.
pub open spec fn absorbed_by_layer(p: nat, is_hard: bool, d: nat, dt: DamageType) -> nat {
    if stops_hit(p, is_hard, d, dt) {
        presented_damage(d, dt)
    } else {
        effective_protection(p, is_hard, dt)
    }
}

/// What goes on through a covering layer with protection `p`.
pub open spec fn remaining_after_layer(p: nat, is_hard: bool, d: nat, dt: DamageType) -> nat {
    if stops_hit(p, is_hard, d, dt) {
        0
    } else {
        let left = (presented_damage(d, dt) - effective_protection(p, is_hard, dt)) as nat;
        match dt {
            DamageType::ArmorPiercing => ceil_half(left),
            _ => left,
        }
    }
}

/// The protection a covering layer keeps after the hit: one point less when penetrated,
/// never below zero.
pub open spec fn protection_after_layer(p: nat, is_hard: bool, d: nat, dt: DamageType) -> nat {
    if stops_hit(p, is_hard, d, dt) {
        p
    } else if p > 0 {
        (p - 1) as nat
    } else {
        0
    }
}

/// Whatever the damage type, a layer whose effective protection is at least the damage
/// presented to it lets nothing through and keeps its protection.
pub proof fn lemma_stopped_hit(p: nat, is_hard: bool, d: nat, dt: DamageType)
    requires
        effective_protection(p, is_hard, dt) >= presented_damage(d, dt),
    ensures
        remaining_after_layer(p, is_hard, d, dt) == 0,
        absorbed_by_layer(p, is_hard, d, dt) == presented_damage(d, dt),
        protection_after_layer(p, is_hard, d, dt) == p,
{
}

/// A hit costs a layer at most one point of protection, and a penetrating hit costs it
/// exactly one point, however large the hit.
pub proof fn lemma_wear_per_hit(p: nat, is_hard: bool, d: nat, dt: DamageType)
    ensures
        protection_after_layer(p, is_hard, d, dt) <= p,
        protection_after_layer(p, is_hard, d, dt) + 1 >= p,
        !stops_hit(p, is_hard, d, dt) && p > 0 ==> protection_after_layer(p, is_hard, d, dt)
            == p - 1,
{
}

/// Armor-piercing damage meets half the protection, rounded down: the layer absorbs
/// `min(d, p / 2)` and half of the rest, rounded up, goes on.
pub proof fn lemma_armor_piercing(p: nat, is_hard: bool, d: nat)
    ensures
        absorbed_by_layer(p, is_hard, d, DamageType::ArmorPiercing) == if d <= p / 2 {
            d
        } else {
            p / 2
        },
        remaining_after_layer(p, is_hard, d, DamageType::ArmorPiercing) == ceil_half(
            (d - absorbed_by_layer(p, is_hard, d, DamageType::ArmorPiercing)) as nat,
        ),
{
}

/// A hollow-point hit presents half its damage, rounded up, to the full protection;
/// what the layer does not absorb of that half goes on, and is not halved again.
pub proof fn lemma_hollow_point(p: nat, is_hard: bool, d: nat)
    ensures
        presented_damage(d, DamageType::HollowPoint) == ceil_half(d),
        effective_protection(p, is_hard, DamageType::HollowPoint) == p,
        stops_hit(p, is_hard, d, DamageType::HollowPoint) <==> p >= ceil_half(d),
        absorbed_by_layer(p, is_hard, d, DamageType::HollowPoint) == if ceil_half(d) <= p {
            ceil_half(d)
        } else {
            p
        },
        remaining_after_layer(p, is_hard, d, DamageType::HollowPoint) == ceil_half(d)
            - absorbed_by_layer(p, is_hard, d, DamageType::HollowPoint),
{
}

/// Slashing damage meets the full protection of hard armor, and half the protection of
/// soft armor, rounded up.
pub proof fn lemma_slashing(p: nat, is_hard: bool, d: nat)
    ensures
        is_hard ==> effective_protection(p, is_hard, DamageType::Slashing) == p,
        !is_hard ==> effective_protection(p, is_hard, DamageType::Slashing) == ceil_half(p),
        stops_hit(p, is_hard, d, DamageType::Slashing) <==> effective_protection(
            p,
            is_hard,
            DamageType::Slashing,
        ) >= d,
        remaining_after_layer(p, is_hard, d, DamageType::Slashing) == d - absorbed_by_layer(
            p,
            is_hard,
            d,
            DamageType::Slashing,
        ),
{
}

/// The protection a zone has after a hit: unchanged where the layer does not cover it.
pub open spec fn level_after_hit(
    level: Option<usize>,
    is_hard: bool,
    d: nat,
    dt: DamageType,
) -> Option<usize> {
    match level {
        None => None,
        Some(p) => Some(protection_after_layer(p as nat, is_hard, d, dt) as usize),
    }
}

/// What goes on through a layer whose protection in the hit zone is `level`: everything
/// where the layer does not cover the zone.
pub open spec fn remaining_after_hit(
    level: Option<usize>,
    is_hard: bool,
    d: nat,
    dt: DamageType,
) -> nat {
    match level {
        None => d,
        Some(p) => remaining_after_layer(p as nat, is_hard, d, dt),
    }
}

/// What a layer whose protection in the hit zone is `level` absorbs: nothing where the
/// layer does not cover the zone.
pub open spec fn absorbed_in_hit(level: Option<usize>, is_hard: bool, d: nat, dt: DamageType) -> nat {
    match level {
        None => 0,
        Some(p) => absorbed_by_layer(p as nat, is_hard, d, dt),
    }
}

/// A hit on a zone the layer does not cover goes through whole, is not absorbed at all,
/// and leaves the zone uncovered.
pub proof fn lemma_uncovered_zone(is_hard: bool, d: nat, dt: DamageType)
    ensures
        remaining_after_hit(None, is_hard, d, dt) == d,
        absorbed_in_hit(None, is_hard, d, dt) == 0,
        level_after_hit(None, is_hard, d, dt) == None::<usize>,
{
}

/// A layer never hands on or absorbs more than the hit brought to it.
pub proof fn lemma_layer_conserves(level: Option<usize>, is_hard: bool, d: nat, dt: DamageType)
    ensures
        remaining_after_hit(level, is_hard, d, dt) + absorbed_in_hit(level, is_hard, d, dt) <= d,
{
}

/// One worn protective item: a maximum protection, a hardness, and the current
/// protection of each zone it covers.
pub struct Armor {
    item: Item,
    protection_max: usize,
    /// Indexed by `zone_index`; `None` where the armor does not cover the zone.
    protection_current: Vec<Option<usize>>,
    is_hard: bool,
    encumbrance: usize,
}

impl Armor {
    /// Every zone has a slot, and no covered zone is above the maximum.
    pub closed spec fn wf(self) -> bool {
        &&& self.protection_current@.len() == ZONE_COUNT
        &&& forall|i: int|
            0 <= i < ZONE_COUNT ==> match #[trigger] self.protection_current@[i] {
                Some(p) => p <= self.protection_max,
                None => true,
            }
    }

    /// The current protection in zone `z`, if the armor covers it.
    pub closed spec fn protection_spec(self, z: HitZone) -> Option<usize> {
        self.protection_current@[zone_index(z) as int]
    }

    pub closed spec fn item_spec(self) -> Item {
        self.item
    }

    pub closed spec fn protection_max_spec(self) -> usize {
        self.protection_max
    }

    pub closed spec fn is_hard_spec(self) -> bool {
        self.is_hard
    }

    pub closed spec fn encumbrance_spec(self) -> usize {
        self.encumbrance
    }

    /// Everything but the protection in `zone` is the same in both.
    pub open spec fn same_except_zone(self, other: Armor, zone: HitZone) -> bool {
        &&& self.item_spec() == other.item_spec()
        &&& self.protection_max_spec() == other.protection_max_spec()
        &&& self.is_hard_spec() == other.is_hard_spec()
        &&& self.encumbrance_spec() == other.encumbrance_spec()
        &&& forall|z: HitZone| z != zone ==> #[trigger] self.protection_spec(z) == other.protection_spec(z)
    }
    /// A fresh armor at full protection in each of `protected_zones`.
    pub fn new(
        name: String,
        amount: usize,
        weight_grams: usize,
        price_eb: usize,
        comment: String,
        protection_max: usize,
        protected_zones: Vec<HitZone>,
        is_hard: bool,
        encumbrance: usize,
    ) -> (r: Self)
        ensures
            r.wf(),
            r.item_spec() == (Item { name, amount, weight_grams, price_eb, comment }),
            r.protection_max_spec() == protection_max,
            r.is_hard_spec() == is_hard,
            r.encumbrance_spec() == encumbrance,
            forall|z: HitZone|
                #[trigger] r.protection_spec(z) == if protected_zones@.contains(z) {
                    Some(protection_max)
                } else {
                    None
                },
    {
        let mut protection_current: Vec<Option<usize>> = Vec::new();
        let mut i: usize = 0;
        while i < ZONE_COUNT
            invariant
                i <= ZONE_COUNT,
                protection_current@.len() == i,
                forall|k: int| 0 <= k < i ==> protection_current@[k] == None::<usize>,
            decreases ZONE_COUNT - i,
        {
            protection_current.push(None);
            i = i + 1;
        }
        let mut j: usize = 0;
        while j < protected_zones.len()
            invariant
                j <= protected_zones@.len(),
                protection_current@.len() == ZONE_COUNT,
                forall|k: int|
                    0 <= k < ZONE_COUNT ==> match #[trigger] protection_current@[k] {
                        Some(p) => p <= protection_max,
                        None => true,
                    },
                forall|z: HitZone|
                    #[trigger] protection_current@[zone_index(z) as int] == if protected_zones@.subrange(
                        0,
                        j as int,
                    ).contains(z) {
                        Some(protection_max)
                    } else {
                        None
                    },
            decreases protected_zones@.len() - j,
        {
            let zone = protected_zones[j];
            let ghost before = protection_current@;
            protection_current.set(zone.index(), Some(protection_max));
            proof {
                assert forall|z: HitZone|
                    #[trigger] protection_current@[zone_index(z) as int] == if protected_zones@.subrange(
                        0,
                        j + 1,
                    ).contains(z) {
                        Some(protection_max)
                    } else {
                        None
                    } by {
                    lemma_zone_index_injective(z, zone);
                    let prefix = protected_zones@.subrange(0, j as int);
                    assert(protected_zones@.subrange(0, j + 1) =~= prefix.push(zone));
                    assert(prefix.push(zone).contains(z) <==> (prefix.contains(z) || z == zone)) by {
                        if prefix.contains(z) {
                            let k = choose|k: int| 0 <= k < prefix.len() && prefix[k] == z;
                            assert(prefix.push(zone)[k] == z);
                        }
                        if z == zone {
                            assert(prefix.push(zone)[prefix.len() as int] == z);
                        }
                        if prefix.push(zone).contains(z) && z != zone {
                            let k = choose|k: int| 0 <= k < prefix.len() + 1 && prefix.push(zone)[k] == z;
                            assert(prefix[k] == z);
                        }
                    }
                    assert(before[zone_index(z) as int] == if prefix.contains(z) {
                        Some(protection_max)
                    } else {
                        None
                    });
                }
            }
            j = j + 1;
        }
        assert(protected_zones@.subrange(0, protected_zones@.len() as int) =~= protected_zones@);
        Armor {
            item: Item::new(name, amount, weight_grams, price_eb, comment),
            protection_max,
            protection_current,
            is_hard,
            encumbrance,
        }
    }

    /// Resolves one hit of `damage` points of type `damage_type` on `zone` against this
    /// layer alone. A zone the armor does not cover lets the whole hit through. A covered
    /// zone stops the hit when its effective protection is at least the damage presented,
    /// and otherwise absorbs its effective protection and loses one point of protection.
    pub fn hit(&mut self, damage: usize, zone: HitZone, damage_type: DamageType) -> (r:
        DamageResult)
        requires
            old(self).wf(),
        ensures
            final(self).wf(),
            final(self).same_except_zone(*old(self), zone),
            final(self).protection_spec(zone) == level_after_hit(
                old(self).protection_spec(zone),
                old(self).is_hard_spec(),
                damage as nat,
                damage_type,
            ),
            r.remaining_damage == remaining_after_hit(
                old(self).protection_spec(zone),
                old(self).is_hard_spec(),
                damage as nat,
                damage_type,
            ),
            r.absorbed_damage == absorbed_in_hit(
                old(self).protection_spec(zone),
                old(self).is_hard_spec(),
                damage as nat,
                damage_type,
            ),
    {
        let idx = zone.index();
        match self.protection_current[idx] {
            None => DamageResult { remaining_damage: damage, absorbed_damage: 0 },
            Some(p) => {
                let effective: usize = match damage_type {
                    DamageType::ArmorPiercing => p / 2,
                    DamageType::Slashing => if self.is_hard {
                        p
                    } else {
                        p / 2 + p % 2
                    },
                    _ => p,
                };
                let presented: usize = match damage_type {
                    DamageType::HollowPoint => damage / 2 + damage % 2,
                    _ => damage,
                };
                if effective >= presented {
                    DamageResult { remaining_damage: 0, absorbed_damage: presented }
                } else {
                    let left = presented - effective;
                    let remaining: usize = match damage_type {
                        DamageType::ArmorPiercing => left / 2 + left % 2,
                        _ => left,
                    };
                    if p > 0 {
                        self.protection_current[idx] = Some(p - 1);
                    }
                    proof {
                        lemma_zone_index_injective(zone, zone);
                        assert forall|z: HitZone| z != zone implies #[trigger] self.protection_spec(
                            z,
                        ) == old(self).protection_spec(z) by {
                            lemma_zone_index_injective(z, zone);
                        }
                    }
                    DamageResult { remaining_damage: remaining, absorbed_damage: effective }
                }
            },
        }
    }

    /// The current protection in `zone`, or `None` where the armor does not cover it.
    pub fn protection(&self, zone: HitZone) -> (r: Option<usize>)
        requires
            self.wf(),
        ensures
            r == self.protection_spec(zone),
    {
        proof {
            lemma_zone_index_injective(zone, zone);
        }
        self.protection_current[zone.index()]
    }

    pub fn item(&self) -> (r: &Item)
        ensures
            *r == self.item_spec(),
    {
        &self.item
    }

    /// The item record, for changing it; the protection is not reached through it.
    pub fn item_mut(&mut self) -> (r: &mut Item)
        ensures
            *r == old(self).item_spec(),
            final(self).item_spec() == *final(r),
            final(self).protection_max_spec() == old(self).protection_max_spec(),
            final(self).is_hard_spec() == old(self).is_hard_spec(),
            final(self).encumbrance_spec() == old(self).encumbrance_spec(),
            forall|z: HitZone| #[trigger] final(self).protection_spec(z) == old(self).protection_spec(z),
            final(self).wf() == old(self).wf(),
    {
        &mut self.item
    }

    pub fn protection_max(&self) -> (r: usize)
        ensures
            r == self.protection_max_spec(),
    {
        self.protection_max
    }

    pub fn is_hard(&self) -> (r: bool)
        ensures
            r == self.is_hard_spec(),
    {
        self.is_hard
    }

    pub fn encumbrance(&self) -> (r: usize)
        ensures
            r == self.encumbrance_spec(),
    {
        self.encumbrance
    }
}

} // verus!
