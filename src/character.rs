use crate::armor::{
    absorbed_in_hit, lemma_layer_conserves, level_after_hit, remaining_after_hit, HitZone,
};
use crate::inventory::{Inventory, InventoryEntry};
use crate::weapons::DamageType;
use vstd::prelude::*;

verus! {

/// A character attribute: its value now, and its value unmodified.
#[derive(Debug, Clone, Copy, PartialEq, Eq, Structural)]
pub struct Attribute {
    pub base: usize,
    pub actual: usize,
}

impl Attribute {
    pub fn new(actual: usize, base: usize) -> (r: Self)
        ensures
            r.actual == actual,
            r.base == base,
    {
        Attribute { base, actual }
    }
}

/// A learned skill: its base value, the level reached, and the cost factor of raising it.
pub struct Skill {
    pub name: String,
    pub base: usize,
    pub level: usize,
    pub level_up_modifierer: usize,
}

impl Skill {
    pub fn new(name: String, base: usize, level: usize, level_up_modifierer: usize) -> (r: Self)
        ensures
            r.name == name,
            r.base == base,
            r.level == level,
            r.level_up_modifierer == level_up_modifierer,
    {
        Skill { name, base, level, level_up_modifierer }
    }
}

/// A list of skills.
pub struct List(pub Vec<Skill>);

/// The damage that makes a single hit crippling.
pub const CRIPPLING_DAMAGE: usize = 8;

/// The damage total of a dead character.
pub const DEAD_DAMAGE: usize = 100;

/// The damage total that a crippling hit elsewhere than a vital zone raises a character to.
pub const MORTAL_DAMAGE: usize = 13;

/// The body type modifier for a body attribute.
pub open spec fn btm_of(body: nat) -> nat {
    if body <= 2 {
        0
    } else if body <= 4 {
        1
    } else if body <= 7 {
        2
    } else if body <= 9 {
        3
    } else if body == 10 {
        4
    } else {
        5
    }
}

/// The body type modifier for a body attribute: the damage a body shrugs off per hit.
pub fn body_type_modifier(body: usize) -> (r: usize)
    ensures
        r == btm_of(body as nat),
{
    if body <= 2 {
        0
    } else if body <= 4 {
        1
    } else if body <= 7 {
        2
    } else if body <= 9 {
        3
    } else if body == 10 {
        4
    } else {
        5
    }
}

/// The zones where a crippling hit kills.
pub open spec fn is_vital_zone(z: HitZone) -> bool {
    z == HitZone::Head || z == HitZone::Chest || z == HitZone::Vitals
}

/// The damage a hit of `d` points (more than zero) does to a character with body `body`:
/// less the body type modifier, at least one point, and twice that on the head.
pub open spec fn wound(d: nat, body: nat, zone: HitZone) -> nat {
    let reduced: nat = if d > btm_of(body) {
        (d - btm_of(body)) as nat
    } else {
        0
    };
    let least: nat = if reduced < 1 {
        1
    } else {
        reduced
    };
    if zone == HitZone::Head {
        2 * least
    } else {
        least
    }
}

/// The damage total after a hit of `d` points on `zone`, from a total of `current`.
pub open spec fn damage_after(current: nat, d: nat, body: nat, zone: HitZone) -> nat {
    if d == 0 {
        current
    } else {
        let w = wound(d, body, zone);
        if w >= CRIPPLING_DAMAGE && is_vital_zone(zone) {
            DEAD_DAMAGE as nat
        } else if w >= CRIPPLING_DAMAGE && current + w < MORTAL_DAMAGE {
            MORTAL_DAMAGE as nat
        } else {
            current + w
        }
    }
}

/// The note written when a character dies.
pub open spec fn death_note() -> Seq<char> {
    "YOU ARE DEAD!"@
}

/// The note written when a zone is destroyed.
pub open spec fn destroyed_note(zone: HitZone) -> Seq<char> {
    crate::armor::zone_name(zone)@ + " destroyed!"@
}

/// The notes after a hit of `d` points on `zone`: a crippling hit puts a note in front.
pub open spec fn notes_after(notes: Seq<Seq<char>>, d: nat, body: nat, zone: HitZone) -> Seq<
    Seq<char>,
> {
    if d == 0 || wound(d, body, zone) < CRIPPLING_DAMAGE {
        notes
    } else if is_vital_zone(zone) {
        seq![death_note()] + notes
    } else {
        seq![destroyed_note(zone)] + notes
    }
}

/// Any hit of more than zero points that reaches the body raises the damage total by at
/// least one, except a killing hit on a character whose total is already at or above the
/// dead total, which sets it to the dead total.
pub proof fn lemma_damage_always_counts(current: nat, d: nat, body: nat, zone: HitZone)
    requires
        d > 0,
        !(is_vital_zone(zone) && wound(d, body, zone) >= CRIPPLING_DAMAGE && current
            >= DEAD_DAMAGE),
    ensures
        damage_after(current, d, body, zone) >= current + 1,
{
}

/// A head hit does twice the damage, after the body type modifier, of the same hit
/// anywhere else.
pub proof fn lemma_head_doubles(d: nat, body: nat, other: HitZone)
    requires
        d > 0,
        other != HitZone::Head,
    ensures
        wound(d, body, HitZone::Head) == 2 * wound(d, body, other),
        wound(d, body, other) == if d > btm_of(body) + 1 {
            (d - btm_of(body)) as nat
        } else {
            1
        },
{
}

/// A crippling hit on the head, chest or vitals kills: the damage total becomes the dead
/// total and the death note goes in front.
pub proof fn lemma_crippling_vital_hit_kills(
    current: nat,
    notes: Seq<Seq<char>>,
    d: nat,
    body: nat,
    zone: HitZone,
)
    requires
        d > 0,
        wound(d, body, zone) >= CRIPPLING_DAMAGE,
        is_vital_zone(zone),
    ensures
        damage_after(current, d, body, zone) == DEAD_DAMAGE,
        notes_after(notes, d, body, zone) == seq![death_note()] + notes,
{
}

/// A crippling hit elsewhere destroys the zone: the damage total is at least the mortal
/// total, never lower than it was plus the hit, and the zone's note goes in front.
pub proof fn lemma_crippling_hit_elsewhere(
    current: nat,
    notes: Seq<Seq<char>>,
    d: nat,
    body: nat,
    zone: HitZone,
)
    requires
        d > 0,
        wound(d, body, zone) >= CRIPPLING_DAMAGE,
        !is_vital_zone(zone),
    ensures
        damage_after(current, d, body, zone) >= MORTAL_DAMAGE,
        damage_after(current, d, body, zone) >= current + wound(d, body, zone),
        current + wound(d, body, zone) >= MORTAL_DAMAGE ==> damage_after(current, d, body, zone)
            == current + wound(d, body, zone),
        notes_after(notes, d, body, zone) == seq![destroyed_note(zone)] + notes,
{
}

/// A hit of zero points changes nothing.
pub proof fn lemma_no_damage(current: nat, notes: Seq<Seq<char>>, body: nat, zone: HitZone)
    ensures
        damage_after(current, 0, body, zone) == current,
        notes_after(notes, 0, body, zone) == notes,
{
}

/// The notes as character sequences.
pub open spec fn notes_view(notes: Seq<String>) -> Seq<Seq<char>> {
    Seq::new(notes.len(), |i: int| notes[i]@)
}

/// The protection in `zone` of each inventory entry; `None` for plain items and for
/// armor that does not cover the zone.
pub open spec fn zone_levels(inv: Seq<InventoryEntry>, zone: HitZone) -> Seq<Option<usize>> {
    Seq::new(
        inv.len(),
        |i: int|
            match inv[i] {
                InventoryEntry::Armor(a) => a.protection_spec(zone),
                InventoryEntry::Plain(_) => None,
            },
    )
}

/// Whether each inventory entry is hard armor.
pub open spec fn hardness(inv: Seq<InventoryEntry>) -> Seq<bool> {
    Seq::new(
        inv.len(),
        |i: int|
            match inv[i] {
                InventoryEntry::Armor(a) => a.is_hard_spec(),
                InventoryEntry::Plain(_) => false,
            },
    )
}

/// A hit of `d` points going through the worn layers `worn`, from the last to the first,
/// each layer getting what the one before let through. Gives the zone protections after,
/// what is left at the body, and what the layers absorbed together.
pub open spec fn through_layers(
    levels: Seq<Option<usize>>,
    hard: Seq<bool>,
    worn: Seq<usize>,
    d: nat,
    dt: DamageType,
) -> (Seq<Option<usize>>, nat, nat)
    decreases worn.len(),
{
    if worn.len() == 0 {
        (levels, d, 0)
    } else {
        let id = worn.last() as int;
        let rest = through_layers(
            levels.update(id, level_after_hit(levels[id], hard[id], d, dt)),
            hard,
            worn.drop_last(),
            remaining_after_hit(levels[id], hard[id], d, dt),
            dt,
        );
        (rest.0, rest.1, rest.2 + absorbed_in_hit(levels[id], hard[id], d, dt))
    }
}

/// The damage a hit brings to the body after the armor: what went through, and a fifth
/// (rounded down) of what the armor absorbed, as blunt trauma.
pub open spec fn carried_to_body(remaining: nat, absorbed: nat) -> nat {
    remaining + absorbed / 5
}

/// The entries are of one kind and the same but for the protection in `zone`.
pub open spec fn same_entry_except_zone(a: InventoryEntry, b: InventoryEntry, zone: HitZone) -> bool {
    match (a, b) {
        (InventoryEntry::Plain(x), InventoryEntry::Plain(y)) => x == y,
        (InventoryEntry::Armor(x), InventoryEntry::Armor(y)) => x.same_except_zone(y, zone),
        _ => false,
    }
}

/// What the layers absorb and let through together is never more than the hit.
pub proof fn lemma_layers_conserve(
    levels: Seq<Option<usize>>,
    hard: Seq<bool>,
    worn: Seq<usize>,
    d: nat,
    dt: DamageType,
)
    ensures
        through_layers(levels, hard, worn, d, dt).1 + through_layers(levels, hard, worn, d, dt).2
            <= d,
    decreases worn.len(),
{
    if worn.len() > 0 {
        let id = worn.last() as int;
        lemma_layer_conserves(levels[id], hard[id], d, dt);
        lemma_layers_conserve(
            levels.update(id, level_after_hit(levels[id], hard[id], d, dt)),
            hard,
            worn.drop_last(),
            remaining_after_hit(levels[id], hard[id], d, dt),
            dt,
        );
    }
}

/// Why a piece of armor could not be put on.
#[derive(Debug, Clone, Copy, PartialEq, Eq, Structural)]
pub enum EquipError {
    /// No inventory entry has the given position.
    NotFound,
    /// The entry to put on is not armor.
    NotArmor,
    /// The armor to go underneath is not worn.
    NotWorn,
}

/// Whether `armor` can be put on, underneath `underneath` if given, and if not, why.
pub open spec fn wear_check(
    inv: Seq<InventoryEntry>,
    worn: Seq<usize>,
    armor: usize,
    underneath: Option<usize>,
) -> Result<(), EquipError> {
    if armor >= inv.len() {
        Err(EquipError::NotFound)
    } else if underneath matches Some(u) && u >= inv.len() {
        Err(EquipError::NotFound)
    } else if !(inv[armor as int] is Armor) {
        Err(EquipError::NotArmor)
    } else if underneath matches Some(u) && !worn.contains(u) {
        Err(EquipError::NotWorn)
    } else {
        Ok(())
    }
}

/// The worn list after putting on `armor`: outermost when `underneath` is not given,
/// else just inside the first place where `underneath` is worn.
pub open spec fn worn_after(worn: Seq<usize>, armor: usize, underneath: Option<usize>) -> Seq<usize> {
    match underneath {
        None => worn.push(armor),
        Some(u) => worn.insert(worn.index_of_first(u)->Some_0, armor),
    }
}

/// What a character wears and has suffered; changed only through the character's own
/// combat operations.
pub struct CombatState {
    /// Positions in the inventory of the armor worn, innermost first: a hit meets the
    /// last one first.
    worn_armor: Vec<usize>,
    current_damage: usize,
    /// The newest note first.
    damage_notes: Vec<String>,
}

impl CombatState {
    pub closed spec fn worn_spec(self) -> Seq<usize> {
        self.worn_armor@
    }

    pub closed spec fn current_damage_spec(self) -> usize {
        self.current_damage
    }

    pub closed spec fn notes_spec(self) -> Seq<Seq<char>> {
        notes_view(self.damage_notes@)
    }

    /// Unhurt, wearing nothing, with no notes.
    pub fn new() -> (r: CombatState)
        ensures
            r.worn_spec() == Seq::<usize>::empty(),
            r.current_damage_spec() == 0,
            r.notes_spec() == Seq::<Seq<char>>::empty(),
    {
        let r = CombatState { worn_armor: Vec::new(), current_damage: 0, damage_notes: Vec::new() };
        assert(notes_view(r.damage_notes@) =~= Seq::<Seq<char>>::empty());
        r
    }

    pub fn current_damage(&self) -> (r: usize)
        ensures
            r == self.current_damage_spec(),
    {
        self.current_damage
    }

    /// The notes on what the character suffered, the newest first.
    pub fn damage_notes(&self) -> (r: &Vec<String>)
        ensures
            notes_view(r@) == self.notes_spec(),
    {
        &self.damage_notes
    }

    /// Positions in the inventory of the armor worn, innermost first.
    pub fn worn_armor(&self) -> (r: &Vec<usize>)
        ensures
            r@ == self.worn_spec(),
    {
        &self.worn_armor
    }
}

/// A character: a profile of attributes, what it carries, and its combat state.
pub struct Character {
    pub name: String,
    pub role: String,
    pub age: usize,
    pub att: Attribute,
    pub mov: Attribute,
    pub coo: Attribute,
    pub emp: Attribute,
    pub luck: Attribute,
    pub intelligence: Attribute,
    pub body: Attribute,
    pub refl: Attribute,
    pub tec: Attribute,
    pub inventory: Inventory,
    pub combat: CombatState,
}

impl Character {
    /// The inventory is well formed, and every worn position holds a piece of armor.
    pub open spec fn wf(self) -> bool {
        &&& self.inventory.wf()
        &&& forall|i: int|
            0 <= i < self.combat.worn_spec().len() ==> {
                &&& #[trigger] self.combat.worn_spec()[i] < self.inventory@.len()
                &&& self.inventory@[self.combat.worn_spec()[i] as int] is Armor
            }
    }

    /// The two have the same name, role, age and attributes.
    pub open spec fn same_profile(self, other: Character) -> bool {
        &&& self.name == other.name
        &&& self.role == other.role
        &&& self.age == other.age
        &&& self.att == other.att
        &&& self.mov == other.mov
        &&& self.coo == other.coo
        &&& self.emp == other.emp
        &&& self.luck == other.luck
        &&& self.intelligence == other.intelligence
        &&& self.body == other.body
        &&& self.refl == other.refl
        &&& self.tec == other.tec
    }

    /// A character who carries nothing and is unhurt.
    pub fn new(
        name: String,
        role: String,
        age: usize,
        att: Attribute,
        mov: Attribute,
        coo: Attribute,
        emp: Attribute,
        luck: Attribute,
        intelligence: Attribute,
        body: Attribute,
        refl: Attribute,
        tec: Attribute,
    ) -> (r: Character)
        ensures
            r.wf(),
            r.name == name,
            r.role == role,
            r.age == age,
            r.att == att,
            r.mov == mov,
            r.coo == coo,
            r.emp == emp,
            r.luck == luck,
            r.intelligence == intelligence,
            r.body == body,
            r.refl == refl,
            r.tec == tec,
            r.inventory@ == Seq::<crate::inventory::InventoryEntry>::empty(),
            r.combat.worn_spec() == Seq::<usize>::empty(),
            r.combat.current_damage_spec() == 0,
            r.combat.notes_spec() == Seq::<Seq<char>>::empty(),
    {
        Character {
            name,
            role,
            age,
            att,
            mov,
            coo,
            emp,
            luck,
            intelligence,
            body,
            refl,
            tec,
            inventory: Inventory::new(),
            combat: CombatState::new(),
        }
    }

    /// Applies `damage` points that reached the body on `zone`, with no armor in the way:
    /// the body type modifier is taken off, at least one point stays, a head hit counts
    /// double, and a crippling hit kills on a vital zone or destroys any other zone.
    pub fn take_damage(&mut self, damage: usize, zone: HitZone)
        requires
            old(self).combat.current_damage_spec() + 2 * damage <= usize::MAX,
        ensures
            final(self).combat.current_damage_spec() == damage_after(
                old(self).combat.current_damage_spec() as nat,
                damage as nat,
                old(self).body.actual as nat,
                zone,
            ),
            final(self).combat.notes_spec() == notes_after(
                old(self).combat.notes_spec(),
                damage as nat,
                old(self).body.actual as nat,
                zone,
            ),
            final(self).same_profile(*old(self)),
            final(self).inventory == old(self).inventory,
            final(self).combat.worn_spec() == old(self).combat.worn_spec(),
    {
        if damage == 0 {
            return ;
        }
        let btm = body_type_modifier(self.body.actual);
        let mut wound: usize = if damage > btm {
            damage - btm
        } else {
            0
        };
        if wound < 1 {
            wound = 1;
        }
        if zone == HitZone::Head {
            wound = wound * 2;
        }
        self.combat.current_damage = self.combat.current_damage + wound;
        if wound >= CRIPPLING_DAMAGE {
            let ghost before = self.combat.damage_notes@;
            if zone == HitZone::Head || zone == HitZone::Chest || zone == HitZone::Vitals {
                self.combat.current_damage = DEAD_DAMAGE;
                self.combat.damage_notes.insert(0, String::from_str("YOU ARE DEAD!"));
            } else {
                let note = String::from_str(zone.name()).concat(" destroyed!");
                self.combat.damage_notes.insert(0, note);
                if self.combat.current_damage < MORTAL_DAMAGE {
                    self.combat.current_damage = MORTAL_DAMAGE;
                }
            }
            assert(notes_view(self.combat.damage_notes@) =~= seq![self.combat.damage_notes@[0]@]
                + notes_view(before));
        }
    }
    /// Resolves a hit of `damage` points of type `damage_type` on `zone`: it goes through
    /// the worn armor from the outermost layer in, and what reaches the body, with blunt
    /// trauma from what the armor absorbed, is applied as `take_damage` does.
    pub fn hit(&mut self, damage: usize, zone: HitZone, damage_type: DamageType)
        requires
            old(self).wf(),
            old(self).combat.current_damage_spec() + 2 * damage <= usize::MAX,
        ensures
            final(self).wf(),
            final(self).same_profile(*old(self)),
            final(self).combat.worn_spec() == old(self).combat.worn_spec(),
            final(self).inventory@.len() == old(self).inventory@.len(),
            forall|i: int|
                0 <= i < old(self).inventory@.len() ==> same_entry_except_zone(
                    #[trigger] final(self).inventory@[i],
                    old(self).inventory@[i],
                    zone,
                ),
            ({
                let layers = through_layers(
                    zone_levels(old(self).inventory@, zone),
                    hardness(old(self).inventory@),
                    old(self).combat.worn_spec(),
                    damage as nat,
                    damage_type,
                );
                let carried = carried_to_body(layers.1, layers.2);
                &&& zone_levels(final(self).inventory@, zone) == layers.0
                &&& final(self).combat.current_damage_spec() == damage_after(
                    old(self).combat.current_damage_spec() as nat,
                    carried,
                    old(self).body.actual as nat,
                    zone,
                )
                &&& final(self).combat.notes_spec() == notes_after(
                    old(self).combat.notes_spec(),
                    carried,
                    old(self).body.actual as nat,
                    zone,
                )
            }),
    {
        let ghost inv0 = self.inventory@;
        let ghost worn = self.combat.worn_spec();
        let ghost hard = hardness(inv0);
        let ghost target = through_layers(
            zone_levels(inv0, zone),
            hard,
            worn,
            damage as nat,
            damage_type,
        );
        proof {
            assert(worn.take(worn.len() as int) =~= worn);
            lemma_layers_conserve(zone_levels(inv0, zone), hard, worn, damage as nat, damage_type);
        }
        let mut remaining: usize = damage;
        let mut absorbed: usize = 0;
        let mut k: usize = self.combat.worn_armor.len();
        while k > 0
            invariant
                k <= worn.len(),
                self.wf(),
                self.same_profile(*old(self)),
                self.combat == old(self).combat,
                self.combat.worn_spec() == worn,
                self.inventory@.len() == inv0.len(),
                forall|i: int|
                    0 <= i < inv0.len() ==> same_entry_except_zone(
                        #[trigger] self.inventory@[i],
                        inv0[i],
                        zone,
                    ),
                hardness(self.inventory@) == hard,
                target.1 + target.2 <= damage,
                ({
                    let t = through_layers(
                        zone_levels(self.inventory@, zone),
                        hard,
                        worn.take(k as int),
                        remaining as nat,
                        damage_type,
                    );
                    t.0 == target.0 && t.1 == target.1 && t.2 + absorbed == target.2
                }),
            decreases k,
        {
            let id = self.combat.worn_armor[k - 1];
            let ghost before = self.inventory@;
            let ghost levels = zone_levels(before, zone);
            proof {
                assert(worn.take(k as int).drop_last() =~= worn.take(k - 1));
                assert(worn.take(k as int).last() == id);
                assert(hard[id as int] == before[id as int]->Armor_0.is_hard_spec());
                lemma_layers_conserve(
                    levels.update(
                        id as int,
                        level_after_hit(levels[id as int], hard[id as int], remaining as nat, damage_type),
                    ),
                    hard,
                    worn.take(k - 1),
                    remaining_after_hit(levels[id as int], hard[id as int], remaining as nat, damage_type),
                    damage_type,
                );
            }
            let r = self.inventory.hit_armor(id, remaining, zone, damage_type);
            proof {
                assert(zone_levels(self.inventory@, zone) =~= levels.update(
                    id as int,
                    level_after_hit(levels[id as int], hard[id as int], remaining as nat, damage_type),
                ));
                assert(hardness(self.inventory@) =~= hard);
            }
            remaining = r.remaining_damage;
            absorbed = absorbed + r.absorbed_damage;
            k = k - 1;
        }
        proof {
            assert(worn.take(0) =~= Seq::<usize>::empty());
        }
        let carried = remaining + absorbed / 5;
        self.take_damage(carried, zone);
    }
    /// Puts on the armor at inventory position `armor`: as the new outermost layer, or,
    /// with `underneath`, just inside that worn armor.
    pub fn wear(&mut self, armor: usize, underneath: Option<usize>) -> (r: Result<(), EquipError>)
        requires
            old(self).wf(),
        ensures
            final(self).wf(),
            r == wear_check(old(self).inventory@, old(self).combat.worn_spec(), armor, underneath),
            r is Ok ==> final(self).combat.worn_spec() == worn_after(
                old(self).combat.worn_spec(),
                armor,
                underneath,
            ),
            r is Err ==> final(self).combat.worn_spec() == old(self).combat.worn_spec(),
            final(self).same_profile(*old(self)),
            final(self).inventory == old(self).inventory,
            final(self).combat.current_damage_spec() == old(self).combat.current_damage_spec(),
            final(self).combat.notes_spec() == old(self).combat.notes_spec(),
    {
        let len = self.inventory.len();
        if armor >= len {
            return Err(EquipError::NotFound);
        }
        if let Some(u) = underneath {
            if u >= len {
                return Err(EquipError::NotFound);
            }
        }
        match self.inventory.get(armor) {
            Some(InventoryEntry::Armor(_)) => {},
            _ => {
                return Err(EquipError::NotArmor);
            },
        }
        let ghost worn = self.combat.worn_spec();
        match underneath {
            None => {
                self.combat.worn_armor.push(armor);
            },
            Some(u) => {
                let mut i: usize = 0;
                while i < self.combat.worn_armor.len() && self.combat.worn_armor[i] != u
                    invariant
                        i <= worn.len(),
                        self.combat.worn_spec() == worn,
                        forall|j: int| 0 <= j < i ==> worn[j] != u,
                    decreases worn.len() - i,
                {
                    i = i + 1;
                }
                if i == self.combat.worn_armor.len() {
                    return Err(EquipError::NotWorn);
                }
                proof {
                    assert(worn[i as int] == u);
                    worn.index_of_first_ensures(u);
                    let first = worn.index_of_first(u)->Some_0;
                    assert(!(first < i));
                    assert(!(first > i));
                }
                self.combat.worn_armor.insert(i, armor);
            },
        }
        Ok(())
    }
}

} // verus!
