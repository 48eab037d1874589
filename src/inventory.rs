use crate::armor::{
    absorbed_in_hit, level_after_hit, remaining_after_hit, Armor, DamageResult, HitZone,
};
use crate::weapons::DamageType;
use vstd::prelude::*;

verus! {

/// A thing that can be carried: its name, how many, their weight and price.
pub struct Item {
    pub name: String,
    pub amount: usize,
    pub weight_grams: usize,
    pub price_eb: usize,
    pub comment: String,
}

impl Item {
    pub fn new(
        name: String,
        amount: usize,
        weight_grams: usize,
        price_eb: usize,
        comment: String,
    ) -> (r: Self)
        ensures
            r.name == name,
            r.amount == amount,
            r.weight_grams == weight_grams,
            r.price_eb == price_eb,
            r.comment == comment,
    {
        Item { name, amount, weight_grams, price_eb, comment }
    }
}

/// Anything that is carried as an item.
pub trait InventoryItem {
    /// The item record of this thing.
    spec fn item_record(&self) -> Item;

    fn get_item(&self) -> (r: &Item)
        ensures
            *r == self.item_record(),
    ;

    /// The item record of this thing, for changing it.
    fn get_item_mut(&mut self) -> (r: &mut Item)
        ensures
            *r == old(self).item_record(),
            final(self).item_record() == *final(r),
    ;
}

impl InventoryItem for Item {
    open spec fn item_record(&self) -> Item {
        *self
    }

    fn get_item(&self) -> (r: &Item) {
        self
    }

    fn get_item_mut(&mut self) -> (r: &mut Item) {
        self
    }
}

impl InventoryItem for Armor {
    open spec fn item_record(&self) -> Item {
        self.item_spec()
    }

    fn get_item(&self) -> (r: &Item) {
        self.item()
    }

    fn get_item_mut(&mut self) -> (r: &mut Item) {
        self.item_mut()
    }
}

/// One thing in an inventory: a plain item, or a piece of armor.
pub enum InventoryEntry {
    Plain(Item),
    Armor(Armor),
}

impl InventoryEntry {
    pub open spec fn wf(self) -> bool {
        match self {
            InventoryEntry::Plain(_) => true,
            InventoryEntry::Armor(a) => a.wf(),
        }
    }

    /// The item record of the entry.
    pub open spec fn item_spec(self) -> Item {
        match self {
            InventoryEntry::Plain(i) => i,
            InventoryEntry::Armor(a) => a.item_spec(),
        }
    }

    pub fn item(&self) -> (r: &Item)
        ensures
            *r == self.item_spec(),
    {
        match self {
            InventoryEntry::Plain(i) => i,
            InventoryEntry::Armor(a) => a.item(),
        }
    }
}

impl InventoryItem for InventoryEntry {
    open spec fn item_record(&self) -> Item {
        self.item_spec()
    }

    fn get_item(&self) -> (r: &Item) {
        self.item()
    }

    fn get_item_mut(&mut self) -> (r: &mut Item) {
        match self {
            InventoryEntry::Plain(i) => i,
            InventoryEntry::Armor(a) => a.item_mut(),
        }
    }
}

/// The weight that an item stands for: each of its pieces at its weight.
pub open spec fn item_weight(i: Item) -> nat {
    (i.amount * i.weight_grams) as nat
}

/// The weight of all the entries.
pub open spec fn total_weight(s: Seq<InventoryEntry>) -> nat
    decreases s.len(),
{
    if s.len() == 0 {
        0
    } else {
        total_weight(s.drop_last()) + item_weight(s.last().item_spec())
    }
}

/// A longer prefix weighs at least as much.
proof fn lemma_total_weight_prefix(s: Seq<InventoryEntry>, i: int, j: int)
    requires
        0 <= i <= j <= s.len(),
    ensures
        total_weight(s.take(i)) <= total_weight(s.take(j)),
    decreases j - i,
{
    if i < j {
        lemma_total_weight_prefix(s, i, j - 1);
        assert(s.take(j).drop_last() =~= s.take(j - 1));
    }
}

/// Everything a character carries, in the order it was added. An entry is known by its
/// position, which never changes.
pub struct Inventory {
    items: Vec<InventoryEntry>,
}

impl View for Inventory {
    type V = Seq<InventoryEntry>;

    closed spec fn view(&self) -> Seq<InventoryEntry> {
        self.items@
    }
}

impl Inventory {
    /// Every piece of armor in the inventory is well formed.
    pub open spec fn wf(self) -> bool {
        forall|i: int| 0 <= i < self@.len() ==> (#[trigger] self@[i]).wf()
    }

    pub fn new() -> (r: Inventory)
        ensures
            r@ == Seq::<InventoryEntry>::empty(),
            r.wf(),
    {
        Inventory { items: Vec::new() }
    }

    /// The weight of everything in the inventory, in grams.
    pub fn calc_total_weight(&self) -> (r: usize)
        requires
            total_weight(self@) <= usize::MAX,
        ensures
            r == total_weight(self@),
    {
        let mut total: usize = 0;
        let mut i: usize = 0;
        while i < self.items.len()
            invariant
                i <= self@.len(),
                self@ == self.items@,
                total == total_weight(self@.take(i as int)),
                total_weight(self@) <= usize::MAX,
            decreases self@.len() - i,
        {
            let item = self.items[i].item();
            proof {
                lemma_total_weight_prefix(self@, i + 1, self@.len() as int);
                assert(self@.take(i + 1).drop_last() =~= self@.take(i as int));
                assert(self@.take(self@.len() as int) =~= self@);
            }
            total = total + item.amount * item.weight_grams;
            i = i + 1;
        }
        assert(self@.take(self@.len() as int) =~= self@);
        total
    }

    /// The weight of everything in the inventory, in grams, or `None` where it does not
    /// fit in a `usize`.
    pub fn checked_total_weight(&self) -> (r: Option<usize>)
        ensures
            total_weight(self@) <= usize::MAX ==> r == Some(total_weight(self@) as usize),
            total_weight(self@) > usize::MAX ==> r == None::<usize>,
    {
        let mut total: usize = 0;
        let mut i: usize = 0;
        while i < self.items.len()
            invariant
                i <= self@.len(),
                self@ == self.items@,
                total == total_weight(self@.take(i as int)),
            decreases self@.len() - i,
        {
            let item = self.items[i].item();
            proof {
                lemma_total_weight_prefix(self@, i + 1, self@.len() as int);
                assert(self@.take(i + 1).drop_last() =~= self@.take(i as int));
                assert(self@.take(self@.len() as int) =~= self@);
            }
            match item.amount.checked_mul(item.weight_grams) {
                None => {
                    return None;
                },
                Some(w) => match total.checked_add(w) {
                    None => {
                        return None;
                    },
                    Some(t) => {
                        total = t;
                    },
                },
            }
            i = i + 1;
        }
        assert(self@.take(self@.len() as int) =~= self@);
        Some(total)
    }

    /// Adds an entry at the end; its position is the former length.
    pub fn push(&mut self, item: InventoryEntry)
        requires
            old(self).wf(),
            item.wf(),
        ensures
            final(self)@ == old(self)@.push(item),
            final(self).wf(),
    {
        self.items.push(item);
        assert forall|i: int| 0 <= i < self@.len() implies (#[trigger] self@[i]).wf() by {
            if i < old(self)@.len() {
                assert(old(self)@[i].wf());
            }
        }
    }

    pub fn len(&self) -> (r: usize)
        ensures
            r == self@.len(),
    {
        self.items.len()
    }

    /// The entry at position `id`, if there is one.
    pub fn get(&self, id: usize) -> (r: Option<&InventoryEntry>)
        ensures
            id < self@.len() ==> r == Some(&self@[id as int]),
            id >= self@.len() ==> r == None::<&InventoryEntry>,
    {
        if id < self.items.len() {
            Some(&self.items[id])
        } else {
            None
        }
    }

    /// Resolves a hit against the armor at position `id` alone, as `Armor::hit` does.
    pub fn hit_armor(&mut self, id: usize, damage: usize, zone: HitZone, damage_type: DamageType) -> (r:
        DamageResult)
        requires
            old(self).wf(),
            id < old(self)@.len(),
            old(self)@[id as int] is Armor,
        ensures
            final(self).wf(),
            final(self)@.len() == old(self)@.len(),
            forall|i: int| 0 <= i < old(self)@.len() && i != id ==> final(self)@[i] == old(self)@[i],
            final(self)@[id as int] is Armor,
            final(self)@[id as int]->Armor_0.same_except_zone(old(self)@[id as int]->Armor_0, zone),
            final(self)@[id as int]->Armor_0.protection_spec(zone) == level_after_hit(
                old(self)@[id as int]->Armor_0.protection_spec(zone),
                old(self)@[id as int]->Armor_0.is_hard_spec(),
                damage as nat,
                damage_type,
            ),
            r.remaining_damage == remaining_after_hit(
                old(self)@[id as int]->Armor_0.protection_spec(zone),
                old(self)@[id as int]->Armor_0.is_hard_spec(),
                damage as nat,
                damage_type,
            ),
            r.absorbed_damage == absorbed_in_hit(
                old(self)@[id as int]->Armor_0.protection_spec(zone),
                old(self)@[id as int]->Armor_0.is_hard_spec(),
                damage as nat,
                damage_type,
            ),
    {
        assert(old(self)@[id as int].wf());
        match &mut self.items[id] {
            InventoryEntry::Armor(a) => a.hit(damage, zone, damage_type),
            InventoryEntry::Plain(_) => DamageResult { remaining_damage: damage, absorbed_damage: 0 },
        }
    }
}

} // verus!
