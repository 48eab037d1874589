use rusted_punk::{Armor, DamageResult, DamageType, HitZone, InventoryItem};

fn flak_vest() -> Armor {
    Armor::new(
        "Flak Vest".to_string(),
        2,
        1000,
        100,
        "Hard armor with 20 SP".to_string(),
        20,
        vec![
            HitZone::Chest,
            HitZone::LeftArm,
            HitZone::RightArm,
            HitZone::Vitals,
            HitZone::Stomach,
        ],
        true,
        1,
    )
}

fn kevlar_shirt() -> Armor {
    Armor::new(
        "Kevlar Shirt".to_string(),
        2,
        1000,
        100,
        "Soft armor with 10 SP".to_string(),
        10,
        vec![HitZone::Chest, HitZone::Vitals, HitZone::Stomach],
        false,
        0,
    )
}

fn plate(protection: usize, is_hard: bool) -> Armor {
    Armor::new(
        "Plate".to_string(),
        1,
        500,
        10,
        String::new(),
        protection,
        vec![HitZone::Chest],
        is_hard,
        0,
    )
}

#[test]
fn test_armor_hit_ap_hard() {
    let mut vest = flak_vest();
    let damage = 10;
    let result = vest.hit(damage, HitZone::Chest, DamageType::ArmorPiercing);
    assert_eq!(result.remaining_damage, 0);
    assert_eq!(result.absorbed_damage, 10);
    assert_eq!(vest.protection(HitZone::Chest), Some(20));
}

#[test]
fn test_armor_hit_ap_soft() {
    let mut vest = kevlar_shirt();
    let damage = 10;
    let result = vest.hit(damage, HitZone::Chest, DamageType::ArmorPiercing);
    assert_eq!(result.remaining_damage, 3);
    assert_eq!(result.absorbed_damage, 5);
    assert_eq!(vest.protection(HitZone::Chest), Some(9));
}

#[test]
fn new_armor_covers_only_its_zones() {
    let vest = flak_vest();
    assert_eq!(vest.protection(HitZone::Chest), Some(20));
    assert_eq!(vest.protection(HitZone::LeftArm), Some(20));
    assert_eq!(vest.protection(HitZone::Stomach), Some(20));
    assert_eq!(vest.protection(HitZone::Head), None);
    assert_eq!(vest.protection(HitZone::RightFoot), None);
    assert_eq!(vest.protection_max(), 20);
    assert!(vest.is_hard());
    assert_eq!(vest.encumbrance(), 1);
    assert_eq!(vest.item().name, "Flak Vest");
    assert_eq!(vest.get_item().amount, 2);
}

#[test]
fn item_of_armor_can_be_changed() {
    let mut vest = flak_vest();
    vest.get_item_mut().amount = 5;
    assert_eq!(vest.item().amount, 5);
    assert_eq!(vest.protection(HitZone::Chest), Some(20));
}

#[test]
fn blunt_tie_goes_to_armor() {
    let mut a = plate(10, false);
    let r = a.hit(10, HitZone::Chest, DamageType::Blunt);
    assert_eq!(r, DamageResult { remaining_damage: 0, absorbed_damage: 10 });
    assert_eq!(a.protection(HitZone::Chest), Some(10));
}

#[test]
fn blunt_below_protection_is_stopped() {
    let mut a = plate(10, false);
    let r = a.hit(4, HitZone::Chest, DamageType::Blunt);
    assert_eq!(r, DamageResult { remaining_damage: 0, absorbed_damage: 4 });
    assert_eq!(a.protection(HitZone::Chest), Some(10));
}

#[test]
fn blunt_penetration_costs_one_point() {
    let mut a = plate(10, false);
    let r = a.hit(15, HitZone::Chest, DamageType::Blunt);
    assert_eq!(r, DamageResult { remaining_damage: 5, absorbed_damage: 10 });
    assert_eq!(a.protection(HitZone::Chest), Some(9));
}

#[test]
fn huge_hit_costs_only_one_point() {
    let mut a = plate(10, true);
    let r = a.hit(1000, HitZone::Chest, DamageType::Blunt);
    assert_eq!(r, DamageResult { remaining_damage: 990, absorbed_damage: 10 });
    assert_eq!(a.protection(HitZone::Chest), Some(9));
    let r = a.hit(1000, HitZone::Chest, DamageType::Blunt);
    assert_eq!(r, DamageResult { remaining_damage: 991, absorbed_damage: 9 });
    assert_eq!(a.protection(HitZone::Chest), Some(8));
}

#[test]
fn worn_out_armor_stays_at_zero() {
    let mut a = plate(0, true);
    let r = a.hit(3, HitZone::Chest, DamageType::Blunt);
    assert_eq!(r, DamageResult { remaining_damage: 3, absorbed_damage: 0 });
    assert_eq!(a.protection(HitZone::Chest), Some(0));
    let r = a.hit(0, HitZone::Chest, DamageType::Blunt);
    assert_eq!(r, DamageResult { remaining_damage: 0, absorbed_damage: 0 });
    assert_eq!(a.protection(HitZone::Chest), Some(0));
}

#[test]
fn armor_piercing_halves_protection_and_rest() {
    let mut a = plate(20, true);
    let r = a.hit(15, HitZone::Chest, DamageType::ArmorPiercing);
    assert_eq!(r, DamageResult { remaining_damage: 3, absorbed_damage: 10 });
    assert_eq!(a.protection(HitZone::Chest), Some(19));
}

#[test]
fn armor_piercing_rounds_protection_down() {
    let mut a = plate(9, false);
    let r = a.hit(4, HitZone::Chest, DamageType::ArmorPiercing);
    assert_eq!(r, DamageResult { remaining_damage: 0, absorbed_damage: 4 });
    assert_eq!(a.protection(HitZone::Chest), Some(9));
    let r = a.hit(5, HitZone::Chest, DamageType::ArmorPiercing);
    assert_eq!(r, DamageResult { remaining_damage: 1, absorbed_damage: 4 });
    assert_eq!(a.protection(HitZone::Chest), Some(8));
}

#[test]
fn hollow_point_halves_damage_rounding_up() {
    let mut a = plate(10, true);
    let r = a.hit(20, HitZone::Chest, DamageType::HollowPoint);
    assert_eq!(r, DamageResult { remaining_damage: 0, absorbed_damage: 10 });
    assert_eq!(a.protection(HitZone::Chest), Some(10));
    let r = a.hit(21, HitZone::Chest, DamageType::HollowPoint);
    assert_eq!(r, DamageResult { remaining_damage: 1, absorbed_damage: 10 });
    assert_eq!(a.protection(HitZone::Chest), Some(9));
    let r = a.hit(25, HitZone::Chest, DamageType::HollowPoint);
    assert_eq!(r, DamageResult { remaining_damage: 4, absorbed_damage: 9 });
    assert_eq!(a.protection(HitZone::Chest), Some(8));
}

#[test]
fn hollow_point_on_largest_damage() {
    let mut a = plate(10, true);
    let r = a.hit(usize::MAX, HitZone::Chest, DamageType::HollowPoint);
    assert_eq!(r.absorbed_damage, 10);
    assert_eq!(r.remaining_damage, usize::MAX / 2 + 1 - 10);
}

#[test]
fn slashing_meets_half_of_soft_armor() {
    let mut a = plate(9, false);
    let r = a.hit(5, HitZone::Chest, DamageType::Slashing);
    assert_eq!(r, DamageResult { remaining_damage: 0, absorbed_damage: 5 });
    assert_eq!(a.protection(HitZone::Chest), Some(9));
    let r = a.hit(8, HitZone::Chest, DamageType::Slashing);
    assert_eq!(r, DamageResult { remaining_damage: 3, absorbed_damage: 5 });
    assert_eq!(a.protection(HitZone::Chest), Some(8));
}

#[test]
fn slashing_meets_all_of_hard_armor() {
    let mut a = plate(9, true);
    let r = a.hit(9, HitZone::Chest, DamageType::Slashing);
    assert_eq!(r, DamageResult { remaining_damage: 0, absorbed_damage: 9 });
    assert_eq!(a.protection(HitZone::Chest), Some(9));
    let r = a.hit(12, HitZone::Chest, DamageType::Slashing);
    assert_eq!(r, DamageResult { remaining_damage: 3, absorbed_damage: 9 });
    assert_eq!(a.protection(HitZone::Chest), Some(8));
}

#[test]
fn uncovered_zone_lets_everything_through() {
    let mut vest = flak_vest();
    let r = vest.hit(50, HitZone::Head, DamageType::Blunt);
    assert_eq!(r, DamageResult { remaining_damage: 50, absorbed_damage: 0 });
    assert_eq!(vest.protection(HitZone::Head), None);
    assert_eq!(vest.protection(HitZone::Chest), Some(20));
    assert_eq!(vest.protection(HitZone::LeftArm), Some(20));
}

#[test]
fn hit_changes_only_the_zone_hit() {
    let mut vest = flak_vest();
    vest.hit(50, HitZone::LeftArm, DamageType::Blunt);
    assert_eq!(vest.protection(HitZone::LeftArm), Some(19));
    assert_eq!(vest.protection(HitZone::Chest), Some(20));
    assert_eq!(vest.protection(HitZone::RightArm), Some(20));
}

#[test]
fn names_of_zones_and_damage_types() {
    assert_eq!(HitZone::LeftArm.name(), "LeftArm");
    assert_eq!(HitZone::Vitals.name(), "Vitals");
    assert_eq!(HitZone::Head.index(), 0);
    assert_eq!(HitZone::RightFoot.index(), 13);
    assert_eq!(DamageType::ArmorPiercing.name(), "ArmorPiercing");
    assert_eq!(DamageType::HollowPoint.name(), "HollowPoint");
}
