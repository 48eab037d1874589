//! Combat resolution for a tabletop role-playing game: layered armor absorbs
//! incoming hits, and what gets through is applied to a character's health.
pub mod armor;
pub mod character;
pub mod inventory;
pub mod weapons;

pub use self::armor::{Armor, DamageResult, HitZone};
pub use self::character::{body_type_modifier, Attribute, Character, CombatState, EquipError, List, Skill};
pub use self::inventory::{Inventory, InventoryEntry, InventoryItem, Item};
pub use self::weapons::DamageType;
