use vstd::prelude::*;

verus! {

/// How an attack deals its damage; each kind meets armor in its own way.
#[derive(Debug, Clone, Copy, PartialEq, Eq, Structural, Hash)]
pub enum DamageType {
    Blunt,
    Slashing,
    ArmorPiercing,
    HollowPoint,
}

impl DamageType {
    /// The name of the damage type, as it is written in the rules.
    pub fn name(&self) -> (r: &'static str)
        ensures
            r@ == self.spec_name()@,
    {
        match self {
            DamageType::Blunt => "Blunt",
            DamageType::Slashing => "Slashing",
            DamageType::ArmorPiercing => "ArmorPiercing",
            DamageType::HollowPoint => "HollowPoint",
        }
    }

    pub open spec fn spec_name(&self) -> &'static str {
        match self {
            DamageType::Blunt => "Blunt",
            DamageType::Slashing => "Slashing",
            DamageType::ArmorPiercing => "ArmorPiercing",
            DamageType::HollowPoint => "HollowPoint",
        }
    }
}

} // verus!
