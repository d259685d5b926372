//! The parts a unit design is assembled from.
use crate::content::{armor_power, weapon_power};
use vstd::prelude::*;

verus! {

#[derive(Clone, Copy, Debug, PartialEq, Eq, Structural)]
pub enum Chassis {
    Infantry,
    Speeder,
    Hovertank,
    Aircraft,
    Sea,
}

/// A weapon and its attack power.
#[derive(Clone, Copy, Debug, PartialEq, Eq, Structural)]
pub enum Weapon {
    HandLaser(i32),
    ResonanceLaser(i32),
    PlasmaBolt(i32),
    PlanetBuster(i32),
}

/// An armor and its defense power.
#[derive(Clone, Copy, Debug, PartialEq, Eq, Structural)]
pub enum Armor {
    SynthMetal(i32),
    ResonanceArmor(i32),
    PlasmaSteel(i32),
    MonolithArmor(i32),
}

#[derive(Clone, Copy, Debug, PartialEq, Eq, Structural)]
pub enum Ability {
    AirSuperiority,
    Amphibious,
    Artillery,
    CommJammer,
    DeepPressureHull,
    DropPod,
    Escort,
    NonLethalMethods,
    Probe,
    Raid,
    Trance,
    Transport,
}

/// A unit design from a faction's workshop.
#[derive(Clone, Debug, PartialEq, Eq)]
pub struct UnitDesign {
    pub name: String,
    pub chassis: Chassis,
    pub weapon: Weapon,
    pub armor: Armor,
    pub abilities: Vec<Ability>,
    /// Mineral cost of building one unit of this design.
    pub cost: u32,
}

impl UnitDesign {
    /// Attack strength of units built from this design: its weapon's power.
    pub fn attack_strength(&self) -> (r: i32)
        ensures
            r == weapon_power(self.weapon),
    {
        match self.weapon {
            Weapon::HandLaser(p) => p,
            Weapon::ResonanceLaser(p) => p,
            Weapon::PlasmaBolt(p) => p,
            Weapon::PlanetBuster(p) => p,
        }
    }

    /// Defense strength of units built from this design: its armor's power.
    pub fn defense_strength(&self) -> (r: i32)
        ensures
            r == armor_power(self.armor),
    {
        match self.armor {
            Armor::SynthMetal(p) => p,
            Armor::ResonanceArmor(p) => p,
            Armor::PlasmaSteel(p) => p,
            Armor::MonolithArmor(p) => p,
        }
    }
}

} // verus!
