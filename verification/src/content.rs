//! The game's rules data: names, costs, unit statistics, the tech tree,
//! faction profiles and interface strings.
use crate::components::{Armor, Chassis, Weapon};
use crate::model::{Facility, ProductionItem, Tech, UnitKind};
use crate::text::text_eq;
use vstd::prelude::*;

verus! {

/// The display name of a unit kind.
pub open spec fn unit_name_text(kind: UnitKind) -> Seq<char> {
    match kind {
        UnitKind::ColonyPod => "Colony Pod"@,
        UnitKind::SeaColonyPod => "Sea Colony Pod"@,
        UnitKind::ScoutPatrol => "Scout Patrol"@,
        UnitKind::Former => "Former"@,
        UnitKind::Speeder => "Speeder"@,
        UnitKind::ResonanceLaser => "Resonance Laser"@,
        UnitKind::EscortSpeeder => "Escort Speeder"@,
        UnitKind::RaiderSpeeder => "Raider Speeder"@,
        UnitKind::TranceScout => "Trance Scout"@,
        UnitKind::GarrisonGuard => "Garrison Guard"@,
        UnitKind::PsiSentinel => "Psi Sentinel"@,
        UnitKind::MindWorm => "Mind Worm"@,
        UnitKind::IsleOfTheDeep => "Isle of the Deep"@,
        UnitKind::Needlejet => "Needlejet"@,
        UnitKind::ProbeTeam => "Probe Team"@,
        UnitKind::SeaTransport => "Sea Transport"@,
        UnitKind::CustomUnit(_) => "Custom Unit"@,
    }
}

pub fn unit_name(kind: &UnitKind) -> (r: &'static str)
    ensures
        r@ == unit_name_text(*kind),
{
    match kind {
        UnitKind::ColonyPod => "Colony Pod",
        UnitKind::SeaColonyPod => "Sea Colony Pod",
        UnitKind::ScoutPatrol => "Scout Patrol",
        UnitKind::Former => "Former",
        UnitKind::Speeder => "Speeder",
        UnitKind::ResonanceLaser => "Resonance Laser",
        UnitKind::EscortSpeeder => "Escort Speeder",
        UnitKind::RaiderSpeeder => "Raider Speeder",
        UnitKind::TranceScout => "Trance Scout",
        UnitKind::GarrisonGuard => "Garrison Guard",
        UnitKind::PsiSentinel => "Psi Sentinel",
        UnitKind::MindWorm => "Mind Worm",
        UnitKind::IsleOfTheDeep => "Isle of the Deep",
        UnitKind::Needlejet => "Needlejet",
        UnitKind::ProbeTeam => "Probe Team",
        UnitKind::SeaTransport => "Sea Transport",
        UnitKind::CustomUnit(_) => "Custom Unit",
    }
}

/// Movement points of a chassis.
pub open spec fn chassis_moves(c: Chassis) -> i32 {
    match c {
        Chassis::Infantry => 1,
        Chassis::Speeder => 2,
        Chassis::Hovertank => 3,
        Chassis::Aircraft => 8,
        Chassis::Sea => 4,
    }
}

/// Attack power of a weapon.
pub open spec fn weapon_power(weapon: Weapon) -> i32 {
    match weapon {
        Weapon::HandLaser(p) => p,
        Weapon::ResonanceLaser(p) => p,
        Weapon::PlasmaBolt(p) => p,
        Weapon::PlanetBuster(p) => p,
    }
}

/// Defense power of an armor.
pub open spec fn armor_power(armor: Armor) -> i32 {
    match armor {
        Armor::SynthMetal(p) => p,
        Armor::ResonanceArmor(p) => p,
        Armor::PlasmaSteel(p) => p,
        Armor::MonolithArmor(p) => p,
    }
}

/// Movement points per turn of a unit kind; a custom design moves as its chassis.
pub open spec fn unit_moves_value(kind: UnitKind) -> i32 {
    match kind {
        UnitKind::ColonyPod => 1,
        UnitKind::SeaColonyPod => 4,
        UnitKind::ScoutPatrol => 1,
        UnitKind::Former => 1,
        UnitKind::Speeder => 2,
        UnitKind::ResonanceLaser => 1,
        UnitKind::EscortSpeeder => 2,
        UnitKind::RaiderSpeeder => 3,
        UnitKind::TranceScout => 1,
        UnitKind::GarrisonGuard => 1,
        UnitKind::PsiSentinel => 1,
        UnitKind::MindWorm => 1,
        UnitKind::IsleOfTheDeep => 6,
        UnitKind::Needlejet => 8,
        UnitKind::ProbeTeam => 2,
        UnitKind::SeaTransport => 4,
        UnitKind::CustomUnit(d) => chassis_moves(d.chassis),
    }
}

pub fn unit_max_moves(kind: &UnitKind) -> (r: i32)
    ensures
        r == unit_moves_value(*kind),
{
    match kind {
        UnitKind::ColonyPod => 1,
        UnitKind::SeaColonyPod => 4,
        UnitKind::ScoutPatrol => 1,
        UnitKind::Former => 1,
        UnitKind::Speeder => 2,
        UnitKind::ResonanceLaser => 1,
        UnitKind::EscortSpeeder => 2,
        UnitKind::RaiderSpeeder => 3,
        UnitKind::TranceScout => 1,
        UnitKind::GarrisonGuard => 1,
        UnitKind::PsiSentinel => 1,
        UnitKind::MindWorm => 1,
        UnitKind::IsleOfTheDeep => 6,
        UnitKind::Needlejet => 8,
        UnitKind::ProbeTeam => 2,
        UnitKind::SeaTransport => 4,
        UnitKind::CustomUnit(d) => match d.chassis {
            Chassis::Infantry => 1,
            Chassis::Speeder => 2,
            Chassis::Hovertank => 3,
            Chassis::Aircraft => 8,
            Chassis::Sea => 4,
        },
    }
}

/// Attack strength of a unit kind; a custom design attacks with its weapon.
pub open spec fn unit_attack_value(kind: UnitKind) -> i32 {
    match kind {
        UnitKind::ColonyPod => 0,
        UnitKind::SeaColonyPod => 0,
        UnitKind::ScoutPatrol => 1,
        UnitKind::Former => 0,
        UnitKind::Speeder => 2,
        UnitKind::ResonanceLaser => 4,
        UnitKind::EscortSpeeder => 1,
        UnitKind::RaiderSpeeder => 3,
        UnitKind::TranceScout => 1,
        UnitKind::GarrisonGuard => 1,
        UnitKind::PsiSentinel => 1,
        UnitKind::MindWorm => 3,
        UnitKind::IsleOfTheDeep => 4,
        UnitKind::Needlejet => 5,
        UnitKind::ProbeTeam => 0,
        UnitKind::SeaTransport => 0,
        UnitKind::CustomUnit(d) => weapon_power(d.weapon),
    }
}

pub fn unit_attack(kind: &UnitKind) -> (r: i32)
    ensures
        r == unit_attack_value(*kind),
{
    match kind {
        UnitKind::ColonyPod => 0,
        UnitKind::SeaColonyPod => 0,
        UnitKind::ScoutPatrol => 1,
        UnitKind::Former => 0,
        UnitKind::Speeder => 2,
        UnitKind::ResonanceLaser => 4,
        UnitKind::EscortSpeeder => 1,
        UnitKind::RaiderSpeeder => 3,
        UnitKind::TranceScout => 1,
        UnitKind::GarrisonGuard => 1,
        UnitKind::PsiSentinel => 1,
        UnitKind::MindWorm => 3,
        UnitKind::IsleOfTheDeep => 4,
        UnitKind::Needlejet => 5,
        UnitKind::ProbeTeam => 0,
        UnitKind::SeaTransport => 0,
        UnitKind::CustomUnit(d) => match d.weapon {
            Weapon::HandLaser(p) => p,
            Weapon::ResonanceLaser(p) => p,
            Weapon::PlasmaBolt(p) => p,
            Weapon::PlanetBuster(p) => p,
        },
    }
}

/// Defense strength of a unit kind; a custom design defends with its armor.
pub open spec fn unit_defense_value(kind: UnitKind) -> i32 {
    match kind {
        UnitKind::ColonyPod => 1,
        UnitKind::SeaColonyPod => 1,
        UnitKind::ScoutPatrol => 1,
        UnitKind::Former => 1,
        UnitKind::Speeder => 1,
        UnitKind::ResonanceLaser => 2,
        UnitKind::EscortSpeeder => 3,
        UnitKind::RaiderSpeeder => 1,
        UnitKind::TranceScout => 2,
        UnitKind::GarrisonGuard => 3,
        UnitKind::PsiSentinel => 4,
        UnitKind::MindWorm => 1,
        UnitKind::IsleOfTheDeep => 2,
        UnitKind::Needlejet => 1,
        UnitKind::ProbeTeam => 1,
        UnitKind::SeaTransport => 1,
        UnitKind::CustomUnit(d) => armor_power(d.armor),
    }
}

pub fn unit_defense(kind: &UnitKind) -> (r: i32)
    ensures
        r == unit_defense_value(*kind),
{
    match kind {
        UnitKind::ColonyPod => 1,
        UnitKind::SeaColonyPod => 1,
        UnitKind::ScoutPatrol => 1,
        UnitKind::Former => 1,
        UnitKind::Speeder => 1,
        UnitKind::ResonanceLaser => 2,
        UnitKind::EscortSpeeder => 3,
        UnitKind::RaiderSpeeder => 1,
        UnitKind::TranceScout => 2,
        UnitKind::GarrisonGuard => 3,
        UnitKind::PsiSentinel => 4,
        UnitKind::MindWorm => 1,
        UnitKind::IsleOfTheDeep => 2,
        UnitKind::Needlejet => 1,
        UnitKind::ProbeTeam => 1,
        UnitKind::SeaTransport => 1,
        UnitKind::CustomUnit(d) => match d.armor {
            Armor::SynthMetal(p) => p,
            Armor::ResonanceArmor(p) => p,
            Armor::PlasmaSteel(p) => p,
            Armor::MonolithArmor(p) => p,
        },
    }
}

/// The display name of a production item.
pub open spec fn production_name_text(item: ProductionItem) -> Seq<char> {
    match item {
        ProductionItem::ScoutPatrol => "Scout Patrol"@,
        ProductionItem::ColonyPod => "Colony Pod"@,
        ProductionItem::SeaColonyPod => "Sea Colony Pod"@,
        ProductionItem::Former => "Former"@,
        ProductionItem::Speeder => "Speeder"@,
        ProductionItem::ResonanceLaser => "Resonance Laser"@,
        ProductionItem::EscortSpeeder => "Escort Speeder"@,
        ProductionItem::RaiderSpeeder => "Raider Speeder"@,
        ProductionItem::TranceScout => "Trance Scout"@,
        ProductionItem::GarrisonGuard => "Garrison Guard"@,
        ProductionItem::PsiSentinel => "Psi Sentinel"@,
        ProductionItem::RecyclingTanks => "Recycling Tanks"@,
        ProductionItem::PerimeterDefense => "Perimeter Defense"@,
        ProductionItem::NetworkNode => "Network Node"@,
        ProductionItem::RecreationCommons => "Recreation Commons"@,
        ProductionItem::Greenhouse => "Greenhouse"@,
        ProductionItem::MineralRefinery => "Mineral Refinery"@,
        ProductionItem::TradeExchange => "Trade Exchange"@,
        ProductionItem::FreightDepot => "Freight Depot"@,
        ProductionItem::PatrolGrid => "Patrol Grid"@,
        ProductionItem::CommandCenter => "Command Center"@,
        ProductionItem::FieldHospital => "Field Hospital"@,
        ProductionItem::MilitaryAcademy => "Military Academy"@,
        ProductionItem::SensorArray => "Sensor Array"@,
        ProductionItem::TransitHub => "Transit Hub"@,
        ProductionItem::PsiBeacon => "Psi Beacon"@,
        ProductionItem::ForwardDepot => "Forward Depot"@,
        ProductionItem::HologramTheatre => "Hologram Theatre"@,
        ProductionItem::BioenhancementCenter => "Bioenhancement Center"@,
        ProductionItem::ResearchHospital => "Research Hospital"@,
        ProductionItem::WeatherPattern => "Weather Paradigm"@,
        ProductionItem::ClinicalImmortality => "Clinical Immortality"@,
        ProductionItem::EmpathGuild => "Empath Guild"@,
        ProductionItem::OrbitalElevator => "Orbital Elevator"@,
        ProductionItem::ManifoldDrive => "Manifold Drive"@,
        ProductionItem::SingularityContainment => "Singularity Containment"@,
        ProductionItem::BlackHoleHarvester => "Black Hole Harvester"@,
        ProductionItem::ProbeTeam => "Probe Team"@,
        ProductionItem::SeaTransport => "Sea Transport"@,
        ProductionItem::CustomUnit(_) => "Custom Unit"@,
        ProductionItem::StockpileEnergy => "Stockpile Energy"@,
        ProductionItem::SkyHydroponics => "Sky Hydroponics Lab"@,
        ProductionItem::SolarTransmitter => "Orbital Power Transmitter"@,
        ProductionItem::OrbitalDefense => "Orbital Defense Pod"@,
    }
}

pub fn production_name(item: ProductionItem) -> (r: &'static str)
    ensures
        r@ == production_name_text(item),
{
    match item {
        ProductionItem::ScoutPatrol => "Scout Patrol",
        ProductionItem::ColonyPod => "Colony Pod",
        ProductionItem::SeaColonyPod => "Sea Colony Pod",
        ProductionItem::Former => "Former",
        ProductionItem::Speeder => "Speeder",
        ProductionItem::ResonanceLaser => "Resonance Laser",
        ProductionItem::EscortSpeeder => "Escort Speeder",
        ProductionItem::RaiderSpeeder => "Raider Speeder",
        ProductionItem::TranceScout => "Trance Scout",
        ProductionItem::GarrisonGuard => "Garrison Guard",
        ProductionItem::PsiSentinel => "Psi Sentinel",
        ProductionItem::RecyclingTanks => "Recycling Tanks",
        ProductionItem::PerimeterDefense => "Perimeter Defense",
        ProductionItem::NetworkNode => "Network Node",
        ProductionItem::RecreationCommons => "Recreation Commons",
        ProductionItem::Greenhouse => "Greenhouse",
        ProductionItem::MineralRefinery => "Mineral Refinery",
        ProductionItem::TradeExchange => "Trade Exchange",
        ProductionItem::FreightDepot => "Freight Depot",
        ProductionItem::PatrolGrid => "Patrol Grid",
        ProductionItem::CommandCenter => "Command Center",
        ProductionItem::FieldHospital => "Field Hospital",
        ProductionItem::MilitaryAcademy => "Military Academy",
        ProductionItem::SensorArray => "Sensor Array",
        ProductionItem::TransitHub => "Transit Hub",
        ProductionItem::PsiBeacon => "Psi Beacon",
        ProductionItem::ForwardDepot => "Forward Depot",
        ProductionItem::HologramTheatre => "Hologram Theatre",
        ProductionItem::BioenhancementCenter => "Bioenhancement Center",
        ProductionItem::ResearchHospital => "Research Hospital",
        ProductionItem::WeatherPattern => "Weather Paradigm",
        ProductionItem::ClinicalImmortality => "Clinical Immortality",
        ProductionItem::EmpathGuild => "Empath Guild",
        ProductionItem::OrbitalElevator => "Orbital Elevator",
        ProductionItem::ManifoldDrive => "Manifold Drive",
        ProductionItem::SingularityContainment => "Singularity Containment",
        ProductionItem::BlackHoleHarvester => "Black Hole Harvester",
        ProductionItem::ProbeTeam => "Probe Team",
        ProductionItem::SeaTransport => "Sea Transport",
        ProductionItem::CustomUnit(_) => "Custom Unit",
        ProductionItem::StockpileEnergy => "Stockpile Energy",
        ProductionItem::SkyHydroponics => "Sky Hydroponics Lab",
        ProductionItem::SolarTransmitter => "Orbital Power Transmitter",
        ProductionItem::OrbitalDefense => "Orbital Defense Pod",
    }
}

/// The minerals it takes to complete a production item.
pub open spec fn production_cost_value(item: ProductionItem) -> i32 {
    match item {
        ProductionItem::ScoutPatrol => 10,
        ProductionItem::ColonyPod => 30,
        ProductionItem::SeaColonyPod => 40,
        ProductionItem::Former => 20,
        ProductionItem::Speeder => 20,
        ProductionItem::ResonanceLaser => 40,
        ProductionItem::EscortSpeeder => 30,
        ProductionItem::RaiderSpeeder => 30,
        ProductionItem::TranceScout => 20,
        ProductionItem::GarrisonGuard => 30,
        ProductionItem::PsiSentinel => 40,
        ProductionItem::RecyclingTanks => 40,
        ProductionItem::PerimeterDefense => 50,
        ProductionItem::NetworkNode => 60,
        ProductionItem::RecreationCommons => 60,
        ProductionItem::Greenhouse => 50,
        ProductionItem::MineralRefinery => 60,
        ProductionItem::TradeExchange => 60,
        ProductionItem::FreightDepot => 60,
        ProductionItem::PatrolGrid => 50,
        ProductionItem::CommandCenter => 60,
        ProductionItem::FieldHospital => 50,
        ProductionItem::MilitaryAcademy => 80,
        ProductionItem::SensorArray => 50,
        ProductionItem::TransitHub => 60,
        ProductionItem::PsiBeacon => 60,
        ProductionItem::ForwardDepot => 60,
        ProductionItem::HologramTheatre => 80,
        ProductionItem::BioenhancementCenter => 100,
        ProductionItem::ResearchHospital => 120,
        ProductionItem::WeatherPattern => 200,
        ProductionItem::ClinicalImmortality => 240,
        ProductionItem::EmpathGuild => 200,
        ProductionItem::OrbitalElevator => 300,
        ProductionItem::ManifoldDrive => 300,
        ProductionItem::SingularityContainment => 320,
        ProductionItem::BlackHoleHarvester => 320,
        ProductionItem::ProbeTeam => 30,
        ProductionItem::SeaTransport => 30,
        ProductionItem::CustomUnit(_) => 40,
        ProductionItem::StockpileEnergy => 10,
        ProductionItem::SkyHydroponics => 120,
        ProductionItem::SolarTransmitter => 120,
        ProductionItem::OrbitalDefense => 120,
    }
}

pub fn production_cost(item: ProductionItem) -> (r: i32)
    ensures
        r == production_cost_value(item),
{
    match item {
        ProductionItem::ScoutPatrol => 10,
        ProductionItem::ColonyPod => 30,
        ProductionItem::SeaColonyPod => 40,
        ProductionItem::Former => 20,
        ProductionItem::Speeder => 20,
        ProductionItem::ResonanceLaser => 40,
        ProductionItem::EscortSpeeder => 30,
        ProductionItem::RaiderSpeeder => 30,
        ProductionItem::TranceScout => 20,
        ProductionItem::GarrisonGuard => 30,
        ProductionItem::PsiSentinel => 40,
        ProductionItem::RecyclingTanks => 40,
        ProductionItem::PerimeterDefense => 50,
        ProductionItem::NetworkNode => 60,
        ProductionItem::RecreationCommons => 60,
        ProductionItem::Greenhouse => 50,
        ProductionItem::MineralRefinery => 60,
        ProductionItem::TradeExchange => 60,
        ProductionItem::FreightDepot => 60,
        ProductionItem::PatrolGrid => 50,
        ProductionItem::CommandCenter => 60,
        ProductionItem::FieldHospital => 50,
        ProductionItem::MilitaryAcademy => 80,
        ProductionItem::SensorArray => 50,
        ProductionItem::TransitHub => 60,
        ProductionItem::PsiBeacon => 60,
        ProductionItem::ForwardDepot => 60,
        ProductionItem::HologramTheatre => 80,
        ProductionItem::BioenhancementCenter => 100,
        ProductionItem::ResearchHospital => 120,
        ProductionItem::WeatherPattern => 200,
        ProductionItem::ClinicalImmortality => 240,
        ProductionItem::EmpathGuild => 200,
        ProductionItem::OrbitalElevator => 300,
        ProductionItem::ManifoldDrive => 300,
        ProductionItem::SingularityContainment => 320,
        ProductionItem::BlackHoleHarvester => 320,
        ProductionItem::ProbeTeam => 30,
        ProductionItem::SeaTransport => 30,
        ProductionItem::CustomUnit(_) => 40,
        ProductionItem::StockpileEnergy => 10,
        ProductionItem::SkyHydroponics => 120,
        ProductionItem::SolarTransmitter => 120,
        ProductionItem::OrbitalDefense => 120,
    }
}

/// The tech a production item waits for, if any.
pub open spec fn required_tech_of(item: ProductionItem) -> Option<Tech> {
    match item {
        ProductionItem::ScoutPatrol => None,
        ProductionItem::ColonyPod => None,
        ProductionItem::SeaColonyPod => Some(Tech::DoctrineInitiative),
        ProductionItem::Former => None,
        ProductionItem::Speeder => Some(Tech::DoctrineMobility),
        ProductionItem::ResonanceLaser => Some(Tech::AdvancedFieldTheory),
        ProductionItem::EscortSpeeder => Some(Tech::DoctrineMobility),
        ProductionItem::RaiderSpeeder => Some(Tech::DoctrineMobility),
        ProductionItem::TranceScout => Some(Tech::CentauriEcology),
        ProductionItem::GarrisonGuard => Some(Tech::IndustrialBase),
        ProductionItem::PsiSentinel => Some(Tech::SecretsOfPlanet),
        ProductionItem::RecyclingTanks => None,
        ProductionItem::PerimeterDefense => None,
        ProductionItem::NetworkNode => Some(Tech::InformationNetworks),
        ProductionItem::RecreationCommons => Some(Tech::SocialPsych),
        ProductionItem::Greenhouse => Some(Tech::Biogenetics),
        ProductionItem::MineralRefinery => Some(Tech::IndustrialBase),
        ProductionItem::TradeExchange => Some(Tech::PlanetaryNetworks),
        ProductionItem::FreightDepot => Some(Tech::IndustrialBase),
        ProductionItem::PatrolGrid => Some(Tech::DoctrineMobility),
        ProductionItem::CommandCenter => Some(Tech::FieldModulation),
        ProductionItem::FieldHospital => Some(Tech::Biogenetics),
        ProductionItem::MilitaryAcademy => Some(Tech::DoctrineInitiative),
        ProductionItem::SensorArray => Some(Tech::FieldModulation),
        ProductionItem::TransitHub => Some(Tech::DoctrineMobility),
        ProductionItem::PsiBeacon => Some(Tech::CentauriEcology),
        ProductionItem::ForwardDepot => Some(Tech::DoctrineMobility),
        ProductionItem::HologramTheatre => Some(Tech::PlanetaryNetworks),
        ProductionItem::BioenhancementCenter => Some(Tech::SecretsOfTheHumanBrain),
        ProductionItem::ResearchHospital => Some(Tech::GeneSplicing),
        ProductionItem::WeatherPattern => Some(Tech::CentauriEcology),
        ProductionItem::ClinicalImmortality => Some(Tech::GeneSplicing),
        ProductionItem::EmpathGuild => Some(Tech::PlanetaryNetworks),
        ProductionItem::OrbitalElevator => Some(Tech::OrbitalMechanics),
        ProductionItem::ManifoldDrive => Some(Tech::AdvancedFieldTheory),
        ProductionItem::SingularityContainment => Some(Tech::SingularityPhysics),
        ProductionItem::BlackHoleHarvester => Some(Tech::SingularityPhysics),
        ProductionItem::ProbeTeam => Some(Tech::PlanetaryNetworks),
        ProductionItem::SeaTransport => Some(Tech::DoctrineInitiative),
        ProductionItem::CustomUnit(_) => None,
        ProductionItem::StockpileEnergy => None,
        ProductionItem::SkyHydroponics => Some(Tech::OrbitalMechanics),
        ProductionItem::SolarTransmitter => Some(Tech::OrbitalMechanics),
        ProductionItem::OrbitalDefense => Some(Tech::OrbitalMechanics),
    }
}

pub fn required_tech_for_production(item: ProductionItem) -> (r: Option<Tech>)
    ensures
        r == required_tech_of(item),
{
    match item {
        ProductionItem::ScoutPatrol => None,
        ProductionItem::ColonyPod => None,
        ProductionItem::SeaColonyPod => Some(Tech::DoctrineInitiative),
        ProductionItem::Former => None,
        ProductionItem::Speeder => Some(Tech::DoctrineMobility),
        ProductionItem::ResonanceLaser => Some(Tech::AdvancedFieldTheory),
        ProductionItem::EscortSpeeder => Some(Tech::DoctrineMobility),
        ProductionItem::RaiderSpeeder => Some(Tech::DoctrineMobility),
        ProductionItem::TranceScout => Some(Tech::CentauriEcology),
        ProductionItem::GarrisonGuard => Some(Tech::IndustrialBase),
        ProductionItem::PsiSentinel => Some(Tech::SecretsOfPlanet),
        ProductionItem::RecyclingTanks => None,
        ProductionItem::PerimeterDefense => None,
        ProductionItem::NetworkNode => Some(Tech::InformationNetworks),
        ProductionItem::RecreationCommons => Some(Tech::SocialPsych),
        ProductionItem::Greenhouse => Some(Tech::Biogenetics),
        ProductionItem::MineralRefinery => Some(Tech::IndustrialBase),
        ProductionItem::TradeExchange => Some(Tech::PlanetaryNetworks),
        ProductionItem::FreightDepot => Some(Tech::IndustrialBase),
        ProductionItem::PatrolGrid => Some(Tech::DoctrineMobility),
        ProductionItem::CommandCenter => Some(Tech::FieldModulation),
        ProductionItem::FieldHospital => Some(Tech::Biogenetics),
        ProductionItem::MilitaryAcademy => Some(Tech::DoctrineInitiative),
        ProductionItem::SensorArray => Some(Tech::FieldModulation),
        ProductionItem::TransitHub => Some(Tech::DoctrineMobility),
        ProductionItem::PsiBeacon => Some(Tech::CentauriEcology),
        ProductionItem::ForwardDepot => Some(Tech::DoctrineMobility),
        ProductionItem::HologramTheatre => Some(Tech::PlanetaryNetworks),
        ProductionItem::BioenhancementCenter => Some(Tech::SecretsOfTheHumanBrain),
        ProductionItem::ResearchHospital => Some(Tech::GeneSplicing),
        ProductionItem::WeatherPattern => Some(Tech::CentauriEcology),
        ProductionItem::ClinicalImmortality => Some(Tech::GeneSplicing),
        ProductionItem::EmpathGuild => Some(Tech::PlanetaryNetworks),
        ProductionItem::OrbitalElevator => Some(Tech::OrbitalMechanics),
        ProductionItem::ManifoldDrive => Some(Tech::AdvancedFieldTheory),
        ProductionItem::SingularityContainment => Some(Tech::SingularityPhysics),
        ProductionItem::BlackHoleHarvester => Some(Tech::SingularityPhysics),
        ProductionItem::ProbeTeam => Some(Tech::PlanetaryNetworks),
        ProductionItem::SeaTransport => Some(Tech::DoctrineInitiative),
        ProductionItem::CustomUnit(_) => None,
        ProductionItem::StockpileEnergy => None,
        ProductionItem::SkyHydroponics => Some(Tech::OrbitalMechanics),
        ProductionItem::SolarTransmitter => Some(Tech::OrbitalMechanics),
        ProductionItem::OrbitalDefense => Some(Tech::OrbitalMechanics),
    }
}

/// The display name of a facility.
pub open spec fn facility_name_text(facility: Facility) -> Seq<char> {
    match facility {
        Facility::RecyclingTanks => "Recycling Tanks"@,
        Facility::PerimeterDefense => "Perimeter Defense"@,
        Facility::NetworkNode => "Network Node"@,
        Facility::RecreationCommons => "Recreation Commons"@,
        Facility::Greenhouse => "Greenhouse"@,
        Facility::MineralRefinery => "Mineral Refinery"@,
        Facility::TradeExchange => "Trade Exchange"@,
        Facility::FreightDepot => "Freight Depot"@,
        Facility::PatrolGrid => "Patrol Grid"@,
        Facility::CommandCenter => "Command Center"@,
        Facility::FieldHospital => "Field Hospital"@,
        Facility::MilitaryAcademy => "Military Academy"@,
        Facility::SensorArray => "Sensor Array"@,
        Facility::TransitHub => "Transit Hub"@,
        Facility::PsiBeacon => "Psi Beacon"@,
        Facility::ForwardDepot => "Forward Depot"@,
        Facility::HologramTheatre => "Hologram Theatre"@,
        Facility::BioenhancementCenter => "Bioenhancement Center"@,
        Facility::ResearchHospital => "Research Hospital"@,
    }
}

pub fn facility_name(facility: Facility) -> (r: &'static str)
    ensures
        r@ == facility_name_text(facility),
{
    match facility {
        Facility::RecyclingTanks => "Recycling Tanks",
        Facility::PerimeterDefense => "Perimeter Defense",
        Facility::NetworkNode => "Network Node",
        Facility::RecreationCommons => "Recreation Commons",
        Facility::Greenhouse => "Greenhouse",
        Facility::MineralRefinery => "Mineral Refinery",
        Facility::TradeExchange => "Trade Exchange",
        Facility::FreightDepot => "Freight Depot",
        Facility::PatrolGrid => "Patrol Grid",
        Facility::CommandCenter => "Command Center",
        Facility::FieldHospital => "Field Hospital",
        Facility::MilitaryAcademy => "Military Academy",
        Facility::SensorArray => "Sensor Array",
        Facility::TransitHub => "Transit Hub",
        Facility::PsiBeacon => "Psi Beacon",
        Facility::ForwardDepot => "Forward Depot",
        Facility::HologramTheatre => "Hologram Theatre",
        Facility::BioenhancementCenter => "Bioenhancement Center",
        Facility::ResearchHospital => "Research Hospital",
    }
}

/// The psi support a facility gives its base.
pub open spec fn facility_psi_support_value(facility: Facility) -> i32 {
    match facility {
        Facility::RecyclingTanks => 0,
        Facility::PerimeterDefense => 0,
        Facility::NetworkNode => 0,
        Facility::RecreationCommons => 0,
        Facility::Greenhouse => 0,
        Facility::MineralRefinery => 0,
        Facility::TradeExchange => 0,
        Facility::FreightDepot => 0,
        Facility::PatrolGrid => 0,
        Facility::CommandCenter => 0,
        Facility::FieldHospital => 0,
        Facility::MilitaryAcademy => 0,
        Facility::SensorArray => 0,
        Facility::TransitHub => 0,
        Facility::PsiBeacon => 2,
        Facility::ForwardDepot => 0,
        Facility::HologramTheatre => 0,
        Facility::BioenhancementCenter => 1,
        Facility::ResearchHospital => 0,
    }
}

pub fn facility_psi_support_bonus(facility: Facility) -> (r: i32)
    ensures
        r == facility_psi_support_value(facility),
{
    match facility {
        Facility::RecyclingTanks => 0,
        Facility::PerimeterDefense => 0,
        Facility::NetworkNode => 0,
        Facility::RecreationCommons => 0,
        Facility::Greenhouse => 0,
        Facility::MineralRefinery => 0,
        Facility::TradeExchange => 0,
        Facility::FreightDepot => 0,
        Facility::PatrolGrid => 0,
        Facility::CommandCenter => 0,
        Facility::FieldHospital => 0,
        Facility::MilitaryAcademy => 0,
        Facility::SensorArray => 0,
        Facility::TransitHub => 0,
        Facility::PsiBeacon => 2,
        Facility::ForwardDepot => 0,
        Facility::HologramTheatre => 0,
        Facility::BioenhancementCenter => 1,
        Facility::ResearchHospital => 0,
    }
}

/// The display name of a tech.
pub open spec fn tech_name_text(tech: Tech) -> Seq<char> {
    match tech {
        Tech::CentauriEcology => "Centauri Ecology"@,
        Tech::SocialPsych => "Social Psych"@,
        Tech::ProgenitorPsych => "Progenitor Psych"@,
        Tech::FieldModulation => "Field Modulation"@,
        Tech::PlanetaryNetworks => "Planetary Networks"@,
        Tech::SecretsOfTheHumanBrain => "Secrets of the Human Brain"@,
        Tech::GeneSplicing => "Gene Splicing"@,
        Tech::IndustrialBase => "Industrial Base"@,
        Tech::DoctrineMobility => "Doctrine: Mobility"@,
        Tech::DoctrineInitiative => "Doctrine: Initiative"@,
        Tech::DoctrineAirPower => "Doctrine: Air Power"@,
        Tech::InformationNetworks => "Information Networks"@,
        Tech::Biogenetics => "Biogenetics"@,
        Tech::SecretsOfPlanet => "Secrets of Planet"@,
        Tech::OrbitalMechanics => "Orbital Mechanics"@,
        Tech::AdvancedFieldTheory => "Advanced Field Theory"@,
        Tech::SingularityPhysics => "Singularity Physics"@,
    }
}

pub fn tech_name(tech: Tech) -> (r: &'static str)
    ensures
        r@ == tech_name_text(tech),
{
    match tech {
        Tech::CentauriEcology => "Centauri Ecology",
        Tech::SocialPsych => "Social Psych",
        Tech::ProgenitorPsych => "Progenitor Psych",
        Tech::FieldModulation => "Field Modulation",
        Tech::PlanetaryNetworks => "Planetary Networks",
        Tech::SecretsOfTheHumanBrain => "Secrets of the Human Brain",
        Tech::GeneSplicing => "Gene Splicing",
        Tech::IndustrialBase => "Industrial Base",
        Tech::DoctrineMobility => "Doctrine: Mobility",
        Tech::DoctrineInitiative => "Doctrine: Initiative",
        Tech::DoctrineAirPower => "Doctrine: Air Power",
        Tech::InformationNetworks => "Information Networks",
        Tech::Biogenetics => "Biogenetics",
        Tech::SecretsOfPlanet => "Secrets of Planet",
        Tech::OrbitalMechanics => "Orbital Mechanics",
        Tech::AdvancedFieldTheory => "Advanced Field Theory",
        Tech::SingularityPhysics => "Singularity Physics",
    }
}

/// A one-line description of a tech.
pub open spec fn tech_description_text(tech: Tech) -> Seq<char> {
    match tech {
        Tech::CentauriEcology => "Study of the native ecosystem of Planet and its xenofungus."@,
        Tech::SocialPsych => "Understanding of colonist morale under alien skies."@,
        Tech::ProgenitorPsych => "Insight into the minds of the vanished alien builders."@,
        Tech::FieldModulation => "Control of energy fields for stronger defenses."@,
        Tech::PlanetaryNetworks => "Planet-wide communication and data sharing."@,
        Tech::SecretsOfTheHumanBrain => "Mapping of human cognition and its limits."@,
        Tech::GeneSplicing => "Engineering of living tissue for medicine and growth."@,
        Tech::IndustrialBase => "Foundations of heavy industry on a new world."@,
        Tech::DoctrineMobility => "Fast, mobile military doctrine for open terrain."@,
        Tech::DoctrineInitiative => "Naval doctrine for crossing Planet's seas."@,
        Tech::DoctrineAirPower => "Doctrine for the control of Planet's skies."@,
        Tech::InformationNetworks => "Distributed computing for research and control."@,
        Tech::Biogenetics => "Applied genetics for the first colonies."@,
        Tech::SecretsOfPlanet => "Deep knowledge of the planetary mind."@,
        Tech::OrbitalMechanics => "Reliable access to orbit above Planet."@,
        Tech::AdvancedFieldTheory => "Unified field theory for weapons and shields."@,
        Tech::SingularityPhysics => "Mastery of matter at the edge of a singularity."@,
    }
}

pub fn tech_description(tech: Tech) -> (r: &'static str)
    ensures
        r@ == tech_description_text(tech),
{
    match tech {
        Tech::CentauriEcology => "Study of the native ecosystem of Planet and its xenofungus.",
        Tech::SocialPsych => "Understanding of colonist morale under alien skies.",
        Tech::ProgenitorPsych => "Insight into the minds of the vanished alien builders.",
        Tech::FieldModulation => "Control of energy fields for stronger defenses.",
        Tech::PlanetaryNetworks => "Planet-wide communication and data sharing.",
        Tech::SecretsOfTheHumanBrain => "Mapping of human cognition and its limits.",
        Tech::GeneSplicing => "Engineering of living tissue for medicine and growth.",
        Tech::IndustrialBase => "Foundations of heavy industry on a new world.",
        Tech::DoctrineMobility => "Fast, mobile military doctrine for open terrain.",
        Tech::DoctrineInitiative => "Naval doctrine for crossing Planet's seas.",
        Tech::DoctrineAirPower => "Doctrine for the control of Planet's skies.",
        Tech::InformationNetworks => "Distributed computing for research and control.",
        Tech::Biogenetics => "Applied genetics for the first colonies.",
        Tech::SecretsOfPlanet => "Deep knowledge of the planetary mind.",
        Tech::OrbitalMechanics => "Reliable access to orbit above Planet.",
        Tech::AdvancedFieldTheory => "Unified field theory for weapons and shields.",
        Tech::SingularityPhysics => "Mastery of matter at the edge of a singularity.",
    }
}

/// The research points a tech costs.
pub open spec fn tech_cost_value(tech: Tech) -> i32 {
    match tech {
        Tech::CentauriEcology => 20,
        Tech::SocialPsych => 20,
        Tech::ProgenitorPsych => 30,
        Tech::FieldModulation => 30,
        Tech::PlanetaryNetworks => 30,
        Tech::SecretsOfTheHumanBrain => 50,
        Tech::GeneSplicing => 40,
        Tech::IndustrialBase => 20,
        Tech::DoctrineMobility => 25,
        Tech::DoctrineInitiative => 40,
        Tech::DoctrineAirPower => 60,
        Tech::InformationNetworks => 40,
        Tech::Biogenetics => 25,
        Tech::SecretsOfPlanet => 60,
        Tech::OrbitalMechanics => 70,
        Tech::AdvancedFieldTheory => 80,
        Tech::SingularityPhysics => 100,
    }
}

pub fn tech_cost(tech: Tech) -> (r: i32)
    ensures
        r == tech_cost_value(tech),
{
    match tech {
        Tech::CentauriEcology => 20,
        Tech::SocialPsych => 20,
        Tech::ProgenitorPsych => 30,
        Tech::FieldModulation => 30,
        Tech::PlanetaryNetworks => 30,
        Tech::SecretsOfTheHumanBrain => 50,
        Tech::GeneSplicing => 40,
        Tech::IndustrialBase => 20,
        Tech::DoctrineMobility => 25,
        Tech::DoctrineInitiative => 40,
        Tech::DoctrineAirPower => 60,
        Tech::InformationNetworks => 40,
        Tech::Biogenetics => 25,
        Tech::SecretsOfPlanet => 60,
        Tech::OrbitalMechanics => 70,
        Tech::AdvancedFieldTheory => 80,
        Tech::SingularityPhysics => 100,
    }
}

/// The techs that must be known before a tech can be researched.
pub open spec fn tech_prerequisites_of(tech: Tech) -> Seq<Tech> {
    match tech {
        Tech::CentauriEcology => seq![],
        Tech::SocialPsych => seq![],
        Tech::ProgenitorPsych => seq![Tech::SocialPsych],
        Tech::FieldModulation => seq![Tech::IndustrialBase],
        Tech::PlanetaryNetworks => seq![Tech::SocialPsych],
        Tech::SecretsOfTheHumanBrain => seq![Tech::ProgenitorPsych, Tech::Biogenetics],
        Tech::GeneSplicing => seq![Tech::Biogenetics, Tech::CentauriEcology],
        Tech::IndustrialBase => seq![],
        Tech::DoctrineMobility => seq![Tech::IndustrialBase],
        Tech::DoctrineInitiative => seq![Tech::DoctrineMobility],
        Tech::DoctrineAirPower => seq![Tech::DoctrineInitiative, Tech::AdvancedFieldTheory],
        Tech::InformationNetworks => seq![Tech::PlanetaryNetworks],
        Tech::Biogenetics => seq![],
        Tech::SecretsOfPlanet => seq![Tech::CentauriEcology, Tech::ProgenitorPsych],
        Tech::OrbitalMechanics => seq![Tech::InformationNetworks, Tech::IndustrialBase],
        Tech::AdvancedFieldTheory => seq![Tech::FieldModulation, Tech::InformationNetworks],
        Tech::SingularityPhysics => seq![Tech::AdvancedFieldTheory, Tech::OrbitalMechanics],
    }
}

pub fn tech_prerequisites(tech: Tech) -> (r: Vec<Tech>)
    ensures
        r@ == tech_prerequisites_of(tech),
{
    match tech {
        Tech::CentauriEcology => vec![],
        Tech::SocialPsych => vec![],
        Tech::ProgenitorPsych => vec![Tech::SocialPsych],
        Tech::FieldModulation => vec![Tech::IndustrialBase],
        Tech::PlanetaryNetworks => vec![Tech::SocialPsych],
        Tech::SecretsOfTheHumanBrain => vec![Tech::ProgenitorPsych, Tech::Biogenetics],
        Tech::GeneSplicing => vec![Tech::Biogenetics, Tech::CentauriEcology],
        Tech::IndustrialBase => vec![],
        Tech::DoctrineMobility => vec![Tech::IndustrialBase],
        Tech::DoctrineInitiative => vec![Tech::DoctrineMobility],
        Tech::DoctrineAirPower => vec![Tech::DoctrineInitiative, Tech::AdvancedFieldTheory],
        Tech::InformationNetworks => vec![Tech::PlanetaryNetworks],
        Tech::Biogenetics => vec![],
        Tech::SecretsOfPlanet => vec![Tech::CentauriEcology, Tech::ProgenitorPsych],
        Tech::OrbitalMechanics => vec![Tech::InformationNetworks, Tech::IndustrialBase],
        Tech::AdvancedFieldTheory => vec![Tech::FieldModulation, Tech::InformationNetworks],
        Tech::SingularityPhysics => vec![Tech::AdvancedFieldTheory, Tech::OrbitalMechanics],
    }
}

/// Whether a faction that knows `known` can begin researching `tech`: it does not know
/// it yet and knows every prerequisite of it.
pub open spec fn tech_available(known: Seq<Tech>, tech: Tech) -> bool {
    &&& !known.contains(tech)
    &&& forall|i: int| 0 <= i < tech_prerequisites_of(tech).len() ==> known.contains(#[trigger] tech_prerequisites_of(tech)[i])
}

pub fn tech_is_available(known: &Vec<Tech>, tech: Tech) -> (r: bool)
    ensures
        r == tech_available(known@, tech),
{
    if crate::game_state::diplomacy::techs_contain(known, tech) {
        return false;
    }
    let prerequisites = tech_prerequisites(tech);
    let mut i: usize = 0;
    while i < prerequisites.len()
        invariant
            i <= prerequisites@.len(),
            prerequisites@ == tech_prerequisites_of(tech),
            forall|j: int| 0 <= j < i ==> known@.contains(#[trigger] tech_prerequisites_of(tech)[j]),
        decreases prerequisites@.len() - i,
    {
        if !crate::game_state::diplomacy::techs_contain(known, prerequisites[i]) {
            return false;
        }
        i += 1;
    }
    true
}

/// Which faction plays which part in a game: the human player, the rival AI and the
/// planet's natives.
#[derive(Clone, Copy, Debug, PartialEq, Eq, Structural)]
pub struct RuntimeRoles {
    pub player: usize,
    pub ai: usize,
    pub native: usize,
}

/// The parts the factions play under the rules data: the player, the AI and the natives
/// hold the owner ids the model reserves for them.
pub open spec fn runtime_roles_spec() -> RuntimeRoles {
    RuntimeRoles { player: crate::model::PLAYER_ID, ai: crate::model::AI_ID, native: crate::model::NATIVE_ID }
}

pub fn runtime_roles() -> (r: RuntimeRoles)
    ensures
        r == runtime_roles_spec(),
{
    RuntimeRoles { player: crate::model::PLAYER_ID, ai: crate::model::AI_ID, native: crate::model::NATIVE_ID }
}

/// The number of faction profiles in the rules data.
pub open spec fn faction_profile_count() -> int {
    7
}

/// The name of faction profile `i`.
pub open spec fn faction_name_text(i: int) -> Seq<char> {
    if i == 0 {
        "Gaia's Stepdaughters"@
    } else if i == 1 {
        "Peacekeeping Forces"@
    } else if i == 2 {
        "University of Planet"@
    } else if i == 3 {
        "Morgan Industries"@
    } else if i == 4 {
        "Spartan Federation"@
    } else if i == 5 {
        "Lord's Believers"@
    } else {
        "Human Hive"@
    }
}

/// The leader of faction profile `i`.
pub open spec fn faction_leader_text(i: int) -> Seq<char> {
    if i == 0 {
        "Lady Deirdre Skye"@
    } else if i == 1 {
        "Commissioner Pravin Lal"@
    } else if i == 2 {
        "Academician Prokhor Zakharov"@
    } else if i == 3 {
        "CEO Nwabudike Morgan"@
    } else if i == 4 {
        "Colonel Corazon Santiago"@
    } else if i == 5 {
        "Sister Miriam Godwinson"@
    } else {
        "Chairman Sheng-ji Yang"@
    }
}

/// The leader of faction profile `i`.
pub fn faction_leader(i: usize) -> (r: &'static str)
    requires
        i < 7,
    ensures
        r@ == faction_leader_text(i as int),
{
    if i == 0 {
        "Lady Deirdre Skye"
    } else if i == 1 {
        "Commissioner Pravin Lal"
    } else if i == 2 {
        "Academician Prokhor Zakharov"
    } else if i == 3 {
        "CEO Nwabudike Morgan"
    } else if i == 4 {
        "Colonel Corazon Santiago"
    } else if i == 5 {
        "Sister Miriam Godwinson"
    } else {
        "Chairman Sheng-ji Yang"
    }
}

/// The description of faction profile `i`.
pub open spec fn faction_description_text(i: int) -> Seq<char> {
    if i == 0 {
        "Stewards of Planet's ecology who live in harmony with the native life."@
    } else if i == 1 {
        "Guardians of the UN charter and of human rights on Planet."@
    } else if i == 2 {
        "Scientists who put knowledge before every other concern."@
    } else if i == 3 {
        "Industrialists who turn commerce into power."@
    } else if i == 4 {
        "Survivalists who trust in discipline and arms."@
    } else if i == 5 {
        "The faithful, who hold to conviction against the unknown."@
    } else {
        "A collective that trades freedom for order and output."@
    }
}

/// The description of faction profile `i`.
pub fn faction_description(i: usize) -> (r: &'static str)
    requires
        i < 7,
    ensures
        r@ == faction_description_text(i as int),
{
    if i == 0 {
        "Stewards of Planet's ecology who live in harmony with the native life."
    } else if i == 1 {
        "Guardians of the UN charter and of human rights on Planet."
    } else if i == 2 {
        "Scientists who put knowledge before every other concern."
    } else if i == 3 {
        "Industrialists who turn commerce into power."
    } else if i == 4 {
        "Survivalists who trust in discipline and arms."
    } else if i == 5 {
        "The faithful, who hold to conviction against the unknown."
    } else {
        "A collective that trades freedom for order and output."
    }
}

/// The color of faction profile `i`.
pub open spec fn faction_color_text(i: int) -> Seq<char> {
    if i == 0 {
        "#50b45a"@
    } else if i == 1 {
        "#4682c8"@
    } else if i == 2 {
        "#dcdcf0"@
    } else if i == 3 {
        "#c8a03c"@
    } else if i == 4 {
        "#8c8c8c"@
    } else if i == 5 {
        "#c86432"@
    } else {
        "#3c3cb4"@
    }
}

/// The color of faction profile `i`.
pub fn faction_color(i: usize) -> (r: &'static str)
    requires
        i < 7,
    ensures
        r@ == faction_color_text(i as int),
{
    if i == 0 {
        "#50b45a"
    } else if i == 1 {
        "#4682c8"
    } else if i == 2 {
        "#dcdcf0"
    } else if i == 3 {
        "#c8a03c"
    } else if i == 4 {
        "#8c8c8c"
    } else if i == 5 {
        "#c86432"
    } else {
        "#3c3cb4"
    }
}

/// The index of the faction profile named `name`, if there is one.
pub open spec fn faction_profile_index(name: Seq<char>) -> Option<int> {
    if name == "Gaia's Stepdaughters"@ {
        Some(0)
    } else if name == "Peacekeeping Forces"@ {
        Some(1)
    } else if name == "University of Planet"@ {
        Some(2)
    } else if name == "Morgan Industries"@ {
        Some(3)
    } else if name == "Spartan Federation"@ {
        Some(4)
    } else if name == "Lord's Believers"@ {
        Some(5)
    } else if name == "Human Hive"@ {
        Some(6)
    } else {
        None
    }
}

/// Looks up a faction profile by faction name.
pub fn faction_profile(name: &str) -> (r: Option<usize>)
    ensures
        match faction_profile_index(name@) {
            Some(i) => r == Some(i as usize),
            None => r is None,
        },
{
    if text_eq(name, "Gaia's Stepdaughters") {
        return Some(0);
    }
    if text_eq(name, "Peacekeeping Forces") {
        return Some(1);
    }
    if text_eq(name, "University of Planet") {
        return Some(2);
    }
    if text_eq(name, "Morgan Industries") {
        return Some(3);
    }
    if text_eq(name, "Spartan Federation") {
        return Some(4);
    }
    if text_eq(name, "Lord's Believers") {
        return Some(5);
    }
    if text_eq(name, "Human Hive") {
        return Some(6);
    }
    None
}

/// Interface text.
pub open spec fn ui_window_title_text() -> Seq<char> {
    "SMAC Rust: Alpha Centauri"@
}

pub fn ui_window_title() -> (r: &'static str)
    ensures
        r@ == ui_window_title_text(),
{
    "SMAC Rust: Alpha Centauri"
}

/// Interface text.
pub open spec fn ui_app_title_text() -> Seq<char> {
    "Alpha Centauri"@
}

pub fn ui_app_title() -> (r: &'static str)
    ensures
        r@ == ui_app_title_text(),
{
    "Alpha Centauri"
}

/// Interface text.
pub open spec fn ui_command_console_heading_text() -> Seq<char> {
    "Command Console"@
}

pub fn ui_command_console_heading() -> (r: String)
    ensures
        r@ == ui_command_console_heading_text(),
{
    String::from_str("Command Console")
}

/// Interface text.
pub open spec fn ui_selection_heading_text() -> Seq<char> {
    "Selection"@
}

pub fn ui_selection_heading() -> (r: String)
    ensures
        r@ == ui_selection_heading_text(),
{
    String::from_str("Selection")
}

/// Interface text.
pub open spec fn ui_research_heading_text() -> Seq<char> {
    "Research"@
}

pub fn ui_research_heading() -> (r: String)
    ensures
        r@ == ui_research_heading_text(),
{
    String::from_str("Research")
}

/// Interface text.
pub open spec fn ui_factions_heading_text() -> Seq<char> {
    "Factions"@
}

pub fn ui_factions_heading() -> (r: String)
    ensures
        r@ == ui_factions_heading_text(),
{
    String::from_str("Factions")
}

/// Interface text.
pub open spec fn ui_event_log_heading_text() -> Seq<char> {
    "Event Log"@
}

pub fn ui_event_log_heading() -> (r: String)
    ensures
        r@ == ui_event_log_heading_text(),
{
    String::from_str("Event Log")
}

/// Interface text.
pub open spec fn ui_planet_heading_text() -> Seq<char> {
    "Planet"@
}

pub fn ui_planet_heading() -> (r: String)
    ensures
        r@ == ui_planet_heading_text(),
{
    String::from_str("Planet")
}

/// Interface text.
pub open spec fn ui_victory_text_text() -> Seq<char> {
    "Victory! Planet has chosen its stewards."@
}

pub fn ui_victory_text() -> (r: &'static str)
    ensures
        r@ == ui_victory_text_text(),
{
    "Victory! Planet has chosen its stewards."
}

/// Interface text.
pub open spec fn ui_defeat_text_text() -> Seq<char> {
    "Your faction has fallen. Planet endures."@
}

pub fn ui_defeat_text() -> (r: &'static str)
    ensures
        r@ == ui_defeat_text_text(),
{
    "Your faction has fallen. Planet endures."
}

/// Interface text.
pub open spec fn ui_warning_text_text() -> Seq<char> {
    "Warning: Planet stirs against your colonies."@
}

pub fn ui_warning_text() -> (r: &'static str)
    ensures
        r@ == ui_warning_text_text(),
{
    "Warning: Planet stirs against your colonies."
}

/// Interface text.
pub open spec fn ui_accent_hex_text() -> Seq<char> {
    "#78c8a0"@
}

pub fn ui_accent_hex() -> (r: &'static str)
    ensures
        r@ == ui_accent_hex_text(),
{
    "#78c8a0"
}

/// Interface text.
pub open spec fn ui_warning_hex_text() -> Seq<char> {
    "#dcb43c"@
}

pub fn ui_warning_hex() -> (r: &'static str)
    ensures
        r@ == ui_warning_hex_text(),
{
    "#dcb43c"
}

/// Interface text.
pub open spec fn ui_danger_hex_text() -> Seq<char> {
    "#dc5050"@
}

pub fn ui_danger_hex() -> (r: &'static str)
    ensures
        r@ == ui_danger_hex_text(),
{
    "#dc5050"
}

/// Interface text.
pub open spec fn ui_success_hex_text() -> Seq<char> {
    "#50c878"@
}

pub fn ui_success_hex() -> (r: &'static str)
    ensures
        r@ == ui_success_hex_text(),
{
    "#50c878"
}

/// Interface text.
pub open spec fn ui_panel_fill_hex_text() -> Seq<char> {
    "#18221e"@
}

pub fn ui_panel_fill_hex() -> (r: &'static str)
    ensures
        r@ == ui_panel_fill_hex_text(),
{
    "#18221e"
}
/// Whether `item` is a unit that `tech` unlocks.
pub open spec fn unlocks_unit(tech: Tech, item: ProductionItem) -> bool {
    item.is_unit() && required_tech_of(item) == Some(tech)
}

/// Whether `tech` unlocks facility `f`.
pub open spec fn unlocks_facility(tech: Tech, f: Facility) -> bool {
    required_tech_of(ProductionItem::of_facility(f)) == Some(tech)
}

/// The units a tech unlocks, in menu order.
pub open spec fn unit_unlocks(tech: Tech) -> Seq<ProductionItem> {
    ProductionItem::all_seq().filter(|i: ProductionItem| unlocks_unit(tech, i))
}

/// The facilities a tech unlocks, in declaration order.
pub open spec fn facility_unlocks(tech: Tech) -> Seq<Facility> {
    Facility::all_seq().filter(|f: Facility| unlocks_facility(tech, f))
}

/// The names of the units a tech unlocks.
pub open spec fn unit_unlock_names(tech: Tech) -> Seq<Seq<char>> {
    unit_unlocks(tech).map_values(|i: ProductionItem| production_name_text(i))
}

/// The names of the facilities a tech unlocks.
pub open spec fn facility_unlock_names(tech: Tech) -> Seq<Seq<char>> {
    facility_unlocks(tech).map_values(|f: Facility| facility_name_text(f))
}

/// The views of a list of names.
pub open spec fn name_views(v: Seq<&'static str>) -> Seq<Seq<char>> {
    v.map_values(|s: &'static str| s@)
}

/// The names of the units that `tech` unlocks.
pub fn tech_enabled_unit_names(tech: Tech) -> (r: Vec<&'static str>)
    ensures
        name_views(r@) == unit_unlock_names(tech),
{
    let all = ProductionItem::all();
    let ghost pred = |i: ProductionItem| unlocks_unit(tech, i);
    let mut r: Vec<&'static str> = Vec::new();
    let mut k: usize = 0;
    while k < all.len()
        invariant
            k <= all@.len(),
            all@ == ProductionItem::all_seq(),
            pred == (|i: ProductionItem| unlocks_unit(tech, i)),
            name_views(r@) == all@.take(k as int).filter(pred).map_values(
                |i: ProductionItem| production_name_text(i),
            ),
        decreases all@.len() - k,
    {
        let item = all[k];
        proof {
            assert(all@.take(k + 1) =~= all@.take(k as int).push(item));
            all@.take(k as int).lemma_filter_push(item, pred);
        }
        let unlocked = match required_tech_for_production(item) {
            Some(t) => t == tech,
            None => false,
        };
        let keep = is_unit_item(item) && unlocked;
        assert(keep == pred(item));
        let ghost before = r@;
        if keep {
            let name = production_name(item);
            r.push(name);
            assert(name_views(r@) =~= name_views(before).push(production_name_text(item)));
        }
        assert(name_views(r@) =~= all@.take(k + 1).filter(pred).map_values(
            |i: ProductionItem| production_name_text(i),
        ));
        k = k + 1;
    }
    assert(all@.take(all@.len() as int) =~= all@);
    r
}

/// The names of the facilities that `tech` unlocks.
pub fn tech_enabled_facility_names(tech: Tech) -> (r: Vec<&'static str>)
    ensures
        name_views(r@) == facility_unlock_names(tech),
{
    let all = Facility::all();
    let ghost pred = |f: Facility| unlocks_facility(tech, f);
    let mut r: Vec<&'static str> = Vec::new();
    let mut k: usize = 0;
    while k < all.len()
        invariant
            k <= all@.len(),
            all@ == Facility::all_seq(),
            pred == (|f: Facility| unlocks_facility(tech, f)),
            name_views(r@) == all@.take(k as int).filter(pred).map_values(
                |f: Facility| facility_name_text(f),
            ),
        decreases all@.len() - k,
    {
        let f = all[k];
        proof {
            assert(all@.take(k + 1) =~= all@.take(k as int).push(f));
            all@.take(k as int).lemma_filter_push(f, pred);
        }
        let item = match ProductionItem::from_facility(f) {
            Some(i) => i,
            None => ProductionItem::ScoutPatrol,
        };
        let unlocked = match required_tech_for_production(item) {
            Some(t) => t == tech,
            None => false,
        };
        assert(unlocked == pred(f));
        let ghost before = r@;
        if unlocked {
            let name = facility_name(f);
            r.push(name);
            assert(name_views(r@) =~= name_views(before).push(facility_name_text(f)));
        }
        assert(name_views(r@) =~= all@.take(k + 1).filter(pred).map_values(
            |f: Facility| facility_name_text(f),
        ));
        k = k + 1;
    }
    assert(all@.take(all@.len() as int) =~= all@);
    r
}

/// Whether an item trains a unit.
pub fn is_unit_item(item: ProductionItem) -> (r: bool)
    ensures
        r == item.is_unit(),
{
    match item {
        ProductionItem::ScoutPatrol | ProductionItem::ColonyPod | ProductionItem::SeaColonyPod
        | ProductionItem::Former | ProductionItem::Speeder | ProductionItem::ResonanceLaser
        | ProductionItem::EscortSpeeder | ProductionItem::RaiderSpeeder
        | ProductionItem::TranceScout | ProductionItem::GarrisonGuard
        | ProductionItem::PsiSentinel | ProductionItem::ProbeTeam | ProductionItem::SeaTransport
        | ProductionItem::CustomUnit(_) => true,
        _ => false,
    }
}

/// A facility appears among a tech's unlocks exactly when building it waits for that tech.
pub proof fn lemma_facility_unlock_membership(tech: Tech, f: Facility)
    ensures
        facility_unlocks(tech).contains(f) <==> unlocks_facility(tech, f),
{
    let all = Facility::all_seq();
    let pred = |g: Facility| unlocks_facility(tech, g);
    assert(all.contains(f)) by {
        match f {
            Facility::RecyclingTanks => assert(all[0] == f),
            Facility::PerimeterDefense => assert(all[1] == f),
            Facility::NetworkNode => assert(all[2] == f),
            Facility::RecreationCommons => assert(all[3] == f),
            Facility::Greenhouse => assert(all[4] == f),
            Facility::MineralRefinery => assert(all[5] == f),
            Facility::TradeExchange => assert(all[6] == f),
            Facility::FreightDepot => assert(all[7] == f),
            Facility::PatrolGrid => assert(all[8] == f),
            Facility::CommandCenter => assert(all[9] == f),
            Facility::FieldHospital => assert(all[10] == f),
            Facility::MilitaryAcademy => assert(all[11] == f),
            Facility::SensorArray => assert(all[12] == f),
            Facility::TransitHub => assert(all[13] == f),
            Facility::PsiBeacon => assert(all[14] == f),
            Facility::ForwardDepot => assert(all[15] == f),
            Facility::HologramTheatre => assert(all[16] == f),
            Facility::BioenhancementCenter => assert(all[17] == f),
            Facility::ResearchHospital => assert(all[18] == f),
        }
    }
    let i = choose|i: int| 0 <= i < all.len() && all[i] == f;
    if unlocks_facility(tech, f) {
        all.lemma_filter_contains(pred, i);
    }
    if all.filter(pred).contains(f) {
        let j = choose|j: int| 0 <= j < all.filter(pred).len() && all.filter(pred)[j] == f;
        all.lemma_filter_pred(pred, j);
    }
}

/// A unit appears among a tech's unlocks exactly when it is on the build menu and waits for that tech.
pub proof fn lemma_unit_unlock_membership(tech: Tech, item: ProductionItem)
    requires
        ProductionItem::all_seq().contains(item),
    ensures
        unit_unlocks(tech).contains(item) <==> unlocks_unit(tech, item),
{
    let all = ProductionItem::all_seq();
    let pred = |g: ProductionItem| unlocks_unit(tech, g);
    let i = choose|i: int| 0 <= i < all.len() && all[i] == item;
    if unlocks_unit(tech, item) {
        all.lemma_filter_contains(pred, i);
    }
    if all.filter(pred).contains(item) {
        let j = choose|j: int| 0 <= j < all.filter(pred).len() && all.filter(pred)[j] == item;
        all.lemma_filter_pred(pred, j);
    }
}

} // verus!
