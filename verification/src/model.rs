//! The game's data model: terrain, units, production, technology, factions
//! and the actions a player can take.
use crate::components::UnitDesign;
use crate::content;
use crate::text::text_eq;
use std::collections::BTreeSet;
use vstd::prelude::*;

verus! {

/// The owner index of the human player.
pub const PLAYER_ID: usize = 0;
/// The owner index of the rival faction.
pub const AI_ID: usize = 1;
/// The owner index of the native life forms.
pub const NATIVE_ID: usize = 2;

#[derive(Clone, Copy, Debug, PartialEq, Eq, Structural)]
pub enum Terrain {
    Ocean,
    Flat,
    Rolling,
    Rocky,
    Fungus,
    Crater,
}

#[derive(Clone, Copy, Debug, Default, PartialEq, Eq, Structural)]
pub struct Yields {
    pub nutrients: i32,
    pub minerals: i32,
    pub energy: i32,
}

/// Yields from three amounts.
pub open spec fn yields_of(nutrients: i32, minerals: i32, energy: i32) -> Yields {
    Yields { nutrients, minerals, energy }
}

impl Terrain {
    /// What a tile of this terrain yields before improvements.
    pub open spec fn base_yields(self) -> Yields {
        match self {
            Terrain::Ocean => yields_of(1, 0, 2),
            Terrain::Flat => yields_of(2, 1, 1),
            Terrain::Rolling => yields_of(1, 2, 1),
            Terrain::Rocky => yields_of(0, 3, 0),
            Terrain::Fungus => yields_of(1, 0, 1),
            Terrain::Crater => yields_of(0, 0, 0),
        }
    }

    pub fn yields(self) -> (r: Yields)
        ensures
            r == self.base_yields(),
    {
        match self {
            Terrain::Ocean => Yields { nutrients: 1, minerals: 0, energy: 2 },
            Terrain::Flat => Yields { nutrients: 2, minerals: 1, energy: 1 },
            Terrain::Rolling => Yields { nutrients: 1, minerals: 2, energy: 1 },
            Terrain::Rocky => Yields { nutrients: 0, minerals: 3, energy: 0 },
            Terrain::Fungus => Yields { nutrients: 1, minerals: 0, energy: 1 },
            Terrain::Crater => Yields { nutrients: 0, minerals: 0, energy: 0 },
        }
    }

    /// Land is every terrain but ocean and crater.
    pub fn is_land(self) -> (r: bool)
        ensures
            r == (self != Terrain::Ocean && self != Terrain::Crater),
    {
        self != Terrain::Ocean && self != Terrain::Crater
    }

    /// Ocean and crater tiles count as water.
    pub fn is_ocean(self) -> (r: bool)
        ensures
            r == (self == Terrain::Ocean || self == Terrain::Crater),
    {
        self == Terrain::Ocean || self == Terrain::Crater
    }
}

#[derive(Clone, Copy, Debug, PartialEq, Eq, Structural)]
pub enum Improvement {
    Farm,
    Mine,
    Solar,
    Road,
    Condenser,
    EchelonMirror,
    Forest,
    ThermalBorehole,
}

impl Improvement {

    /// Every improvement, in declaration order.
    pub open spec fn all_seq() -> Seq<Improvement> {
        seq![Improvement::Farm, Improvement::Mine, Improvement::Solar, Improvement::Road, Improvement::Condenser, Improvement::EchelonMirror, Improvement::Forest, Improvement::ThermalBorehole]
    }

    pub fn all() -> (r: [Improvement; 8])
        ensures
            r@ == Improvement::all_seq(),
    {
        [Improvement::Farm, Improvement::Mine, Improvement::Solar, Improvement::Road, Improvement::Condenser, Improvement::EchelonMirror, Improvement::Forest, Improvement::ThermalBorehole]
    }

    /// The identifier of this Improvement in content data.
    pub open spec fn content_id_text(self) -> Seq<char> {
        match self {
            Improvement::Farm => "farm"@,
            Improvement::Mine => "mine"@,
            Improvement::Solar => "solar_collector"@,
            Improvement::Road => "road"@,
            Improvement::Condenser => "condenser"@,
            Improvement::EchelonMirror => "echelon_mirror"@,
            Improvement::Forest => "forest"@,
            Improvement::ThermalBorehole => "thermal_borehole"@,
        }
    }

    /// The Improvement that a content identifier names, if any.
    pub open spec fn parse_content_id(s: Seq<char>) -> Option<Improvement> {
        if s == "farm"@ {
            Some(Improvement::Farm)
        } else if s == "mine"@ {
            Some(Improvement::Mine)
        } else if s == "solar_collector"@ {
            Some(Improvement::Solar)
        } else if s == "road"@ {
            Some(Improvement::Road)
        } else if s == "condenser"@ {
            Some(Improvement::Condenser)
        } else if s == "echelon_mirror"@ {
            Some(Improvement::EchelonMirror)
        } else if s == "forest"@ {
            Some(Improvement::Forest)
        } else if s == "thermal_borehole"@ {
            Some(Improvement::ThermalBorehole)
        } else {
            None
        }
    }

    pub fn content_id(self) -> (r: &'static str)
        ensures
            r@ == self.content_id_text(),
    {
        match self {
            Improvement::Farm => "farm",
            Improvement::Mine => "mine",
            Improvement::Solar => "solar_collector",
            Improvement::Road => "road",
            Improvement::Condenser => "condenser",
            Improvement::EchelonMirror => "echelon_mirror",
            Improvement::Forest => "forest",
            Improvement::ThermalBorehole => "thermal_borehole",
        }
    }

    pub fn from_content_id(value: &str) -> (r: Option<Improvement>)
        ensures
            r == Improvement::parse_content_id(value@),
    {
        if text_eq(value, "farm") {
            return Some(Improvement::Farm);
        }
        if text_eq(value, "mine") {
            return Some(Improvement::Mine);
        }
        if text_eq(value, "solar_collector") {
            return Some(Improvement::Solar);
        }
        if text_eq(value, "road") {
            return Some(Improvement::Road);
        }
        if text_eq(value, "condenser") {
            return Some(Improvement::Condenser);
        }
        if text_eq(value, "echelon_mirror") {
            return Some(Improvement::EchelonMirror);
        }
        if text_eq(value, "forest") {
            return Some(Improvement::Forest);
        }
        if text_eq(value, "thermal_borehole") {
            return Some(Improvement::ThermalBorehole);
        }
        None
    }

    /// What this improvement adds to a tile's yields.
    pub open spec fn bonus_yields(self) -> Yields {
        match self {
            Improvement::Farm => yields_of(1, 0, 0),
            Improvement::Mine => yields_of(0, 1, 0),
            Improvement::Solar => yields_of(0, 0, 2),
            Improvement::Road => yields_of(0, 0, 0),
            Improvement::Condenser => yields_of(2, 0, 0),
            Improvement::EchelonMirror => yields_of(0, 0, 3),
            Improvement::Forest => yields_of(1, 2, 1),
            Improvement::ThermalBorehole => yields_of(0, 6, 6),
        }
    }

    pub fn yields(self) -> (r: Yields)
        ensures
            r == self.bonus_yields(),
    {
        match self {
            Improvement::Farm => Yields { nutrients: 1, minerals: 0, energy: 0 },
            Improvement::Mine => Yields { nutrients: 0, minerals: 1, energy: 0 },
            Improvement::Solar => Yields { nutrients: 0, minerals: 0, energy: 2 },
            Improvement::Road => Yields { nutrients: 0, minerals: 0, energy: 0 },
            Improvement::Condenser => Yields { nutrients: 2, minerals: 0, energy: 0 },
            Improvement::EchelonMirror => Yields { nutrients: 0, minerals: 0, energy: 3 },
            Improvement::Forest => Yields { nutrients: 1, minerals: 2, energy: 1 },
            Improvement::ThermalBorehole => Yields { nutrients: 0, minerals: 6, energy: 6 },
        }
    }
}

impl Yields {
    /// Whether adding `other` keeps every amount within `i32`.
    pub open spec fn can_add(self, other: Yields) -> bool {
        &&& i32::MIN <= self.nutrients + other.nutrients <= i32::MAX
        &&& i32::MIN <= self.minerals + other.minerals <= i32::MAX
        &&& i32::MIN <= self.energy + other.energy <= i32::MAX
    }

    /// The amount-wise sum; each amount must fit in `i32`.
    pub fn add(self, other: Yields) -> (r: Yields)
        requires
            self.can_add(other),
        ensures
            r.nutrients == self.nutrients + other.nutrients,
            r.minerals == self.minerals + other.minerals,
            r.energy == self.energy + other.energy,
    {
        Yields {
            nutrients: self.nutrients + other.nutrients,
            minerals: self.minerals + other.minerals,
            energy: self.energy + other.energy,
        }
    }
}

#[derive(Clone, Debug, PartialEq, Eq)]
pub enum UnitKind {

    ColonyPod,
    SeaColonyPod,
    ScoutPatrol,
    Former,
    Speeder,
    ResonanceLaser,
    EscortSpeeder,
    RaiderSpeeder,
    TranceScout,
    GarrisonGuard,
    PsiSentinel,
    MindWorm,
    IsleOfTheDeep,
    Needlejet,
    ProbeTeam,
    SeaTransport,
    CustomUnit(UnitDesign),
}

/// `r` is a copy of `k`: the same kind, and for a custom unit a design with the same
/// fields (its ability list equal as a sequence).
pub open spec fn kind_copy_of(r: UnitKind, k: UnitKind) -> bool {
    match k {
        UnitKind::CustomUnit(d) => r matches UnitKind::CustomUnit(e) && e.name == d.name
            && e.chassis == d.chassis && e.weapon == d.weapon && e.armor == d.armor
            && e.abilities@ == d.abilities@ && e.cost == d.cost,
        _ => r == k,
    }
}

impl UnitKind {
    /// A copy of this kind, for the functions that take a kind by value.
    pub(crate) fn copied(&self) -> (r: UnitKind)
        ensures
            kind_copy_of(r, *self),
    {
        match self {
            UnitKind::ColonyPod => UnitKind::ColonyPod,
            UnitKind::SeaColonyPod => UnitKind::SeaColonyPod,
            UnitKind::ScoutPatrol => UnitKind::ScoutPatrol,
            UnitKind::Former => UnitKind::Former,
            UnitKind::Speeder => UnitKind::Speeder,
            UnitKind::ResonanceLaser => UnitKind::ResonanceLaser,
            UnitKind::EscortSpeeder => UnitKind::EscortSpeeder,
            UnitKind::RaiderSpeeder => UnitKind::RaiderSpeeder,
            UnitKind::TranceScout => UnitKind::TranceScout,
            UnitKind::GarrisonGuard => UnitKind::GarrisonGuard,
            UnitKind::PsiSentinel => UnitKind::PsiSentinel,
            UnitKind::MindWorm => UnitKind::MindWorm,
            UnitKind::IsleOfTheDeep => UnitKind::IsleOfTheDeep,
            UnitKind::Needlejet => UnitKind::Needlejet,
            UnitKind::ProbeTeam => UnitKind::ProbeTeam,
            UnitKind::SeaTransport => UnitKind::SeaTransport,
            UnitKind::CustomUnit(d) => {
                let abilities = d.abilities.clone();
                assert(abilities@ =~= d.abilities@);
                UnitKind::CustomUnit(
                    UnitDesign {
                        name: d.name.clone(),
                        chassis: d.chassis,
                        weapon: d.weapon,
                        armor: d.armor,
                        abilities,
                        cost: d.cost,
                    },
                )
            },
        }
    }

    /// The identifier of this UnitKind in content data.
    pub open spec fn content_id_text(self) -> Seq<char> {
        match self {
            UnitKind::ColonyPod => "colony_pod"@,
            UnitKind::SeaColonyPod => "sea_colony_pod"@,
            UnitKind::ScoutPatrol => "scout_patrol"@,
            UnitKind::Former => "former"@,
            UnitKind::Speeder => "speeder"@,
            UnitKind::ResonanceLaser => "resonance_laser"@,
            UnitKind::EscortSpeeder => "escort_speeder"@,
            UnitKind::RaiderSpeeder => "raider_speeder"@,
            UnitKind::TranceScout => "trance_scout"@,
            UnitKind::GarrisonGuard => "garrison_guard"@,
            UnitKind::PsiSentinel => "psi_sentinel"@,
            UnitKind::MindWorm => "mind_worm"@,
            UnitKind::IsleOfTheDeep => "isle_of_the_deep"@,
            UnitKind::Needlejet => "needlejet"@,
            UnitKind::ProbeTeam => "probe_team"@,
            UnitKind::SeaTransport => "sea_transport"@,
            UnitKind::CustomUnit(_) => "custom_unit"@,
        }
    }

    /// The UnitKind that a content identifier names, if any.
    pub open spec fn parse_content_id(s: Seq<char>) -> Option<UnitKind> {
        if s == "colony_pod"@ {
            Some(UnitKind::ColonyPod)
        } else if s == "sea_colony_pod"@ {
            Some(UnitKind::SeaColonyPod)
        } else if s == "scout_patrol"@ {
            Some(UnitKind::ScoutPatrol)
        } else if s == "former"@ {
            Some(UnitKind::Former)
        } else if s == "speeder"@ {
            Some(UnitKind::Speeder)
        } else if s == "resonance_laser"@ {
            Some(UnitKind::ResonanceLaser)
        } else if s == "escort_speeder"@ {
            Some(UnitKind::EscortSpeeder)
        } else if s == "raider_speeder"@ {
            Some(UnitKind::RaiderSpeeder)
        } else if s == "trance_scout"@ {
            Some(UnitKind::TranceScout)
        } else if s == "garrison_guard"@ {
            Some(UnitKind::GarrisonGuard)
        } else if s == "psi_sentinel"@ {
            Some(UnitKind::PsiSentinel)
        } else if s == "mind_worm"@ {
            Some(UnitKind::MindWorm)
        } else if s == "isle_of_the_deep"@ {
            Some(UnitKind::IsleOfTheDeep)
        } else if s == "needlejet"@ {
            Some(UnitKind::Needlejet)
        } else if s == "probe_team"@ {
            Some(UnitKind::ProbeTeam)
        } else if s == "sea_transport"@ {
            Some(UnitKind::SeaTransport)
        } else {
            None
        }
    }

    pub fn content_id(self) -> (r: &'static str)
        ensures
            r@ == self.content_id_text(),
    {
        match self {
            UnitKind::ColonyPod => "colony_pod",
            UnitKind::SeaColonyPod => "sea_colony_pod",
            UnitKind::ScoutPatrol => "scout_patrol",
            UnitKind::Former => "former",
            UnitKind::Speeder => "speeder",
            UnitKind::ResonanceLaser => "resonance_laser",
            UnitKind::EscortSpeeder => "escort_speeder",
            UnitKind::RaiderSpeeder => "raider_speeder",
            UnitKind::TranceScout => "trance_scout",
            UnitKind::GarrisonGuard => "garrison_guard",
            UnitKind::PsiSentinel => "psi_sentinel",
            UnitKind::MindWorm => "mind_worm",
            UnitKind::IsleOfTheDeep => "isle_of_the_deep",
            UnitKind::Needlejet => "needlejet",
            UnitKind::ProbeTeam => "probe_team",
            UnitKind::SeaTransport => "sea_transport",
            UnitKind::CustomUnit(_) => "custom_unit",
        }
    }

    pub fn from_content_id(value: &str) -> (r: Option<UnitKind>)
        ensures
            r == UnitKind::parse_content_id(value@),
    {
        if text_eq(value, "colony_pod") {
            return Some(UnitKind::ColonyPod);
        }
        if text_eq(value, "sea_colony_pod") {
            return Some(UnitKind::SeaColonyPod);
        }
        if text_eq(value, "scout_patrol") {
            return Some(UnitKind::ScoutPatrol);
        }
        if text_eq(value, "former") {
            return Some(UnitKind::Former);
        }
        if text_eq(value, "speeder") {
            return Some(UnitKind::Speeder);
        }
        if text_eq(value, "resonance_laser") {
            return Some(UnitKind::ResonanceLaser);
        }
        if text_eq(value, "escort_speeder") {
            return Some(UnitKind::EscortSpeeder);
        }
        if text_eq(value, "raider_speeder") {
            return Some(UnitKind::RaiderSpeeder);
        }
        if text_eq(value, "trance_scout") {
            return Some(UnitKind::TranceScout);
        }
        if text_eq(value, "garrison_guard") {
            return Some(UnitKind::GarrisonGuard);
        }
        if text_eq(value, "psi_sentinel") {
            return Some(UnitKind::PsiSentinel);
        }
        if text_eq(value, "mind_worm") {
            return Some(UnitKind::MindWorm);
        }
        if text_eq(value, "isle_of_the_deep") {
            return Some(UnitKind::IsleOfTheDeep);
        }
        if text_eq(value, "needlejet") {
            return Some(UnitKind::Needlejet);
        }
        if text_eq(value, "probe_team") {
            return Some(UnitKind::ProbeTeam);
        }
        if text_eq(value, "sea_transport") {
            return Some(UnitKind::SeaTransport);
        }
        None
    }

    /// Every built-in unit kind, in declaration order.
    pub open spec fn all_seq() -> Seq<UnitKind> {
        seq![UnitKind::ColonyPod, UnitKind::SeaColonyPod, UnitKind::ScoutPatrol, UnitKind::Former, UnitKind::Speeder, UnitKind::ResonanceLaser, UnitKind::EscortSpeeder, UnitKind::RaiderSpeeder, UnitKind::TranceScout, UnitKind::GarrisonGuard, UnitKind::PsiSentinel, UnitKind::MindWorm, UnitKind::IsleOfTheDeep, UnitKind::Needlejet, UnitKind::ProbeTeam, UnitKind::SeaTransport]
    }

    pub fn all() -> (r: [UnitKind; 16])
        ensures
            r@ == UnitKind::all_seq(),
    {
        [UnitKind::ColonyPod, UnitKind::SeaColonyPod, UnitKind::ScoutPatrol, UnitKind::Former, UnitKind::Speeder, UnitKind::ResonanceLaser, UnitKind::EscortSpeeder, UnitKind::RaiderSpeeder, UnitKind::TranceScout, UnitKind::GarrisonGuard, UnitKind::PsiSentinel, UnitKind::MindWorm, UnitKind::IsleOfTheDeep, UnitKind::Needlejet, UnitKind::ProbeTeam, UnitKind::SeaTransport]
    }

    /// Movement points per turn.
    pub fn max_moves(self) -> (r: i32)
        ensures
            r == content::unit_moves_value(self),
    {
        content::unit_max_moves(&self)
    }

    /// Attack strength.
    pub fn attack(self) -> (r: i32)
        ensures
            r == content::unit_attack_value(self),
    {
        content::unit_attack(&self)
    }

    /// Defense strength.
    pub fn defense(self) -> (r: i32)
        ensures
            r == content::unit_defense_value(self),
    {
        content::unit_defense(&self)
    }

    /// Only colony pods found bases.
    pub fn can_found_base(self) -> (r: bool)
        ensures
            r == (self is ColonyPod || self is SeaColonyPod),
    {
        matches!(self, UnitKind::ColonyPod | UnitKind::SeaColonyPod)
    }

    /// Only formers terraform.
    pub fn can_terraform(self) -> (r: bool)
        ensures
            r == (self is Former),
    {
        matches!(self, UnitKind::Former)
    }
}

#[derive(Clone, Copy, Debug, PartialEq, Eq, Default, Structural)]
pub enum UnitActivity {
    #[default]
    Idle,
    Sentry,
    Patrol,
}

#[derive(Clone, Debug)]
pub struct Unit {
    pub id: usize,
    pub owner: usize,
    pub kind: UnitKind,
    pub design_index: usize,
    pub x: usize,
    pub y: usize,
    pub moves_left: i32,
    pub hp: i32,
    pub experience: i32,
    pub cargo_unit_ids: Vec<usize>,
    pub activity: UnitActivity,
    pub alive: bool,
}

#[derive(Clone, Copy, Debug, PartialEq, Eq, Structural)]
pub enum ProductionItem {

    ScoutPatrol,
    ColonyPod,
    SeaColonyPod,
    Former,
    Speeder,
    ResonanceLaser,
    EscortSpeeder,
    RaiderSpeeder,
    TranceScout,
    GarrisonGuard,
    PsiSentinel,
    RecyclingTanks,
    PerimeterDefense,
    NetworkNode,
    RecreationCommons,
    Greenhouse,
    MineralRefinery,
    TradeExchange,
    FreightDepot,
    PatrolGrid,
    CommandCenter,
    FieldHospital,
    MilitaryAcademy,
    SensorArray,
    TransitHub,
    PsiBeacon,
    ForwardDepot,
    HologramTheatre,
    BioenhancementCenter,
    ResearchHospital,
    WeatherPattern,
    ClinicalImmortality,
    EmpathGuild,
    OrbitalElevator,
    ManifoldDrive,
    SingularityContainment,
    BlackHoleHarvester,
    ProbeTeam,
    SeaTransport,
    CustomUnit(usize),
    StockpileEnergy,
    SkyHydroponics,
    SolarTransmitter,
    OrbitalDefense,
}

#[derive(Clone, Copy, Debug, PartialEq, Eq, PartialOrd, Ord, Structural)]
pub enum SecretProject {

    WeatherPattern,
    ClinicalImmortality,
    EmpathGuild,
    OrbitalElevator,
    ManifoldDrive,
    SingularityContainment,
    BlackHoleHarvester,
}

#[derive(Clone, Copy, Debug, PartialEq, Eq, Structural)]
pub enum Facility {

    RecyclingTanks,
    PerimeterDefense,
    NetworkNode,
    RecreationCommons,
    Greenhouse,
    MineralRefinery,
    TradeExchange,
    FreightDepot,
    PatrolGrid,
    CommandCenter,
    FieldHospital,
    MilitaryAcademy,
    SensorArray,
    TransitHub,
    PsiBeacon,
    ForwardDepot,
    HologramTheatre,
    BioenhancementCenter,
    ResearchHospital,
}

impl ProductionItem {

    /// The identifier of this ProductionItem in content data.
    pub open spec fn content_id_text(self) -> Seq<char> {
        match self {
            ProductionItem::ScoutPatrol => "scout_patrol"@,
            ProductionItem::ColonyPod => "colony_pod"@,
            ProductionItem::SeaColonyPod => "sea_colony_pod"@,
            ProductionItem::Former => "former"@,
            ProductionItem::Speeder => "speeder"@,
            ProductionItem::ResonanceLaser => "resonance_laser"@,
            ProductionItem::EscortSpeeder => "escort_speeder"@,
            ProductionItem::RaiderSpeeder => "raider_speeder"@,
            ProductionItem::TranceScout => "trance_scout"@,
            ProductionItem::GarrisonGuard => "garrison_guard"@,
            ProductionItem::PsiSentinel => "psi_sentinel"@,
            ProductionItem::RecyclingTanks => "recycling_tanks"@,
            ProductionItem::PerimeterDefense => "perimeter_defense"@,
            ProductionItem::NetworkNode => "network_node"@,
            ProductionItem::RecreationCommons => "recreation_commons"@,
            ProductionItem::Greenhouse => "greenhouse"@,
            ProductionItem::MineralRefinery => "mineral_refinery"@,
            ProductionItem::TradeExchange => "trade_exchange"@,
            ProductionItem::FreightDepot => "freight_depot"@,
            ProductionItem::PatrolGrid => "patrol_grid"@,
            ProductionItem::CommandCenter => "command_center"@,
            ProductionItem::FieldHospital => "field_hospital"@,
            ProductionItem::MilitaryAcademy => "military_academy"@,
            ProductionItem::SensorArray => "sensor_array"@,
            ProductionItem::TransitHub => "transit_hub"@,
            ProductionItem::PsiBeacon => "psi_beacon"@,
            ProductionItem::ForwardDepot => "forward_depot"@,
            ProductionItem::HologramTheatre => "hologram_theatre"@,
            ProductionItem::BioenhancementCenter => "bioenhancement_center"@,
            ProductionItem::ResearchHospital => "research_hospital"@,
            ProductionItem::WeatherPattern => "weather_pattern"@,
            ProductionItem::ClinicalImmortality => "clinical_immortality"@,
            ProductionItem::EmpathGuild => "empath_guild"@,
            ProductionItem::OrbitalElevator => "orbital_elevator"@,
            ProductionItem::ManifoldDrive => "manifold_drive"@,
            ProductionItem::SingularityContainment => "singularity_containment"@,
            ProductionItem::BlackHoleHarvester => "black_hole_harvester"@,
            ProductionItem::ProbeTeam => "probe_team"@,
            ProductionItem::SeaTransport => "sea_transport"@,
            ProductionItem::CustomUnit(_) => "custom_unit"@,
            ProductionItem::StockpileEnergy => "stockpile_energy"@,
            ProductionItem::SkyHydroponics => "sky_hydroponics"@,
            ProductionItem::SolarTransmitter => "solar_transmitter"@,
            ProductionItem::OrbitalDefense => "orbital_defense"@,
        }
    }

    /// The ProductionItem that a content identifier names, if any.
    pub open spec fn parse_content_id(s: Seq<char>) -> Option<ProductionItem> {
        if s == "scout_patrol"@ {
            Some(ProductionItem::ScoutPatrol)
        } else if s == "colony_pod"@ {
            Some(ProductionItem::ColonyPod)
        } else if s == "sea_colony_pod"@ {
            Some(ProductionItem::SeaColonyPod)
        } else if s == "former"@ {
            Some(ProductionItem::Former)
        } else if s == "speeder"@ {
            Some(ProductionItem::Speeder)
        } else if s == "resonance_laser"@ {
            Some(ProductionItem::ResonanceLaser)
        } else if s == "escort_speeder"@ {
            Some(ProductionItem::EscortSpeeder)
        } else if s == "raider_speeder"@ {
            Some(ProductionItem::RaiderSpeeder)
        } else if s == "trance_scout"@ {
            Some(ProductionItem::TranceScout)
        } else if s == "garrison_guard"@ {
            Some(ProductionItem::GarrisonGuard)
        } else if s == "psi_sentinel"@ {
            Some(ProductionItem::PsiSentinel)
        } else if s == "recycling_tanks"@ {
            Some(ProductionItem::RecyclingTanks)
        } else if s == "perimeter_defense"@ {
            Some(ProductionItem::PerimeterDefense)
        } else if s == "network_node"@ {
            Some(ProductionItem::NetworkNode)
        } else if s == "recreation_commons"@ {
            Some(ProductionItem::RecreationCommons)
        } else if s == "greenhouse"@ {
            Some(ProductionItem::Greenhouse)
        } else if s == "mineral_refinery"@ {
            Some(ProductionItem::MineralRefinery)
        } else if s == "trade_exchange"@ {
            Some(ProductionItem::TradeExchange)
        } else if s == "freight_depot"@ {
            Some(ProductionItem::FreightDepot)
        } else if s == "patrol_grid"@ {
            Some(ProductionItem::PatrolGrid)
        } else if s == "command_center"@ {
            Some(ProductionItem::CommandCenter)
        } else if s == "field_hospital"@ {
            Some(ProductionItem::FieldHospital)
        } else if s == "military_academy"@ {
            Some(ProductionItem::MilitaryAcademy)
        } else if s == "sensor_array"@ {
            Some(ProductionItem::SensorArray)
        } else if s == "transit_hub"@ {
            Some(ProductionItem::TransitHub)
        } else if s == "psi_beacon"@ {
            Some(ProductionItem::PsiBeacon)
        } else if s == "forward_depot"@ {
            Some(ProductionItem::ForwardDepot)
        } else if s == "hologram_theatre"@ {
            Some(ProductionItem::HologramTheatre)
        } else if s == "bioenhancement_center"@ {
            Some(ProductionItem::BioenhancementCenter)
        } else if s == "research_hospital"@ {
            Some(ProductionItem::ResearchHospital)
        } else if s == "weather_pattern"@ {
            Some(ProductionItem::WeatherPattern)
        } else if s == "clinical_immortality"@ {
            Some(ProductionItem::ClinicalImmortality)
        } else if s == "empath_guild"@ {
            Some(ProductionItem::EmpathGuild)
        } else if s == "orbital_elevator"@ {
            Some(ProductionItem::OrbitalElevator)
        } else if s == "manifold_drive"@ {
            Some(ProductionItem::ManifoldDrive)
        } else if s == "singularity_containment"@ {
            Some(ProductionItem::SingularityContainment)
        } else if s == "black_hole_harvester"@ {
            Some(ProductionItem::BlackHoleHarvester)
        } else if s == "probe_team"@ {
            Some(ProductionItem::ProbeTeam)
        } else if s == "sea_transport"@ {
            Some(ProductionItem::SeaTransport)
        } else if s == "stockpile_energy"@ {
            Some(ProductionItem::StockpileEnergy)
        } else if s == "sky_hydroponics"@ {
            Some(ProductionItem::SkyHydroponics)
        } else if s == "solar_transmitter"@ {
            Some(ProductionItem::SolarTransmitter)
        } else if s == "orbital_defense"@ {
            Some(ProductionItem::OrbitalDefense)
        } else {
            None
        }
    }

    pub fn content_id(self) -> (r: &'static str)
        ensures
            r@ == self.content_id_text(),
    {
        match self {
            ProductionItem::ScoutPatrol => "scout_patrol",
            ProductionItem::ColonyPod => "colony_pod",
            ProductionItem::SeaColonyPod => "sea_colony_pod",
            ProductionItem::Former => "former",
            ProductionItem::Speeder => "speeder",
            ProductionItem::ResonanceLaser => "resonance_laser",
            ProductionItem::EscortSpeeder => "escort_speeder",
            ProductionItem::RaiderSpeeder => "raider_speeder",
            ProductionItem::TranceScout => "trance_scout",
            ProductionItem::GarrisonGuard => "garrison_guard",
            ProductionItem::PsiSentinel => "psi_sentinel",
            ProductionItem::RecyclingTanks => "recycling_tanks",
            ProductionItem::PerimeterDefense => "perimeter_defense",
            ProductionItem::NetworkNode => "network_node",
            ProductionItem::RecreationCommons => "recreation_commons",
            ProductionItem::Greenhouse => "greenhouse",
            ProductionItem::MineralRefinery => "mineral_refinery",
            ProductionItem::TradeExchange => "trade_exchange",
            ProductionItem::FreightDepot => "freight_depot",
            ProductionItem::PatrolGrid => "patrol_grid",
            ProductionItem::CommandCenter => "command_center",
            ProductionItem::FieldHospital => "field_hospital",
            ProductionItem::MilitaryAcademy => "military_academy",
            ProductionItem::SensorArray => "sensor_array",
            ProductionItem::TransitHub => "transit_hub",
            ProductionItem::PsiBeacon => "psi_beacon",
            ProductionItem::ForwardDepot => "forward_depot",
            ProductionItem::HologramTheatre => "hologram_theatre",
            ProductionItem::BioenhancementCenter => "bioenhancement_center",
            ProductionItem::ResearchHospital => "research_hospital",
            ProductionItem::WeatherPattern => "weather_pattern",
            ProductionItem::ClinicalImmortality => "clinical_immortality",
            ProductionItem::EmpathGuild => "empath_guild",
            ProductionItem::OrbitalElevator => "orbital_elevator",
            ProductionItem::ManifoldDrive => "manifold_drive",
            ProductionItem::SingularityContainment => "singularity_containment",
            ProductionItem::BlackHoleHarvester => "black_hole_harvester",
            ProductionItem::ProbeTeam => "probe_team",
            ProductionItem::SeaTransport => "sea_transport",
            ProductionItem::CustomUnit(_) => "custom_unit",
            ProductionItem::StockpileEnergy => "stockpile_energy",
            ProductionItem::SkyHydroponics => "sky_hydroponics",
            ProductionItem::SolarTransmitter => "solar_transmitter",
            ProductionItem::OrbitalDefense => "orbital_defense",
        }
    }

    pub fn from_content_id(value: &str) -> (r: Option<ProductionItem>)
        ensures
            r == ProductionItem::parse_content_id(value@),
    {
        if text_eq(value, "scout_patrol") {
            return Some(ProductionItem::ScoutPatrol);
        }
        if text_eq(value, "colony_pod") {
            return Some(ProductionItem::ColonyPod);
        }
        if text_eq(value, "sea_colony_pod") {
            return Some(ProductionItem::SeaColonyPod);
        }
        if text_eq(value, "former") {
            return Some(ProductionItem::Former);
        }
        if text_eq(value, "speeder") {
            return Some(ProductionItem::Speeder);
        }
        if text_eq(value, "resonance_laser") {
            return Some(ProductionItem::ResonanceLaser);
        }
        if text_eq(value, "escort_speeder") {
            return Some(ProductionItem::EscortSpeeder);
        }
        if text_eq(value, "raider_speeder") {
            return Some(ProductionItem::RaiderSpeeder);
        }
        if text_eq(value, "trance_scout") {
            return Some(ProductionItem::TranceScout);
        }
        if text_eq(value, "garrison_guard") {
            return Some(ProductionItem::GarrisonGuard);
        }
        if text_eq(value, "psi_sentinel") {
            return Some(ProductionItem::PsiSentinel);
        }
        if text_eq(value, "recycling_tanks") {
            return Some(ProductionItem::RecyclingTanks);
        }
        if text_eq(value, "perimeter_defense") {
            return Some(ProductionItem::PerimeterDefense);
        }
        if text_eq(value, "network_node") {
            return Some(ProductionItem::NetworkNode);
        }
        if text_eq(value, "recreation_commons") {
            return Some(ProductionItem::RecreationCommons);
        }
        if text_eq(value, "greenhouse") {
            return Some(ProductionItem::Greenhouse);
        }
        if text_eq(value, "mineral_refinery") {
            return Some(ProductionItem::MineralRefinery);
        }
        if text_eq(value, "trade_exchange") {
            return Some(ProductionItem::TradeExchange);
        }
        if text_eq(value, "freight_depot") {
            return Some(ProductionItem::FreightDepot);
        }
        if text_eq(value, "patrol_grid") {
            return Some(ProductionItem::PatrolGrid);
        }
        if text_eq(value, "command_center") {
            return Some(ProductionItem::CommandCenter);
        }
        if text_eq(value, "field_hospital") {
            return Some(ProductionItem::FieldHospital);
        }
        if text_eq(value, "military_academy") {
            return Some(ProductionItem::MilitaryAcademy);
        }
        if text_eq(value, "sensor_array") {
            return Some(ProductionItem::SensorArray);
        }
        if text_eq(value, "transit_hub") {
            return Some(ProductionItem::TransitHub);
        }
        if text_eq(value, "psi_beacon") {
            return Some(ProductionItem::PsiBeacon);
        }
        if text_eq(value, "forward_depot") {
            return Some(ProductionItem::ForwardDepot);
        }
        if text_eq(value, "hologram_theatre") {
            return Some(ProductionItem::HologramTheatre);
        }
        if text_eq(value, "bioenhancement_center") {
            return Some(ProductionItem::BioenhancementCenter);
        }
        if text_eq(value, "research_hospital") {
            return Some(ProductionItem::ResearchHospital);
        }
        if text_eq(value, "weather_pattern") {
            return Some(ProductionItem::WeatherPattern);
        }
        if text_eq(value, "clinical_immortality") {
            return Some(ProductionItem::ClinicalImmortality);
        }
        if text_eq(value, "empath_guild") {
            return Some(ProductionItem::EmpathGuild);
        }
        if text_eq(value, "orbital_elevator") {
            return Some(ProductionItem::OrbitalElevator);
        }
        if text_eq(value, "manifold_drive") {
            return Some(ProductionItem::ManifoldDrive);
        }
        if text_eq(value, "singularity_containment") {
            return Some(ProductionItem::SingularityContainment);
        }
        if text_eq(value, "black_hole_harvester") {
            return Some(ProductionItem::BlackHoleHarvester);
        }
        if text_eq(value, "probe_team") {
            return Some(ProductionItem::ProbeTeam);
        }
        if text_eq(value, "sea_transport") {
            return Some(ProductionItem::SeaTransport);
        }
        if text_eq(value, "stockpile_energy") {
            return Some(ProductionItem::StockpileEnergy);
        }
        if text_eq(value, "sky_hydroponics") {
            return Some(ProductionItem::SkyHydroponics);
        }
        if text_eq(value, "solar_transmitter") {
            return Some(ProductionItem::SolarTransmitter);
        }
        if text_eq(value, "orbital_defense") {
            return Some(ProductionItem::OrbitalDefense);
        }
        None
    }

    /// The facility this item builds, if it is one.
    pub open spec fn facility_of(self) -> Option<Facility> {
        match self {
            ProductionItem::RecyclingTanks => Some(Facility::RecyclingTanks),
            ProductionItem::PerimeterDefense => Some(Facility::PerimeterDefense),
            ProductionItem::NetworkNode => Some(Facility::NetworkNode),
            ProductionItem::RecreationCommons => Some(Facility::RecreationCommons),
            ProductionItem::Greenhouse => Some(Facility::Greenhouse),
            ProductionItem::MineralRefinery => Some(Facility::MineralRefinery),
            ProductionItem::TradeExchange => Some(Facility::TradeExchange),
            ProductionItem::FreightDepot => Some(Facility::FreightDepot),
            ProductionItem::PatrolGrid => Some(Facility::PatrolGrid),
            ProductionItem::CommandCenter => Some(Facility::CommandCenter),
            ProductionItem::FieldHospital => Some(Facility::FieldHospital),
            ProductionItem::MilitaryAcademy => Some(Facility::MilitaryAcademy),
            ProductionItem::SensorArray => Some(Facility::SensorArray),
            ProductionItem::TransitHub => Some(Facility::TransitHub),
            ProductionItem::PsiBeacon => Some(Facility::PsiBeacon),
            ProductionItem::ForwardDepot => Some(Facility::ForwardDepot),
            ProductionItem::HologramTheatre => Some(Facility::HologramTheatre),
            ProductionItem::BioenhancementCenter => Some(Facility::BioenhancementCenter),
            ProductionItem::ResearchHospital => Some(Facility::ResearchHospital),
            _ => None,
        }
    }

    pub fn facility(self) -> (r: Option<Facility>)
        ensures
            r == self.facility_of(),
    {
        match self {
            ProductionItem::RecyclingTanks => Some(Facility::RecyclingTanks),
            ProductionItem::PerimeterDefense => Some(Facility::PerimeterDefense),
            ProductionItem::NetworkNode => Some(Facility::NetworkNode),
            ProductionItem::RecreationCommons => Some(Facility::RecreationCommons),
            ProductionItem::Greenhouse => Some(Facility::Greenhouse),
            ProductionItem::MineralRefinery => Some(Facility::MineralRefinery),
            ProductionItem::TradeExchange => Some(Facility::TradeExchange),
            ProductionItem::FreightDepot => Some(Facility::FreightDepot),
            ProductionItem::PatrolGrid => Some(Facility::PatrolGrid),
            ProductionItem::CommandCenter => Some(Facility::CommandCenter),
            ProductionItem::FieldHospital => Some(Facility::FieldHospital),
            ProductionItem::MilitaryAcademy => Some(Facility::MilitaryAcademy),
            ProductionItem::SensorArray => Some(Facility::SensorArray),
            ProductionItem::TransitHub => Some(Facility::TransitHub),
            ProductionItem::PsiBeacon => Some(Facility::PsiBeacon),
            ProductionItem::ForwardDepot => Some(Facility::ForwardDepot),
            ProductionItem::HologramTheatre => Some(Facility::HologramTheatre),
            ProductionItem::BioenhancementCenter => Some(Facility::BioenhancementCenter),
            ProductionItem::ResearchHospital => Some(Facility::ResearchHospital),
            _ => None,
        }
    }

    /// The items a base can choose, in menu order.
    pub open spec fn all_seq() -> Seq<ProductionItem> {
        seq![ProductionItem::ScoutPatrol, ProductionItem::ColonyPod, ProductionItem::Former, ProductionItem::Speeder, ProductionItem::ResonanceLaser, ProductionItem::EscortSpeeder, ProductionItem::RaiderSpeeder, ProductionItem::TranceScout, ProductionItem::GarrisonGuard, ProductionItem::PsiSentinel, ProductionItem::RecyclingTanks, ProductionItem::PerimeterDefense, ProductionItem::NetworkNode, ProductionItem::RecreationCommons, ProductionItem::Greenhouse, ProductionItem::MineralRefinery, ProductionItem::TradeExchange, ProductionItem::FreightDepot, ProductionItem::PatrolGrid, ProductionItem::CommandCenter, ProductionItem::FieldHospital, ProductionItem::MilitaryAcademy, ProductionItem::SensorArray, ProductionItem::TransitHub, ProductionItem::PsiBeacon, ProductionItem::ForwardDepot, ProductionItem::HologramTheatre, ProductionItem::BioenhancementCenter, ProductionItem::ResearchHospital, ProductionItem::WeatherPattern, ProductionItem::ClinicalImmortality, ProductionItem::EmpathGuild, ProductionItem::OrbitalElevator, ProductionItem::ManifoldDrive, ProductionItem::SingularityContainment, ProductionItem::BlackHoleHarvester, ProductionItem::ProbeTeam, ProductionItem::StockpileEnergy, ProductionItem::SkyHydroponics, ProductionItem::SolarTransmitter, ProductionItem::OrbitalDefense]
    }

    pub fn all() -> (r: [ProductionItem; 41])
        ensures
            r@ == ProductionItem::all_seq(),
    {
        [ProductionItem::ScoutPatrol, ProductionItem::ColonyPod, ProductionItem::Former, ProductionItem::Speeder, ProductionItem::ResonanceLaser, ProductionItem::EscortSpeeder, ProductionItem::RaiderSpeeder, ProductionItem::TranceScout, ProductionItem::GarrisonGuard, ProductionItem::PsiSentinel, ProductionItem::RecyclingTanks, ProductionItem::PerimeterDefense, ProductionItem::NetworkNode, ProductionItem::RecreationCommons, ProductionItem::Greenhouse, ProductionItem::MineralRefinery, ProductionItem::TradeExchange, ProductionItem::FreightDepot, ProductionItem::PatrolGrid, ProductionItem::CommandCenter, ProductionItem::FieldHospital, ProductionItem::MilitaryAcademy, ProductionItem::SensorArray, ProductionItem::TransitHub, ProductionItem::PsiBeacon, ProductionItem::ForwardDepot, ProductionItem::HologramTheatre, ProductionItem::BioenhancementCenter, ProductionItem::ResearchHospital, ProductionItem::WeatherPattern, ProductionItem::ClinicalImmortality, ProductionItem::EmpathGuild, ProductionItem::OrbitalElevator, ProductionItem::ManifoldDrive, ProductionItem::SingularityContainment, ProductionItem::BlackHoleHarvester, ProductionItem::ProbeTeam, ProductionItem::StockpileEnergy, ProductionItem::SkyHydroponics, ProductionItem::SolarTransmitter, ProductionItem::OrbitalDefense]
    }

    /// The secret project this item builds, if it is one.
    pub open spec fn secret_project_of(self) -> Option<SecretProject> {
        match self {
            ProductionItem::WeatherPattern => Some(SecretProject::WeatherPattern),
            ProductionItem::ClinicalImmortality => Some(SecretProject::ClinicalImmortality),
            ProductionItem::EmpathGuild => Some(SecretProject::EmpathGuild),
            ProductionItem::OrbitalElevator => Some(SecretProject::OrbitalElevator),
            ProductionItem::ManifoldDrive => Some(SecretProject::ManifoldDrive),
            ProductionItem::SingularityContainment => Some(SecretProject::SingularityContainment),
            ProductionItem::BlackHoleHarvester => Some(SecretProject::BlackHoleHarvester),
            _ => None,
        }
    }

    pub fn secret_project(self) -> (r: Option<SecretProject>)
        ensures
            r == self.secret_project_of(),
    {
        match self {
            ProductionItem::WeatherPattern => Some(SecretProject::WeatherPattern),
            ProductionItem::ClinicalImmortality => Some(SecretProject::ClinicalImmortality),
            ProductionItem::EmpathGuild => Some(SecretProject::EmpathGuild),
            ProductionItem::OrbitalElevator => Some(SecretProject::OrbitalElevator),
            ProductionItem::ManifoldDrive => Some(SecretProject::ManifoldDrive),
            ProductionItem::SingularityContainment => Some(SecretProject::SingularityContainment),
            ProductionItem::BlackHoleHarvester => Some(SecretProject::BlackHoleHarvester),
            _ => None,
        }
    }

    /// The item that builds a facility.
    pub open spec fn of_facility(facility: Facility) -> ProductionItem {
        match facility {
            Facility::RecyclingTanks => ProductionItem::RecyclingTanks,
            Facility::PerimeterDefense => ProductionItem::PerimeterDefense,
            Facility::NetworkNode => ProductionItem::NetworkNode,
            Facility::RecreationCommons => ProductionItem::RecreationCommons,
            Facility::Greenhouse => ProductionItem::Greenhouse,
            Facility::MineralRefinery => ProductionItem::MineralRefinery,
            Facility::TradeExchange => ProductionItem::TradeExchange,
            Facility::FreightDepot => ProductionItem::FreightDepot,
            Facility::PatrolGrid => ProductionItem::PatrolGrid,
            Facility::CommandCenter => ProductionItem::CommandCenter,
            Facility::FieldHospital => ProductionItem::FieldHospital,
            Facility::MilitaryAcademy => ProductionItem::MilitaryAcademy,
            Facility::SensorArray => ProductionItem::SensorArray,
            Facility::TransitHub => ProductionItem::TransitHub,
            Facility::PsiBeacon => ProductionItem::PsiBeacon,
            Facility::ForwardDepot => ProductionItem::ForwardDepot,
            Facility::HologramTheatre => ProductionItem::HologramTheatre,
            Facility::BioenhancementCenter => ProductionItem::BioenhancementCenter,
            Facility::ResearchHospital => ProductionItem::ResearchHospital,
        }
    }

    pub fn from_facility(facility: Facility) -> (r: Option<ProductionItem>)
        ensures
            r == Some(ProductionItem::of_facility(facility)),
    {
        match facility {
            Facility::RecyclingTanks => Some(ProductionItem::RecyclingTanks),
            Facility::PerimeterDefense => Some(ProductionItem::PerimeterDefense),
            Facility::NetworkNode => Some(ProductionItem::NetworkNode),
            Facility::RecreationCommons => Some(ProductionItem::RecreationCommons),
            Facility::Greenhouse => Some(ProductionItem::Greenhouse),
            Facility::MineralRefinery => Some(ProductionItem::MineralRefinery),
            Facility::TradeExchange => Some(ProductionItem::TradeExchange),
            Facility::FreightDepot => Some(ProductionItem::FreightDepot),
            Facility::PatrolGrid => Some(ProductionItem::PatrolGrid),
            Facility::CommandCenter => Some(ProductionItem::CommandCenter),
            Facility::FieldHospital => Some(ProductionItem::FieldHospital),
            Facility::MilitaryAcademy => Some(ProductionItem::MilitaryAcademy),
            Facility::SensorArray => Some(ProductionItem::SensorArray),
            Facility::TransitHub => Some(ProductionItem::TransitHub),
            Facility::PsiBeacon => Some(ProductionItem::PsiBeacon),
            Facility::ForwardDepot => Some(ProductionItem::ForwardDepot),
            Facility::HologramTheatre => Some(ProductionItem::HologramTheatre),
            Facility::BioenhancementCenter => Some(ProductionItem::BioenhancementCenter),
            Facility::ResearchHospital => Some(ProductionItem::ResearchHospital),
        }
    }

    /// Whether this item trains a unit.
    pub open spec fn is_unit(self) -> bool {
        self is ScoutPatrol || self is ColonyPod || self is SeaColonyPod || self is Former
            || self is Speeder || self is ResonanceLaser || self is EscortSpeeder
            || self is RaiderSpeeder || self is TranceScout || self is GarrisonGuard
            || self is PsiSentinel || self is ProbeTeam || self is SeaTransport
            || self is CustomUnit
    }
}

impl SecretProject {

    /// The identifier of this SecretProject in content data.
    pub open spec fn content_id_text(self) -> Seq<char> {
        match self {
            SecretProject::WeatherPattern => "weather_pattern"@,
            SecretProject::ClinicalImmortality => "clinical_immortality"@,
            SecretProject::EmpathGuild => "empath_guild"@,
            SecretProject::OrbitalElevator => "orbital_elevator"@,
            SecretProject::ManifoldDrive => "manifold_drive"@,
            SecretProject::SingularityContainment => "singularity_containment"@,
            SecretProject::BlackHoleHarvester => "black_hole_harvester"@,
        }
    }

    /// The SecretProject that a content identifier names, if any.
    pub open spec fn parse_content_id(s: Seq<char>) -> Option<SecretProject> {
        if s == "weather_pattern"@ {
            Some(SecretProject::WeatherPattern)
        } else if s == "clinical_immortality"@ {
            Some(SecretProject::ClinicalImmortality)
        } else if s == "empath_guild"@ {
            Some(SecretProject::EmpathGuild)
        } else if s == "orbital_elevator"@ {
            Some(SecretProject::OrbitalElevator)
        } else if s == "manifold_drive"@ {
            Some(SecretProject::ManifoldDrive)
        } else if s == "singularity_containment"@ {
            Some(SecretProject::SingularityContainment)
        } else if s == "black_hole_harvester"@ {
            Some(SecretProject::BlackHoleHarvester)
        } else {
            None
        }
    }

    pub fn content_id(self) -> (r: &'static str)
        ensures
            r@ == self.content_id_text(),
    {
        match self {
            SecretProject::WeatherPattern => "weather_pattern",
            SecretProject::ClinicalImmortality => "clinical_immortality",
            SecretProject::EmpathGuild => "empath_guild",
            SecretProject::OrbitalElevator => "orbital_elevator",
            SecretProject::ManifoldDrive => "manifold_drive",
            SecretProject::SingularityContainment => "singularity_containment",
            SecretProject::BlackHoleHarvester => "black_hole_harvester",
        }
    }

    pub fn from_content_id(value: &str) -> (r: Option<SecretProject>)
        ensures
            r == SecretProject::parse_content_id(value@),
    {
        if text_eq(value, "weather_pattern") {
            return Some(SecretProject::WeatherPattern);
        }
        if text_eq(value, "clinical_immortality") {
            return Some(SecretProject::ClinicalImmortality);
        }
        if text_eq(value, "empath_guild") {
            return Some(SecretProject::EmpathGuild);
        }
        if text_eq(value, "orbital_elevator") {
            return Some(SecretProject::OrbitalElevator);
        }
        if text_eq(value, "manifold_drive") {
            return Some(SecretProject::ManifoldDrive);
        }
        if text_eq(value, "singularity_containment") {
            return Some(SecretProject::SingularityContainment);
        }
        if text_eq(value, "black_hole_harvester") {
            return Some(SecretProject::BlackHoleHarvester);
        }
        None
    }

    /// Every secret project, in declaration order.
    pub open spec fn all_seq() -> Seq<SecretProject> {
        seq![SecretProject::WeatherPattern, SecretProject::ClinicalImmortality, SecretProject::EmpathGuild, SecretProject::OrbitalElevator, SecretProject::ManifoldDrive, SecretProject::SingularityContainment, SecretProject::BlackHoleHarvester]
    }

    pub fn all() -> (r: [SecretProject; 7])
        ensures
            r@ == SecretProject::all_seq(),
    {
        [SecretProject::WeatherPattern, SecretProject::ClinicalImmortality, SecretProject::EmpathGuild, SecretProject::OrbitalElevator, SecretProject::ManifoldDrive, SecretProject::SingularityContainment, SecretProject::BlackHoleHarvester]
    }
}

impl Facility {

    /// The identifier of this Facility in content data.
    pub open spec fn content_id_text(self) -> Seq<char> {
        match self {
            Facility::RecyclingTanks => "recycling_tanks"@,
            Facility::PerimeterDefense => "perimeter_defense"@,
            Facility::NetworkNode => "network_node"@,
            Facility::RecreationCommons => "recreation_commons"@,
            Facility::Greenhouse => "greenhouse"@,
            Facility::MineralRefinery => "mineral_refinery"@,
            Facility::TradeExchange => "trade_exchange"@,
            Facility::FreightDepot => "freight_depot"@,
            Facility::PatrolGrid => "patrol_grid"@,
            Facility::CommandCenter => "command_center"@,
            Facility::FieldHospital => "field_hospital"@,
            Facility::MilitaryAcademy => "military_academy"@,
            Facility::SensorArray => "sensor_array"@,
            Facility::TransitHub => "transit_hub"@,
            Facility::PsiBeacon => "psi_beacon"@,
            Facility::ForwardDepot => "forward_depot"@,
            Facility::HologramTheatre => "hologram_theatre"@,
            Facility::BioenhancementCenter => "bioenhancement_center"@,
            Facility::ResearchHospital => "research_hospital"@,
        }
    }

    /// The Facility that a content identifier names, if any.
    pub open spec fn parse_content_id(s: Seq<char>) -> Option<Facility> {
        if s == "recycling_tanks"@ {
            Some(Facility::RecyclingTanks)
        } else if s == "perimeter_defense"@ {
            Some(Facility::PerimeterDefense)
        } else if s == "network_node"@ {
            Some(Facility::NetworkNode)
        } else if s == "recreation_commons"@ {
            Some(Facility::RecreationCommons)
        } else if s == "greenhouse"@ {
            Some(Facility::Greenhouse)
        } else if s == "mineral_refinery"@ {
            Some(Facility::MineralRefinery)
        } else if s == "trade_exchange"@ {
            Some(Facility::TradeExchange)
        } else if s == "freight_depot"@ {
            Some(Facility::FreightDepot)
        } else if s == "patrol_grid"@ {
            Some(Facility::PatrolGrid)
        } else if s == "command_center"@ {
            Some(Facility::CommandCenter)
        } else if s == "field_hospital"@ {
            Some(Facility::FieldHospital)
        } else if s == "military_academy"@ {
            Some(Facility::MilitaryAcademy)
        } else if s == "sensor_array"@ {
            Some(Facility::SensorArray)
        } else if s == "transit_hub"@ {
            Some(Facility::TransitHub)
        } else if s == "psi_beacon"@ {
            Some(Facility::PsiBeacon)
        } else if s == "forward_depot"@ {
            Some(Facility::ForwardDepot)
        } else if s == "hologram_theatre"@ {
            Some(Facility::HologramTheatre)
        } else if s == "bioenhancement_center"@ {
            Some(Facility::BioenhancementCenter)
        } else if s == "research_hospital"@ {
            Some(Facility::ResearchHospital)
        } else {
            None
        }
    }

    pub fn content_id(self) -> (r: &'static str)
        ensures
            r@ == self.content_id_text(),
    {
        match self {
            Facility::RecyclingTanks => "recycling_tanks",
            Facility::PerimeterDefense => "perimeter_defense",
            Facility::NetworkNode => "network_node",
            Facility::RecreationCommons => "recreation_commons",
            Facility::Greenhouse => "greenhouse",
            Facility::MineralRefinery => "mineral_refinery",
            Facility::TradeExchange => "trade_exchange",
            Facility::FreightDepot => "freight_depot",
            Facility::PatrolGrid => "patrol_grid",
            Facility::CommandCenter => "command_center",
            Facility::FieldHospital => "field_hospital",
            Facility::MilitaryAcademy => "military_academy",
            Facility::SensorArray => "sensor_array",
            Facility::TransitHub => "transit_hub",
            Facility::PsiBeacon => "psi_beacon",
            Facility::ForwardDepot => "forward_depot",
            Facility::HologramTheatre => "hologram_theatre",
            Facility::BioenhancementCenter => "bioenhancement_center",
            Facility::ResearchHospital => "research_hospital",
        }
    }

    pub fn from_content_id(value: &str) -> (r: Option<Facility>)
        ensures
            r == Facility::parse_content_id(value@),
    {
        if text_eq(value, "recycling_tanks") {
            return Some(Facility::RecyclingTanks);
        }
        if text_eq(value, "perimeter_defense") {
            return Some(Facility::PerimeterDefense);
        }
        if text_eq(value, "network_node") {
            return Some(Facility::NetworkNode);
        }
        if text_eq(value, "recreation_commons") {
            return Some(Facility::RecreationCommons);
        }
        if text_eq(value, "greenhouse") {
            return Some(Facility::Greenhouse);
        }
        if text_eq(value, "mineral_refinery") {
            return Some(Facility::MineralRefinery);
        }
        if text_eq(value, "trade_exchange") {
            return Some(Facility::TradeExchange);
        }
        if text_eq(value, "freight_depot") {
            return Some(Facility::FreightDepot);
        }
        if text_eq(value, "patrol_grid") {
            return Some(Facility::PatrolGrid);
        }
        if text_eq(value, "command_center") {
            return Some(Facility::CommandCenter);
        }
        if text_eq(value, "field_hospital") {
            return Some(Facility::FieldHospital);
        }
        if text_eq(value, "military_academy") {
            return Some(Facility::MilitaryAcademy);
        }
        if text_eq(value, "sensor_array") {
            return Some(Facility::SensorArray);
        }
        if text_eq(value, "transit_hub") {
            return Some(Facility::TransitHub);
        }
        if text_eq(value, "psi_beacon") {
            return Some(Facility::PsiBeacon);
        }
        if text_eq(value, "forward_depot") {
            return Some(Facility::ForwardDepot);
        }
        if text_eq(value, "hologram_theatre") {
            return Some(Facility::HologramTheatre);
        }
        if text_eq(value, "bioenhancement_center") {
            return Some(Facility::BioenhancementCenter);
        }
        if text_eq(value, "research_hospital") {
            return Some(Facility::ResearchHospital);
        }
        None
    }

    /// Every facility, in declaration order.
    pub open spec fn all_seq() -> Seq<Facility> {
        seq![Facility::RecyclingTanks, Facility::PerimeterDefense, Facility::NetworkNode, Facility::RecreationCommons, Facility::Greenhouse, Facility::MineralRefinery, Facility::TradeExchange, Facility::FreightDepot, Facility::PatrolGrid, Facility::CommandCenter, Facility::FieldHospital, Facility::MilitaryAcademy, Facility::SensorArray, Facility::TransitHub, Facility::PsiBeacon, Facility::ForwardDepot, Facility::HologramTheatre, Facility::BioenhancementCenter, Facility::ResearchHospital]
    }

    pub fn all() -> (r: [Facility; 19])
        ensures
            r@ == Facility::all_seq(),
    {
        [Facility::RecyclingTanks, Facility::PerimeterDefense, Facility::NetworkNode, Facility::RecreationCommons, Facility::Greenhouse, Facility::MineralRefinery, Facility::TradeExchange, Facility::FreightDepot, Facility::PatrolGrid, Facility::CommandCenter, Facility::FieldHospital, Facility::MilitaryAcademy, Facility::SensorArray, Facility::TransitHub, Facility::PsiBeacon, Facility::ForwardDepot, Facility::HologramTheatre, Facility::BioenhancementCenter, Facility::ResearchHospital]
    }
}

#[derive(Clone, Copy, Debug, PartialEq, Eq, Structural)]
pub enum Tech {

    CentauriEcology,
    SocialPsych,
    ProgenitorPsych,
    FieldModulation,
    PlanetaryNetworks,
    SecretsOfTheHumanBrain,
    GeneSplicing,
    IndustrialBase,
    DoctrineMobility,
    DoctrineInitiative,
    DoctrineAirPower,
    InformationNetworks,
    Biogenetics,
    SecretsOfPlanet,
    OrbitalMechanics,
    AdvancedFieldTheory,
    SingularityPhysics,
}

impl Tech {

    /// The identifier of this Tech in content data.
    pub open spec fn content_id_text(self) -> Seq<char> {
        match self {
            Tech::CentauriEcology => "centauri_ecology"@,
            Tech::SocialPsych => "social_psych"@,
            Tech::ProgenitorPsych => "progenitor_psych"@,
            Tech::FieldModulation => "field_modulation"@,
            Tech::PlanetaryNetworks => "planetary_networks"@,
            Tech::SecretsOfTheHumanBrain => "secrets_of_the_human_brain"@,
            Tech::GeneSplicing => "gene_splicing"@,
            Tech::IndustrialBase => "industrial_base"@,
            Tech::DoctrineMobility => "doctrine_mobility"@,
            Tech::DoctrineInitiative => "doctrine_initiative"@,
            Tech::DoctrineAirPower => "doctrine_air_power"@,
            Tech::InformationNetworks => "information_networks"@,
            Tech::Biogenetics => "biogenetics"@,
            Tech::SecretsOfPlanet => "secrets_of_planet"@,
            Tech::OrbitalMechanics => "orbital_mechanics"@,
            Tech::AdvancedFieldTheory => "advanced_field_theory"@,
            Tech::SingularityPhysics => "singularity_physics"@,
        }
    }

    /// The Tech that a content identifier names, if any.
    pub open spec fn parse_content_id(s: Seq<char>) -> Option<Tech> {
        if s == "centauri_ecology"@ {
            Some(Tech::CentauriEcology)
        } else if s == "social_psych"@ {
            Some(Tech::SocialPsych)
        } else if s == "progenitor_psych"@ {
            Some(Tech::ProgenitorPsych)
        } else if s == "field_modulation"@ {
            Some(Tech::FieldModulation)
        } else if s == "planetary_networks"@ {
            Some(Tech::PlanetaryNetworks)
        } else if s == "secrets_of_the_human_brain"@ {
            Some(Tech::SecretsOfTheHumanBrain)
        } else if s == "gene_splicing"@ {
            Some(Tech::GeneSplicing)
        } else if s == "industrial_base"@ {
            Some(Tech::IndustrialBase)
        } else if s == "doctrine_mobility"@ {
            Some(Tech::DoctrineMobility)
        } else if s == "doctrine_initiative"@ {
            Some(Tech::DoctrineInitiative)
        } else if s == "doctrine_air_power"@ {
            Some(Tech::DoctrineAirPower)
        } else if s == "information_networks"@ {
            Some(Tech::InformationNetworks)
        } else if s == "biogenetics"@ {
            Some(Tech::Biogenetics)
        } else if s == "secrets_of_planet"@ {
            Some(Tech::SecretsOfPlanet)
        } else if s == "orbital_mechanics"@ {
            Some(Tech::OrbitalMechanics)
        } else if s == "advanced_field_theory"@ {
            Some(Tech::AdvancedFieldTheory)
        } else if s == "singularity_physics"@ {
            Some(Tech::SingularityPhysics)
        } else {
            None
        }
    }

    pub fn content_id(self) -> (r: &'static str)
        ensures
            r@ == self.content_id_text(),
    {
        match self {
            Tech::CentauriEcology => "centauri_ecology",
            Tech::SocialPsych => "social_psych",
            Tech::ProgenitorPsych => "progenitor_psych",
            Tech::FieldModulation => "field_modulation",
            Tech::PlanetaryNetworks => "planetary_networks",
            Tech::SecretsOfTheHumanBrain => "secrets_of_the_human_brain",
            Tech::GeneSplicing => "gene_splicing",
            Tech::IndustrialBase => "industrial_base",
            Tech::DoctrineMobility => "doctrine_mobility",
            Tech::DoctrineInitiative => "doctrine_initiative",
            Tech::DoctrineAirPower => "doctrine_air_power",
            Tech::InformationNetworks => "information_networks",
            Tech::Biogenetics => "biogenetics",
            Tech::SecretsOfPlanet => "secrets_of_planet",
            Tech::OrbitalMechanics => "orbital_mechanics",
            Tech::AdvancedFieldTheory => "advanced_field_theory",
            Tech::SingularityPhysics => "singularity_physics",
        }
    }

    pub fn from_content_id(value: &str) -> (r: Option<Tech>)
        ensures
            r == Tech::parse_content_id(value@),
    {
        if text_eq(value, "centauri_ecology") {
            return Some(Tech::CentauriEcology);
        }
        if text_eq(value, "social_psych") {
            return Some(Tech::SocialPsych);
        }
        if text_eq(value, "progenitor_psych") {
            return Some(Tech::ProgenitorPsych);
        }
        if text_eq(value, "field_modulation") {
            return Some(Tech::FieldModulation);
        }
        if text_eq(value, "planetary_networks") {
            return Some(Tech::PlanetaryNetworks);
        }
        if text_eq(value, "secrets_of_the_human_brain") {
            return Some(Tech::SecretsOfTheHumanBrain);
        }
        if text_eq(value, "gene_splicing") {
            return Some(Tech::GeneSplicing);
        }
        if text_eq(value, "industrial_base") {
            return Some(Tech::IndustrialBase);
        }
        if text_eq(value, "doctrine_mobility") {
            return Some(Tech::DoctrineMobility);
        }
        if text_eq(value, "doctrine_initiative") {
            return Some(Tech::DoctrineInitiative);
        }
        if text_eq(value, "doctrine_air_power") {
            return Some(Tech::DoctrineAirPower);
        }
        if text_eq(value, "information_networks") {
            return Some(Tech::InformationNetworks);
        }
        if text_eq(value, "biogenetics") {
            return Some(Tech::Biogenetics);
        }
        if text_eq(value, "secrets_of_planet") {
            return Some(Tech::SecretsOfPlanet);
        }
        if text_eq(value, "orbital_mechanics") {
            return Some(Tech::OrbitalMechanics);
        }
        if text_eq(value, "advanced_field_theory") {
            return Some(Tech::AdvancedFieldTheory);
        }
        if text_eq(value, "singularity_physics") {
            return Some(Tech::SingularityPhysics);
        }
        None
    }

    /// The techs of the research tree, in tree order.
    pub open spec fn all_seq() -> Seq<Tech> {
        seq![Tech::CentauriEcology, Tech::SocialPsych, Tech::ProgenitorPsych, Tech::FieldModulation, Tech::PlanetaryNetworks, Tech::SecretsOfTheHumanBrain, Tech::GeneSplicing, Tech::IndustrialBase, Tech::DoctrineMobility, Tech::InformationNetworks, Tech::Biogenetics, Tech::SecretsOfPlanet, Tech::OrbitalMechanics, Tech::AdvancedFieldTheory, Tech::SingularityPhysics]
    }

    pub fn all() -> (r: [Tech; 15])
        ensures
            r@ == Tech::all_seq(),
    {
        [Tech::CentauriEcology, Tech::SocialPsych, Tech::ProgenitorPsych, Tech::FieldModulation, Tech::PlanetaryNetworks, Tech::SecretsOfTheHumanBrain, Tech::GeneSplicing, Tech::IndustrialBase, Tech::DoctrineMobility, Tech::InformationNetworks, Tech::Biogenetics, Tech::SecretsOfPlanet, Tech::OrbitalMechanics, Tech::AdvancedFieldTheory, Tech::SingularityPhysics]
    }

    /// The tech that a display name names, if any.
    pub open spec fn parse_content_name(s: Seq<char>) -> Option<Tech> {
        if s == "Centauri Ecology"@ {
            Some(Tech::CentauriEcology)
        } else if s == "Social Psych"@ {
            Some(Tech::SocialPsych)
        } else if s == "Progenitor Psych"@ {
            Some(Tech::ProgenitorPsych)
        } else if s == "Field Modulation"@ {
            Some(Tech::FieldModulation)
        } else if s == "Planetary Networks"@ {
            Some(Tech::PlanetaryNetworks)
        } else if s == "Secrets of the Human Brain"@ {
            Some(Tech::SecretsOfTheHumanBrain)
        } else if s == "Gene Splicing"@ {
            Some(Tech::GeneSplicing)
        } else if s == "Industrial Base"@ {
            Some(Tech::IndustrialBase)
        } else if s == "Doctrine: Mobility"@ {
            Some(Tech::DoctrineMobility)
        } else if s == "Information Networks"@ {
            Some(Tech::InformationNetworks)
        } else if s == "Biogenetics"@ {
            Some(Tech::Biogenetics)
        } else if s == "Secrets of Planet"@ {
            Some(Tech::SecretsOfPlanet)
        } else if s == "Orbital Mechanics"@ {
            Some(Tech::OrbitalMechanics)
        } else if s == "Advanced Field Theory"@ {
            Some(Tech::AdvancedFieldTheory)
        } else if s == "Singularity Physics"@ {
            Some(Tech::SingularityPhysics)
        } else {
            None
        }
    }

    pub fn from_content_name(value: &str) -> (r: Option<Tech>)
        ensures
            r == Tech::parse_content_name(value@),
    {
        if text_eq(value, "Centauri Ecology") {
            return Some(Tech::CentauriEcology);
        }
        if text_eq(value, "Social Psych") {
            return Some(Tech::SocialPsych);
        }
        if text_eq(value, "Progenitor Psych") {
            return Some(Tech::ProgenitorPsych);
        }
        if text_eq(value, "Field Modulation") {
            return Some(Tech::FieldModulation);
        }
        if text_eq(value, "Planetary Networks") {
            return Some(Tech::PlanetaryNetworks);
        }
        if text_eq(value, "Secrets of the Human Brain") {
            return Some(Tech::SecretsOfTheHumanBrain);
        }
        if text_eq(value, "Gene Splicing") {
            return Some(Tech::GeneSplicing);
        }
        if text_eq(value, "Industrial Base") {
            return Some(Tech::IndustrialBase);
        }
        if text_eq(value, "Doctrine: Mobility") {
            return Some(Tech::DoctrineMobility);
        }
        if text_eq(value, "Information Networks") {
            return Some(Tech::InformationNetworks);
        }
        if text_eq(value, "Biogenetics") {
            return Some(Tech::Biogenetics);
        }
        if text_eq(value, "Secrets of Planet") {
            return Some(Tech::SecretsOfPlanet);
        }
        if text_eq(value, "Orbital Mechanics") {
            return Some(Tech::OrbitalMechanics);
        }
        if text_eq(value, "Advanced Field Theory") {
            return Some(Tech::AdvancedFieldTheory);
        }
        if text_eq(value, "Singularity Physics") {
            return Some(Tech::SingularityPhysics);
        }
        None
    }
}

#[derive(Clone, Copy, Debug, Default, PartialEq, Eq, Structural)]
pub enum GovernorMode {
    #[default]
    Off,
    Balanced,
    Recovery,
    Defense,
    Economy,
    Logistics,
    MachinePolity,
}

#[derive(Clone, Copy, Debug, PartialEq, Eq, Structural)]
pub enum BaseAreaRole {
    RearArea,
    Frontier,
    PsiFrontier,
    Warzone,
}

impl GovernorMode {

    /// Every governor mode, in declaration order.
    pub open spec fn all_seq() -> Seq<GovernorMode> {
        seq![GovernorMode::Off, GovernorMode::Balanced, GovernorMode::Recovery, GovernorMode::Defense, GovernorMode::Economy, GovernorMode::Logistics, GovernorMode::MachinePolity]
    }

    pub fn all() -> (r: [GovernorMode; 7])
        ensures
            r@ == GovernorMode::all_seq(),
    {
        [GovernorMode::Off, GovernorMode::Balanced, GovernorMode::Recovery, GovernorMode::Defense, GovernorMode::Economy, GovernorMode::Logistics, GovernorMode::MachinePolity]
    }
}
#[derive(Clone, Debug)]
pub struct Base {
    pub id: usize,
    pub owner: usize,
    pub name: String,
    pub x: usize,
    pub y: usize,
    pub population: i32,
    pub nutrients_stock: i32,
    pub minerals_stock: i32,
    pub production: ProductionItem,
    pub production_queue: Vec<ProductionItem>,
    pub facilities: Vec<Facility>,
    pub governor_mode: GovernorMode,
}

#[derive(Clone, Copy, Debug, Default, PartialEq, Eq, PartialOrd, Ord, Structural)]
pub enum ConvoyRouteKind {
    #[default]
    Trade,
    Freight,
    MilitarySupply,
}

#[derive(Clone, Copy, Debug, PartialEq, Eq, Structural)]
pub struct ConvoyRoute {
    pub base_a_id: usize,
    pub base_b_id: usize,
    pub kind: ConvoyRouteKind,
    pub integrity: u8,
}

/// The integrity a convoy route starts with when none is recorded.
pub fn default_convoy_integrity() -> (r: u8)
    ensures
        r == 3,
{
    3
}

#[derive(Clone, Debug, PartialEq, Eq)]
pub struct ConvoyRouteSummary {
    pub base_a_id: usize,
    pub base_b_id: usize,
    pub base_a_name: String,
    pub base_b_name: String,
    pub kind: ConvoyRouteKind,
    pub disrupted: bool,
    pub intercepted: bool,
    pub integrity: u8,
    pub protected: bool,
}

#[derive(Clone, Debug, Default, PartialEq, Eq)]
pub struct FactionAttributes {
    pub growth: i32,
    pub industry: i32,
    pub economy: i32,
    pub efficiency: i32,
    pub support: i32,
    pub morale: i32,
    pub police: i32,
    pub research: i32,
    pub probe: i32,
    pub planet: i32,
    pub free_facilities: Vec<Facility>,
    pub facility_equivalents: Vec<Facility>,
}

#[derive(Clone, Copy, Debug, Default, PartialEq, Eq, Structural)]
pub enum Politics {
    #[default]
    Frontier,
    Police,
    Democratic,
    Fundamentalist,
}

#[derive(Clone, Copy, Debug, Default, PartialEq, Eq, Structural)]
pub enum Economics {
    #[default]
    Simple,
    FreeMarket,
    Planned,
    Green,
}

#[derive(Clone, Copy, Debug, Default, PartialEq, Eq, Structural)]
pub enum Values {
    #[default]
    Survival,
    Wealth,
    Knowledge,
    Power,
}

#[derive(Clone, Copy, Debug, Default, PartialEq, Eq, Structural)]
pub enum FutureSociety {
    #[default]
    Undecided,
    Cybernetic,
    ThoughtControl,
    Eudaimonic,
}

#[derive(Clone, Copy, Debug, Default, PartialEq, Eq, Structural)]
pub struct SocialEngineering {
    pub politics: Politics,
    pub economics: Economics,
    pub values: Values,
    pub future: FutureSociety,
}

/// The ten numeric faction attributes, used to speak of them one at a time.
#[derive(Clone, Copy, Debug, PartialEq, Eq, Structural)]
pub enum AttributeKind {
    Growth,
    Industry,
    Economy,
    Efficiency,
    Support,
    Morale,
    Police,
    Research,
    Probe,
    Planet,
}

impl FactionAttributes {
    /// The value of one numeric attribute.
    pub open spec fn attribute(self, k: AttributeKind) -> int {
        match k {
            AttributeKind::Growth => self.growth as int,
            AttributeKind::Industry => self.industry as int,
            AttributeKind::Economy => self.economy as int,
            AttributeKind::Efficiency => self.efficiency as int,
            AttributeKind::Support => self.support as int,
            AttributeKind::Morale => self.morale as int,
            AttributeKind::Police => self.police as int,
            AttributeKind::Research => self.research as int,
            AttributeKind::Probe => self.probe as int,
            AttributeKind::Planet => self.planet as int,
        }
    }
}

/// What a political choice adds to an attribute.
pub open spec fn politics_shift(p: Politics, k: AttributeKind) -> int {
    match (p, k) {
        (Politics::Police, AttributeKind::Support) => 2,
        (Politics::Police, AttributeKind::Police) => 2,
        (Politics::Police, AttributeKind::Efficiency) => -2,
        (Politics::Democratic, AttributeKind::Growth) => 2,
        (Politics::Democratic, AttributeKind::Efficiency) => 2,
        (Politics::Democratic, AttributeKind::Support) => -2,
        (Politics::Fundamentalist, AttributeKind::Morale) => 2,
        (Politics::Fundamentalist, AttributeKind::Probe) => 2,
        (Politics::Fundamentalist, AttributeKind::Research) => -2,
        _ => 0,
    }
}

/// What an economic choice adds to an attribute.
pub open spec fn economics_shift(e: Economics, k: AttributeKind) -> int {
    match (e, k) {
        (Economics::FreeMarket, AttributeKind::Economy) => 2,
        (Economics::FreeMarket, AttributeKind::Efficiency) => 2,
        (Economics::FreeMarket, AttributeKind::Planet) => -2,
        (Economics::Planned, AttributeKind::Industry) => 1,
        (Economics::Planned, AttributeKind::Growth) => 1,
        (Economics::Planned, AttributeKind::Efficiency) => -2,
        (Economics::Green, AttributeKind::Efficiency) => 2,
        (Economics::Green, AttributeKind::Planet) => 1,
        (Economics::Green, AttributeKind::Growth) => -2,
        _ => 0,
    }
}

/// What a choice of values adds to an attribute.
pub open spec fn values_shift(v: Values, k: AttributeKind) -> int {
    match (v, k) {
        (Values::Wealth, AttributeKind::Economy) => 1,
        (Values::Wealth, AttributeKind::Industry) => 1,
        (Values::Wealth, AttributeKind::Morale) => -1,
        (Values::Knowledge, AttributeKind::Research) => 2,
        (Values::Knowledge, AttributeKind::Efficiency) => 1,
        (Values::Knowledge, AttributeKind::Probe) => -1,
        (Values::Power, AttributeKind::Morale) => 2,
        (Values::Power, AttributeKind::Support) => 1,
        (Values::Power, AttributeKind::Industry) => -1,
        _ => 0,
    }
}

/// What a future society adds to an attribute.
pub open spec fn future_shift(f: FutureSociety, k: AttributeKind) -> int {
    match (f, k) {
        (FutureSociety::Cybernetic, AttributeKind::Efficiency) => 2,
        (FutureSociety::Cybernetic, AttributeKind::Research) => 2,
        (FutureSociety::Cybernetic, AttributeKind::Planet) => 1,
        (FutureSociety::Cybernetic, AttributeKind::Police) => -1,
        (FutureSociety::ThoughtControl, AttributeKind::Police) => 2,
        (FutureSociety::ThoughtControl, AttributeKind::Morale) => 2,
        (FutureSociety::ThoughtControl, AttributeKind::Probe) => 2,
        (FutureSociety::ThoughtControl, AttributeKind::Research) => -1,
        (FutureSociety::Eudaimonic, AttributeKind::Economy) => 2,
        (FutureSociety::Eudaimonic, AttributeKind::Efficiency) => 2,
        (FutureSociety::Eudaimonic, AttributeKind::Growth) => 2,
        (FutureSociety::Eudaimonic, AttributeKind::Industry) => -1,
        _ => 0,
    }
}

/// Whether `v` stays within `i32` as the four shifts are added in turn.
pub open spec fn shifts_fit(v: int, a: int, b: int, c: int, d: int) -> bool {
    &&& i32::MIN <= v + a <= i32::MAX
    &&& i32::MIN <= v + a + b <= i32::MAX
    &&& i32::MIN <= v + a + b + c <= i32::MAX
    &&& i32::MIN <= v + a + b + c + d <= i32::MAX
}

/// Whether applying the social choices `se` to `base` stays within `i32` at every step.
pub open spec fn social_shifts_fit(base: FactionAttributes, se: SocialEngineering) -> bool {
    forall|k: AttributeKind|
        shifts_fit(
            #[trigger] base.attribute(k),
            politics_shift(se.politics, k),
            economics_shift(se.economics, k),
            values_shift(se.values, k),
            future_shift(se.future, k),
        )
}

/// The total that the social choices `se` add to attribute `k`.
pub open spec fn social_shift(se: SocialEngineering, k: AttributeKind) -> int {
    politics_shift(se.politics, k) + economics_shift(se.economics, k) + values_shift(
        se.values,
        k,
    ) + future_shift(se.future, k)
}

/// With the default social choices (frontier politics, simple economics, survival
/// values, no future society) nothing shifts, so `effective_attributes` gives the
/// faction's base attributes.
pub proof fn law_default_society_shifts_nothing(k: AttributeKind)
    ensures
        social_shift(
            SocialEngineering {
                politics: Politics::Frontier,
                economics: Economics::Simple,
                values: Values::Survival,
                future: FutureSociety::Undecided,
            },
            k,
        ) == 0,
{
}

#[derive(Clone, Debug, Default, PartialEq, Eq)]
pub struct FactionPersonality {
    pub aggression: i32,
    pub tech_bias: i32,
    pub diplomatic_tone: i32,
    pub expansion_bias: i32,
}

#[derive(Clone, Debug, PartialEq, Eq)]
pub enum AlertPriority {
    Critical,
    High,
    Medium,
}

#[derive(Clone, Debug, PartialEq, Eq)]
pub struct ActionableAlert {
    pub priority: AlertPriority,
    pub message: String,
    pub location: Option<(usize, usize)>,
    pub base_id: Option<usize>,
    pub unit_id: Option<usize>,
}

#[derive(Clone, Debug, PartialEq, Eq, Default)]
pub struct TurnSummary {
    pub turn: i32,
    pub alerts: Vec<ActionableAlert>,
    pub event_highlights: Vec<String>,
}

#[derive(Clone, Debug)]
pub struct Faction {
    pub id: usize,
    pub name: String,
    pub energy: i32,
    pub research: i32,
    pub techs_discovered: i32,
    pub is_ai: bool,
    pub known_techs: Vec<Tech>,
    pub current_research: Tech,
    pub unit_designs: Vec<UnitDesign>,
    pub food_security: i32,
    pub ai_dependence: i32,
    pub orbital_index: i32,
    pub sky_hydroponics: i32,
    pub solar_transmitters: i32,
    pub orbital_defenses: i32,
    pub planet_toxicity: i32,
    pub base_attributes: FactionAttributes,
    pub social_engineering: SocialEngineering,
    pub personality: FactionPersonality,
    pub headquarters_base_id: Option<usize>,
}

impl Faction {
    /// The faction's attributes once its social choices are applied.
    pub fn effective_attributes(&self) -> (r: FactionAttributes)
        requires
            social_shifts_fit(self.base_attributes, self.social_engineering),
        ensures
            forall|k: AttributeKind|
                #[trigger] r.attribute(k) == self.base_attributes.attribute(k) + social_shift(
                    self.social_engineering,
                    k,
                ),
            r.free_facilities@ == self.base_attributes.free_facilities@,
            r.facility_equivalents@ == self.base_attributes.facility_equivalents@,
    {
        let b = &self.base_attributes;
        let se = self.social_engineering;
        let mut total = FactionAttributes {
            growth: b.growth,
            industry: b.industry,
            economy: b.economy,
            efficiency: b.efficiency,
            support: b.support,
            morale: b.morale,
            police: b.police,
            research: b.research,
            probe: b.probe,
            planet: b.planet,
            free_facilities: copy_facilities(&b.free_facilities),
            facility_equivalents: copy_facilities(&b.facility_equivalents),
        };
        assert(forall|k: AttributeKind| #[trigger] total.attribute(k) == b.attribute(k));
        apply_politics(&mut total, se.politics);
        apply_economics(&mut total, se.economics);
        apply_values(&mut total, se.values);
        apply_future(&mut total, se.future);
        total
    }
}


/// Adds a political choice's shifts to `total`.
fn apply_politics(total: &mut FactionAttributes, p: Politics)
    requires
        forall|k: AttributeKind|
            i32::MIN <= #[trigger] old(total).attribute(k) + politics_shift(p, k) <= i32::MAX,
    ensures
        forall|k: AttributeKind|
            #[trigger] final(total).attribute(k) == old(total).attribute(k) + politics_shift(p, k),
        final(total).free_facilities == old(total).free_facilities,
        final(total).facility_equivalents == old(total).facility_equivalents,
{
    proof {
        assert(i32::MIN <= old(total).attribute(AttributeKind::Support) + politics_shift(p, AttributeKind::Support) <= i32::MAX);
        assert(i32::MIN <= old(total).attribute(AttributeKind::Police) + politics_shift(p, AttributeKind::Police) <= i32::MAX);
        assert(i32::MIN <= old(total).attribute(AttributeKind::Efficiency) + politics_shift(p, AttributeKind::Efficiency) <= i32::MAX);
        assert(i32::MIN <= old(total).attribute(AttributeKind::Growth) + politics_shift(p, AttributeKind::Growth) <= i32::MAX);
        assert(i32::MIN <= old(total).attribute(AttributeKind::Morale) + politics_shift(p, AttributeKind::Morale) <= i32::MAX);
        assert(i32::MIN <= old(total).attribute(AttributeKind::Probe) + politics_shift(p, AttributeKind::Probe) <= i32::MAX);
        assert(i32::MIN <= old(total).attribute(AttributeKind::Research) + politics_shift(p, AttributeKind::Research) <= i32::MAX);
    }
    match p {
        Politics::Frontier => {},
        Politics::Police => {
            total.support = total.support + 2;
            total.police = total.police + 2;
            total.efficiency = total.efficiency - 2;
        },
        Politics::Democratic => {
            total.growth = total.growth + 2;
            total.efficiency = total.efficiency + 2;
            total.support = total.support - 2;
        },
        Politics::Fundamentalist => {
            total.morale = total.morale + 2;
            total.probe = total.probe + 2;
            total.research = total.research - 2;
        },
    }
}

/// Adds an economic choice's shifts to `total`.
fn apply_economics(total: &mut FactionAttributes, e: Economics)
    requires
        forall|k: AttributeKind|
            i32::MIN <= #[trigger] old(total).attribute(k) + economics_shift(e, k) <= i32::MAX,
    ensures
        forall|k: AttributeKind|
            #[trigger] final(total).attribute(k) == old(total).attribute(k) + economics_shift(e, k),
        final(total).free_facilities == old(total).free_facilities,
        final(total).facility_equivalents == old(total).facility_equivalents,
{
    proof {
        assert(i32::MIN <= old(total).attribute(AttributeKind::Economy) + economics_shift(e, AttributeKind::Economy) <= i32::MAX);
        assert(i32::MIN <= old(total).attribute(AttributeKind::Efficiency) + economics_shift(e, AttributeKind::Efficiency) <= i32::MAX);
        assert(i32::MIN <= old(total).attribute(AttributeKind::Planet) + economics_shift(e, AttributeKind::Planet) <= i32::MAX);
        assert(i32::MIN <= old(total).attribute(AttributeKind::Industry) + economics_shift(e, AttributeKind::Industry) <= i32::MAX);
        assert(i32::MIN <= old(total).attribute(AttributeKind::Growth) + economics_shift(e, AttributeKind::Growth) <= i32::MAX);
    }
    match e {
        Economics::Simple => {},
        Economics::FreeMarket => {
            total.economy = total.economy + 2;
            total.efficiency = total.efficiency + 2;
            total.planet = total.planet - 2;
        },
        Economics::Planned => {
            total.industry = total.industry + 1;
            total.growth = total.growth + 1;
            total.efficiency = total.efficiency - 2;
        },
        Economics::Green => {
            total.efficiency = total.efficiency + 2;
            total.planet = total.planet + 1;
            total.growth = total.growth - 2;
        },
    }
}

/// Adds a choice of values' shifts to `total`.
fn apply_values(total: &mut FactionAttributes, v: Values)
    requires
        forall|k: AttributeKind|
            i32::MIN <= #[trigger] old(total).attribute(k) + values_shift(v, k) <= i32::MAX,
    ensures
        forall|k: AttributeKind|
            #[trigger] final(total).attribute(k) == old(total).attribute(k) + values_shift(v, k),
        final(total).free_facilities == old(total).free_facilities,
        final(total).facility_equivalents == old(total).facility_equivalents,
{
    proof {
        assert(i32::MIN <= old(total).attribute(AttributeKind::Economy) + values_shift(v, AttributeKind::Economy) <= i32::MAX);
        assert(i32::MIN <= old(total).attribute(AttributeKind::Industry) + values_shift(v, AttributeKind::Industry) <= i32::MAX);
        assert(i32::MIN <= old(total).attribute(AttributeKind::Morale) + values_shift(v, AttributeKind::Morale) <= i32::MAX);
        assert(i32::MIN <= old(total).attribute(AttributeKind::Research) + values_shift(v, AttributeKind::Research) <= i32::MAX);
        assert(i32::MIN <= old(total).attribute(AttributeKind::Efficiency) + values_shift(v, AttributeKind::Efficiency) <= i32::MAX);
        assert(i32::MIN <= old(total).attribute(AttributeKind::Probe) + values_shift(v, AttributeKind::Probe) <= i32::MAX);
        assert(i32::MIN <= old(total).attribute(AttributeKind::Support) + values_shift(v, AttributeKind::Support) <= i32::MAX);
    }
    match v {
        Values::Survival => {},
        Values::Wealth => {
            total.economy = total.economy + 1;
            total.industry = total.industry + 1;
            total.morale = total.morale - 1;
        },
        Values::Knowledge => {
            total.research = total.research + 2;
            total.efficiency = total.efficiency + 1;
            total.probe = total.probe - 1;
        },
        Values::Power => {
            total.morale = total.morale + 2;
            total.support = total.support + 1;
            total.industry = total.industry - 1;
        },
    }
}

/// Adds a future society's shifts to `total`.
fn apply_future(total: &mut FactionAttributes, f: FutureSociety)
    requires
        forall|k: AttributeKind|
            i32::MIN <= #[trigger] old(total).attribute(k) + future_shift(f, k) <= i32::MAX,
    ensures
        forall|k: AttributeKind|
            #[trigger] final(total).attribute(k) == old(total).attribute(k) + future_shift(f, k),
        final(total).free_facilities == old(total).free_facilities,
        final(total).facility_equivalents == old(total).facility_equivalents,
{
    proof {
        assert(i32::MIN <= old(total).attribute(AttributeKind::Efficiency) + future_shift(f, AttributeKind::Efficiency) <= i32::MAX);
        assert(i32::MIN <= old(total).attribute(AttributeKind::Research) + future_shift(f, AttributeKind::Research) <= i32::MAX);
        assert(i32::MIN <= old(total).attribute(AttributeKind::Planet) + future_shift(f, AttributeKind::Planet) <= i32::MAX);
        assert(i32::MIN <= old(total).attribute(AttributeKind::Police) + future_shift(f, AttributeKind::Police) <= i32::MAX);
        assert(i32::MIN <= old(total).attribute(AttributeKind::Morale) + future_shift(f, AttributeKind::Morale) <= i32::MAX);
        assert(i32::MIN <= old(total).attribute(AttributeKind::Probe) + future_shift(f, AttributeKind::Probe) <= i32::MAX);
        assert(i32::MIN <= old(total).attribute(AttributeKind::Economy) + future_shift(f, AttributeKind::Economy) <= i32::MAX);
        assert(i32::MIN <= old(total).attribute(AttributeKind::Growth) + future_shift(f, AttributeKind::Growth) <= i32::MAX);
        assert(i32::MIN <= old(total).attribute(AttributeKind::Industry) + future_shift(f, AttributeKind::Industry) <= i32::MAX);
    }
    match f {
        FutureSociety::Undecided => {},
        FutureSociety::Cybernetic => {
            total.efficiency = total.efficiency + 2;
            total.research = total.research + 2;
            total.planet = total.planet + 1;
            total.police = total.police - 1;
        },
        FutureSociety::ThoughtControl => {
            total.police = total.police + 2;
            total.morale = total.morale + 2;
            total.probe = total.probe + 2;
            total.research = total.research - 1;
        },
        FutureSociety::Eudaimonic => {
            total.economy = total.economy + 2;
            total.efficiency = total.efficiency + 2;
            total.growth = total.growth + 2;
            total.industry = total.industry - 1;
        },
    }
}

/// A copy of a list of facilities.
fn copy_facilities(v: &Vec<Facility>) -> (r: Vec<Facility>)
    ensures
        r@ == v@,
{
    let mut r: Vec<Facility> = Vec::new();
    let mut i: usize = 0;
    while i < v.len()
        invariant
            i <= v.len(),
            r@ == v@.take(i as int),
        decreases v.len() - i,
    {
        r.push(v[i]);
        i = i + 1;
        assert(r@ =~= v@.take(i as int));
    }
    assert(v@.take(v.len() as int) =~= v@);
    r
}

#[derive(Clone, Copy, Debug, PartialEq, Eq, Structural)]
pub enum GameOver {
    PlayerWonConquest,
    PlayerWonEconomic,
    PlayerWonTranscendence,
    PlayerWonSpaceTranscendence,
    PlayerWonBlackHoleHarvesting,
    AiWonConquest,
    AiWonEconomic,
    AiWonTranscendence,
    AiWonSpaceTranscendence,
    AiWonBlackHoleHarvesting,
    DiplomaticVictory,
    CouncilGovernorElected,
    PlanetUnited,
    PlayerLost,
}

#[derive(Clone, Copy, Debug, PartialEq, Eq, Structural)]
pub enum DiplomacyStatus {
    War,
    Truce,
    Treaty,
    Pact,
}

#[derive(Clone, Debug)]
pub struct DiplomaticRelation {
    pub status: DiplomacyStatus,
    /// From -100 to 100.
    pub attitude: i32,
}

impl Default for DiplomaticRelation {
    /// Factions start at truce, with neutral attitude, until they meet.
    fn default() -> (r: Self)
        ensures
            r.status == DiplomacyStatus::Truce,
            r.attitude == 0,
    {
        DiplomaticRelation { status: DiplomacyStatus::Truce, attitude: 0 }
    }
}

#[derive(Clone, Debug, PartialEq, Eq)]
pub enum EventCategory {
    General,
    Crisis,
    SecretProject,
    Diplomacy,
    Economics,
    Narrative,
}

#[derive(Clone, Debug, PartialEq, Eq)]
pub struct EventLogEntry {
    pub category: EventCategory,
    pub message: String,
    pub turn: i32,
}

#[derive(Clone, Debug, Default, PartialEq, Eq)]
pub struct CommandCenterTurnTrace {
    pub turn: i32,
    pub owner: usize,
    pub base_id: usize,
    pub base_name: String,
    pub post_production_stock: i32,
    pub post_interdiction_stock: i32,
    pub upkeep_drain: i32,
    pub upkeep_order_index: Option<usize>,
    pub end_stock: i32,
}

#[derive(Clone, Debug)]
pub struct CouncilVote {
    pub faction_id: usize,
    pub candidate_id: usize,
    pub weight: i32,
}

#[derive(Clone, Debug, Default)]
pub struct CouncilState {
    pub is_active: bool,
    pub governor_id: Option<usize>,
    pub last_meeting_turn: i32,
    pub pending_votes: Vec<CouncilVote>,
}

#[derive(Clone, Debug, PartialEq, Eq)]
pub enum ProbeAction {
    StealTech,
    SabotageFacility,
    SubvertUnit,
}

#[derive(Clone, Debug, PartialEq, Eq)]
pub enum DemandKind {
    Technology(Tech),
    Energy(i32),
}

#[derive(Clone, Debug, PartialEq, Eq)]
pub enum GameAction {
    MoveUnit { unit_id: usize, target_x: usize, target_y: usize },
    FoundBase { unit_id: usize },
    BuildImprovement { unit_id: usize, improvement: Improvement },
    SetBaseProduction { base_id: usize, item: ProductionItem },
    QueueBaseProduction { base_id: usize, item: ProductionItem },
    ChooseResearch { owner: usize, tech: Tech },
    DesignUnit { owner: usize, design: UnitDesign },
    UpdateDiplomacy { faction_a: usize, faction_b: usize, status: DiplomacyStatus },
    ProposeDiplomacy { proposer: usize, receiver: usize, status: DiplomacyStatus },
    RespondDiplomacy { proposer: usize, receiver: usize, status: DiplomacyStatus, accept: bool },
    ProposeTechTrade { proposer: usize, receiver: usize, offered_tech: Tech, requested_tech: Tech },
    RespondTechTrade {
        proposer: usize,
        receiver: usize,
        offered_tech: Tech,
        requested_tech: Tech,
        accept: bool,
    },
    MakeDemand { proposer: usize, receiver: usize, demand: DemandKind },
    RespondDemand { proposer: usize, receiver: usize, demand: DemandKind, accept: bool },
    LoadUnit { unit_id: usize, transport_id: usize },
    UnloadUnit { unit_id: usize, transport_id: usize, target_x: usize, target_y: usize },
    SetUnitActivity { unit_id: usize, activity: UnitActivity },
    RushBuild { base_id: usize },
    UpgradeUnit { unit_id: usize, new_design: UnitDesign },
    CallCouncil,
    VoteForGovernor { voter_id: usize, candidate_id: usize },
    VoteForSupremeLeader { voter_id: usize, candidate_id: usize },
    ChooseSocialEngineering {
        owner: usize,
        politics: Option<Politics>,
        economics: Option<Economics>,
        values: Option<Values>,
        future: Option<FutureSociety>,
    },
    PerformProbeAction { unit_id: usize, target_x: usize, target_y: usize, action: ProbeAction },
    EndTurn,
}

/// An improvement is read back from its content identifier, and only from it.
pub proof fn lemma_improvement_content_id_round_trip(x: Improvement)
    ensures
        Improvement::parse_content_id(x.content_id_text()) == Some(x),
        forall|s: Seq<char>| Improvement::parse_content_id(s) == Some(x) ==> s == x.content_id_text(),
{
    reveal_strlit("farm");
    assert("farm"@[0] == 'f' && "farm"@[1] == 'a' && "farm"@[2] == 'r' && "farm"@[3] == 'm');
    reveal_strlit("mine");
    assert("mine"@[0] == 'm' && "mine"@[1] == 'i' && "mine"@[2] == 'n' && "mine"@[3] == 'e');
    reveal_strlit("solar_collector");
    assert("solar_collector"@[0] == 's' && "solar_collector"@[1] == 'o' && "solar_collector"@[2] == 'l' && "solar_collector"@[3] == 'a' && "solar_collector"@[4] == 'r' && "solar_collector"@[5] == '_' && "solar_collector"@[6] == 'c' && "solar_collector"@[7] == 'o' && "solar_collector"@[8] == 'l' && "solar_collector"@[9] == 'l' && "solar_collector"@[10] == 'e' && "solar_collector"@[11] == 'c' && "solar_collector"@[12] == 't' && "solar_collector"@[13] == 'o' && "solar_collector"@[14] == 'r');
    reveal_strlit("road");
    assert("road"@[0] == 'r' && "road"@[1] == 'o' && "road"@[2] == 'a' && "road"@[3] == 'd');
    reveal_strlit("condenser");
    assert("condenser"@[0] == 'c' && "condenser"@[1] == 'o' && "condenser"@[2] == 'n' && "condenser"@[3] == 'd' && "condenser"@[4] == 'e' && "condenser"@[5] == 'n' && "condenser"@[6] == 's' && "condenser"@[7] == 'e' && "condenser"@[8] == 'r');
    reveal_strlit("echelon_mirror");
    assert("echelon_mirror"@[0] == 'e' && "echelon_mirror"@[1] == 'c' && "echelon_mirror"@[2] == 'h' && "echelon_mirror"@[3] == 'e' && "echelon_mirror"@[4] == 'l' && "echelon_mirror"@[5] == 'o' && "echelon_mirror"@[6] == 'n' && "echelon_mirror"@[7] == '_' && "echelon_mirror"@[8] == 'm' && "echelon_mirror"@[9] == 'i' && "echelon_mirror"@[10] == 'r' && "echelon_mirror"@[11] == 'r' && "echelon_mirror"@[12] == 'o' && "echelon_mirror"@[13] == 'r');
    reveal_strlit("forest");
    assert("forest"@[0] == 'f' && "forest"@[1] == 'o' && "forest"@[2] == 'r' && "forest"@[3] == 'e' && "forest"@[4] == 's' && "forest"@[5] == 't');
    reveal_strlit("thermal_borehole");
    assert("thermal_borehole"@[0] == 't' && "thermal_borehole"@[1] == 'h' && "thermal_borehole"@[2] == 'e' && "thermal_borehole"@[3] == 'r' && "thermal_borehole"@[4] == 'm' && "thermal_borehole"@[5] == 'a' && "thermal_borehole"@[6] == 'l' && "thermal_borehole"@[7] == '_' && "thermal_borehole"@[8] == 'b' && "thermal_borehole"@[9] == 'o' && "thermal_borehole"@[10] == 'r' && "thermal_borehole"@[11] == 'e' && "thermal_borehole"@[12] == 'h' && "thermal_borehole"@[13] == 'o' && "thermal_borehole"@[14] == 'l' && "thermal_borehole"@[15] == 'e');
}

/// A built-in unit kind is read back from its content identifier, and only from it.
pub proof fn lemma_unit_kind_content_id_round_trip(x: UnitKind)
    requires
        !(x is CustomUnit),
    ensures
        UnitKind::parse_content_id(x.content_id_text()) == Some(x),
        forall|s: Seq<char>| UnitKind::parse_content_id(s) == Some(x) ==> s == x.content_id_text(),
{
    reveal_strlit("colony_pod");
    assert("colony_pod"@[0] == 'c' && "colony_pod"@[1] == 'o' && "colony_pod"@[2] == 'l' && "colony_pod"@[3] == 'o' && "colony_pod"@[4] == 'n' && "colony_pod"@[5] == 'y' && "colony_pod"@[6] == '_' && "colony_pod"@[7] == 'p' && "colony_pod"@[8] == 'o' && "colony_pod"@[9] == 'd');
    reveal_strlit("sea_colony_pod");
    assert("sea_colony_pod"@[0] == 's' && "sea_colony_pod"@[1] == 'e' && "sea_colony_pod"@[2] == 'a' && "sea_colony_pod"@[3] == '_' && "sea_colony_pod"@[4] == 'c' && "sea_colony_pod"@[5] == 'o' && "sea_colony_pod"@[6] == 'l' && "sea_colony_pod"@[7] == 'o' && "sea_colony_pod"@[8] == 'n' && "sea_colony_pod"@[9] == 'y' && "sea_colony_pod"@[10] == '_' && "sea_colony_pod"@[11] == 'p' && "sea_colony_pod"@[12] == 'o' && "sea_colony_pod"@[13] == 'd');
    reveal_strlit("scout_patrol");
    assert("scout_patrol"@[0] == 's' && "scout_patrol"@[1] == 'c' && "scout_patrol"@[2] == 'o' && "scout_patrol"@[3] == 'u' && "scout_patrol"@[4] == 't' && "scout_patrol"@[5] == '_' && "scout_patrol"@[6] == 'p' && "scout_patrol"@[7] == 'a' && "scout_patrol"@[8] == 't' && "scout_patrol"@[9] == 'r' && "scout_patrol"@[10] == 'o' && "scout_patrol"@[11] == 'l');
    reveal_strlit("former");
    assert("former"@[0] == 'f' && "former"@[1] == 'o' && "former"@[2] == 'r' && "former"@[3] == 'm' && "former"@[4] == 'e' && "former"@[5] == 'r');
    reveal_strlit("speeder");
    assert("speeder"@[0] == 's' && "speeder"@[1] == 'p' && "speeder"@[2] == 'e' && "speeder"@[3] == 'e' && "speeder"@[4] == 'd' && "speeder"@[5] == 'e' && "speeder"@[6] == 'r');
    reveal_strlit("resonance_laser");
    assert("resonance_laser"@[0] == 'r' && "resonance_laser"@[1] == 'e' && "resonance_laser"@[2] == 's' && "resonance_laser"@[3] == 'o' && "resonance_laser"@[4] == 'n' && "resonance_laser"@[5] == 'a' && "resonance_laser"@[6] == 'n' && "resonance_laser"@[7] == 'c' && "resonance_laser"@[8] == 'e' && "resonance_laser"@[9] == '_' && "resonance_laser"@[10] == 'l' && "resonance_laser"@[11] == 'a' && "resonance_laser"@[12] == 's' && "resonance_laser"@[13] == 'e' && "resonance_laser"@[14] == 'r');
    reveal_strlit("escort_speeder");
    assert("escort_speeder"@[0] == 'e' && "escort_speeder"@[1] == 's' && "escort_speeder"@[2] == 'c' && "escort_speeder"@[3] == 'o' && "escort_speeder"@[4] == 'r' && "escort_speeder"@[5] == 't' && "escort_speeder"@[6] == '_' && "escort_speeder"@[7] == 's' && "escort_speeder"@[8] == 'p' && "escort_speeder"@[9] == 'e' && "escort_speeder"@[10] == 'e' && "escort_speeder"@[11] == 'd' && "escort_speeder"@[12] == 'e' && "escort_speeder"@[13] == 'r');
    reveal_strlit("raider_speeder");
    assert("raider_speeder"@[0] == 'r' && "raider_speeder"@[1] == 'a' && "raider_speeder"@[2] == 'i' && "raider_speeder"@[3] == 'd' && "raider_speeder"@[4] == 'e' && "raider_speeder"@[5] == 'r' && "raider_speeder"@[6] == '_' && "raider_speeder"@[7] == 's' && "raider_speeder"@[8] == 'p' && "raider_speeder"@[9] == 'e' && "raider_speeder"@[10] == 'e' && "raider_speeder"@[11] == 'd' && "raider_speeder"@[12] == 'e' && "raider_speeder"@[13] == 'r');
    reveal_strlit("trance_scout");
    assert("trance_scout"@[0] == 't' && "trance_scout"@[1] == 'r' && "trance_scout"@[2] == 'a' && "trance_scout"@[3] == 'n' && "trance_scout"@[4] == 'c' && "trance_scout"@[5] == 'e' && "trance_scout"@[6] == '_' && "trance_scout"@[7] == 's' && "trance_scout"@[8] == 'c' && "trance_scout"@[9] == 'o' && "trance_scout"@[10] == 'u' && "trance_scout"@[11] == 't');
    reveal_strlit("garrison_guard");
    assert("garrison_guard"@[0] == 'g' && "garrison_guard"@[1] == 'a' && "garrison_guard"@[2] == 'r' && "garrison_guard"@[3] == 'r' && "garrison_guard"@[4] == 'i' && "garrison_guard"@[5] == 's' && "garrison_guard"@[6] == 'o' && "garrison_guard"@[7] == 'n' && "garrison_guard"@[8] == '_' && "garrison_guard"@[9] == 'g' && "garrison_guard"@[10] == 'u' && "garrison_guard"@[11] == 'a' && "garrison_guard"@[12] == 'r' && "garrison_guard"@[13] == 'd');
    reveal_strlit("psi_sentinel");
    assert("psi_sentinel"@[0] == 'p' && "psi_sentinel"@[1] == 's' && "psi_sentinel"@[2] == 'i' && "psi_sentinel"@[3] == '_' && "psi_sentinel"@[4] == 's' && "psi_sentinel"@[5] == 'e' && "psi_sentinel"@[6] == 'n' && "psi_sentinel"@[7] == 't' && "psi_sentinel"@[8] == 'i' && "psi_sentinel"@[9] == 'n' && "psi_sentinel"@[10] == 'e' && "psi_sentinel"@[11] == 'l');
    reveal_strlit("mind_worm");
    assert("mind_worm"@[0] == 'm' && "mind_worm"@[1] == 'i' && "mind_worm"@[2] == 'n' && "mind_worm"@[3] == 'd' && "mind_worm"@[4] == '_' && "mind_worm"@[5] == 'w' && "mind_worm"@[6] == 'o' && "mind_worm"@[7] == 'r' && "mind_worm"@[8] == 'm');
    reveal_strlit("isle_of_the_deep");
    assert("isle_of_the_deep"@[0] == 'i' && "isle_of_the_deep"@[1] == 's' && "isle_of_the_deep"@[2] == 'l' && "isle_of_the_deep"@[3] == 'e' && "isle_of_the_deep"@[4] == '_' && "isle_of_the_deep"@[5] == 'o' && "isle_of_the_deep"@[6] == 'f' && "isle_of_the_deep"@[7] == '_' && "isle_of_the_deep"@[8] == 't' && "isle_of_the_deep"@[9] == 'h' && "isle_of_the_deep"@[10] == 'e' && "isle_of_the_deep"@[11] == '_' && "isle_of_the_deep"@[12] == 'd' && "isle_of_the_deep"@[13] == 'e' && "isle_of_the_deep"@[14] == 'e' && "isle_of_the_deep"@[15] == 'p');
    reveal_strlit("needlejet");
    assert("needlejet"@[0] == 'n' && "needlejet"@[1] == 'e' && "needlejet"@[2] == 'e' && "needlejet"@[3] == 'd' && "needlejet"@[4] == 'l' && "needlejet"@[5] == 'e' && "needlejet"@[6] == 'j' && "needlejet"@[7] == 'e' && "needlejet"@[8] == 't');
    reveal_strlit("probe_team");
    assert("probe_team"@[0] == 'p' && "probe_team"@[1] == 'r' && "probe_team"@[2] == 'o' && "probe_team"@[3] == 'b' && "probe_team"@[4] == 'e' && "probe_team"@[5] == '_' && "probe_team"@[6] == 't' && "probe_team"@[7] == 'e' && "probe_team"@[8] == 'a' && "probe_team"@[9] == 'm');
    reveal_strlit("sea_transport");
    assert("sea_transport"@[0] == 's' && "sea_transport"@[1] == 'e' && "sea_transport"@[2] == 'a' && "sea_transport"@[3] == '_' && "sea_transport"@[4] == 't' && "sea_transport"@[5] == 'r' && "sea_transport"@[6] == 'a' && "sea_transport"@[7] == 'n' && "sea_transport"@[8] == 's' && "sea_transport"@[9] == 'p' && "sea_transport"@[10] == 'o' && "sea_transport"@[11] == 'r' && "sea_transport"@[12] == 't');
    reveal_strlit("custom_unit");
    assert("custom_unit"@[0] == 'c' && "custom_unit"@[1] == 'u' && "custom_unit"@[2] == 's' && "custom_unit"@[3] == 't' && "custom_unit"@[4] == 'o' && "custom_unit"@[5] == 'm' && "custom_unit"@[6] == '_' && "custom_unit"@[7] == 'u' && "custom_unit"@[8] == 'n' && "custom_unit"@[9] == 'i' && "custom_unit"@[10] == 't');
}

/// A production item other than a custom unit is read back from its content identifier, and only from it.
pub proof fn lemma_production_item_content_id_round_trip(x: ProductionItem)
    requires
        !(x is CustomUnit),
    ensures
        ProductionItem::parse_content_id(x.content_id_text()) == Some(x),
        forall|s: Seq<char>| ProductionItem::parse_content_id(s) == Some(x) ==> s == x.content_id_text(),
{
    reveal_strlit("scout_patrol");
    assert("scout_patrol"@[0] == 's' && "scout_patrol"@[1] == 'c' && "scout_patrol"@[2] == 'o' && "scout_patrol"@[3] == 'u' && "scout_patrol"@[4] == 't' && "scout_patrol"@[5] == '_' && "scout_patrol"@[6] == 'p' && "scout_patrol"@[7] == 'a' && "scout_patrol"@[8] == 't' && "scout_patrol"@[9] == 'r' && "scout_patrol"@[10] == 'o' && "scout_patrol"@[11] == 'l');
    reveal_strlit("colony_pod");
    assert("colony_pod"@[0] == 'c' && "colony_pod"@[1] == 'o' && "colony_pod"@[2] == 'l' && "colony_pod"@[3] == 'o' && "colony_pod"@[4] == 'n' && "colony_pod"@[5] == 'y' && "colony_pod"@[6] == '_' && "colony_pod"@[7] == 'p' && "colony_pod"@[8] == 'o' && "colony_pod"@[9] == 'd');
    reveal_strlit("sea_colony_pod");
    assert("sea_colony_pod"@[0] == 's' && "sea_colony_pod"@[1] == 'e' && "sea_colony_pod"@[2] == 'a' && "sea_colony_pod"@[3] == '_' && "sea_colony_pod"@[4] == 'c' && "sea_colony_pod"@[5] == 'o' && "sea_colony_pod"@[6] == 'l' && "sea_colony_pod"@[7] == 'o' && "sea_colony_pod"@[8] == 'n' && "sea_colony_pod"@[9] == 'y' && "sea_colony_pod"@[10] == '_' && "sea_colony_pod"@[11] == 'p' && "sea_colony_pod"@[12] == 'o' && "sea_colony_pod"@[13] == 'd');
    reveal_strlit("former");
    assert("former"@[0] == 'f' && "former"@[1] == 'o' && "former"@[2] == 'r' && "former"@[3] == 'm' && "former"@[4] == 'e' && "former"@[5] == 'r');
    reveal_strlit("speeder");
    assert("speeder"@[0] == 's' && "speeder"@[1] == 'p' && "speeder"@[2] == 'e' && "speeder"@[3] == 'e' && "speeder"@[4] == 'd' && "speeder"@[5] == 'e' && "speeder"@[6] == 'r');
    reveal_strlit("resonance_laser");
    assert("resonance_laser"@[0] == 'r' && "resonance_laser"@[1] == 'e' && "resonance_laser"@[2] == 's' && "resonance_laser"@[3] == 'o' && "resonance_laser"@[4] == 'n' && "resonance_laser"@[5] == 'a' && "resonance_laser"@[6] == 'n' && "resonance_laser"@[7] == 'c' && "resonance_laser"@[8] == 'e' && "resonance_laser"@[9] == '_' && "resonance_laser"@[10] == 'l' && "resonance_laser"@[11] == 'a' && "resonance_laser"@[12] == 's' && "resonance_laser"@[13] == 'e' && "resonance_laser"@[14] == 'r');
    reveal_strlit("escort_speeder");
    assert("escort_speeder"@[0] == 'e' && "escort_speeder"@[1] == 's' && "escort_speeder"@[2] == 'c' && "escort_speeder"@[3] == 'o' && "escort_speeder"@[4] == 'r' && "escort_speeder"@[5] == 't' && "escort_speeder"@[6] == '_' && "escort_speeder"@[7] == 's' && "escort_speeder"@[8] == 'p' && "escort_speeder"@[9] == 'e' && "escort_speeder"@[10] == 'e' && "escort_speeder"@[11] == 'd' && "escort_speeder"@[12] == 'e' && "escort_speeder"@[13] == 'r');
    reveal_strlit("raider_speeder");
    assert("raider_speeder"@[0] == 'r' && "raider_speeder"@[1] == 'a' && "raider_speeder"@[2] == 'i' && "raider_speeder"@[3] == 'd' && "raider_speeder"@[4] == 'e' && "raider_speeder"@[5] == 'r' && "raider_speeder"@[6] == '_' && "raider_speeder"@[7] == 's' && "raider_speeder"@[8] == 'p' && "raider_speeder"@[9] == 'e' && "raider_speeder"@[10] == 'e' && "raider_speeder"@[11] == 'd' && "raider_speeder"@[12] == 'e' && "raider_speeder"@[13] == 'r');
    reveal_strlit("trance_scout");
    assert("trance_scout"@[0] == 't' && "trance_scout"@[1] == 'r' && "trance_scout"@[2] == 'a' && "trance_scout"@[3] == 'n' && "trance_scout"@[4] == 'c' && "trance_scout"@[5] == 'e' && "trance_scout"@[6] == '_' && "trance_scout"@[7] == 's' && "trance_scout"@[8] == 'c' && "trance_scout"@[9] == 'o' && "trance_scout"@[10] == 'u' && "trance_scout"@[11] == 't');
    reveal_strlit("garrison_guard");
    assert("garrison_guard"@[0] == 'g' && "garrison_guard"@[1] == 'a' && "garrison_guard"@[2] == 'r' && "garrison_guard"@[3] == 'r' && "garrison_guard"@[4] == 'i' && "garrison_guard"@[5] == 's' && "garrison_guard"@[6] == 'o' && "garrison_guard"@[7] == 'n' && "garrison_guard"@[8] == '_' && "garrison_guard"@[9] == 'g' && "garrison_guard"@[10] == 'u' && "garrison_guard"@[11] == 'a' && "garrison_guard"@[12] == 'r' && "garrison_guard"@[13] == 'd');
    reveal_strlit("psi_sentinel");
    assert("psi_sentinel"@[0] == 'p' && "psi_sentinel"@[1] == 's' && "psi_sentinel"@[2] == 'i' && "psi_sentinel"@[3] == '_' && "psi_sentinel"@[4] == 's' && "psi_sentinel"@[5] == 'e' && "psi_sentinel"@[6] == 'n' && "psi_sentinel"@[7] == 't' && "psi_sentinel"@[8] == 'i' && "psi_sentinel"@[9] == 'n' && "psi_sentinel"@[10] == 'e' && "psi_sentinel"@[11] == 'l');
    reveal_strlit("recycling_tanks");
    assert("recycling_tanks"@[0] == 'r' && "recycling_tanks"@[1] == 'e' && "recycling_tanks"@[2] == 'c' && "recycling_tanks"@[3] == 'y' && "recycling_tanks"@[4] == 'c' && "recycling_tanks"@[5] == 'l' && "recycling_tanks"@[6] == 'i' && "recycling_tanks"@[7] == 'n' && "recycling_tanks"@[8] == 'g' && "recycling_tanks"@[9] == '_' && "recycling_tanks"@[10] == 't' && "recycling_tanks"@[11] == 'a' && "recycling_tanks"@[12] == 'n' && "recycling_tanks"@[13] == 'k' && "recycling_tanks"@[14] == 's');
    reveal_strlit("perimeter_defense");
    assert("perimeter_defense"@[0] == 'p' && "perimeter_defense"@[1] == 'e' && "perimeter_defense"@[2] == 'r' && "perimeter_defense"@[3] == 'i' && "perimeter_defense"@[4] == 'm' && "perimeter_defense"@[5] == 'e' && "perimeter_defense"@[6] == 't' && "perimeter_defense"@[7] == 'e' && "perimeter_defense"@[8] == 'r' && "perimeter_defense"@[9] == '_' && "perimeter_defense"@[10] == 'd' && "perimeter_defense"@[11] == 'e' && "perimeter_defense"@[12] == 'f' && "perimeter_defense"@[13] == 'e' && "perimeter_defense"@[14] == 'n' && "perimeter_defense"@[15] == 's' && "perimeter_defense"@[16] == 'e');
    reveal_strlit("network_node");
    assert("network_node"@[0] == 'n' && "network_node"@[1] == 'e' && "network_node"@[2] == 't' && "network_node"@[3] == 'w' && "network_node"@[4] == 'o' && "network_node"@[5] == 'r' && "network_node"@[6] == 'k' && "network_node"@[7] == '_' && "network_node"@[8] == 'n' && "network_node"@[9] == 'o' && "network_node"@[10] == 'd' && "network_node"@[11] == 'e');
    reveal_strlit("recreation_commons");
    assert("recreation_commons"@[0] == 'r' && "recreation_commons"@[1] == 'e' && "recreation_commons"@[2] == 'c' && "recreation_commons"@[3] == 'r' && "recreation_commons"@[4] == 'e' && "recreation_commons"@[5] == 'a' && "recreation_commons"@[6] == 't' && "recreation_commons"@[7] == 'i' && "recreation_commons"@[8] == 'o' && "recreation_commons"@[9] == 'n' && "recreation_commons"@[10] == '_' && "recreation_commons"@[11] == 'c' && "recreation_commons"@[12] == 'o' && "recreation_commons"@[13] == 'm' && "recreation_commons"@[14] == 'm' && "recreation_commons"@[15] == 'o' && "recreation_commons"@[16] == 'n' && "recreation_commons"@[17] == 's');
    reveal_strlit("greenhouse");
    assert("greenhouse"@[0] == 'g' && "greenhouse"@[1] == 'r' && "greenhouse"@[2] == 'e' && "greenhouse"@[3] == 'e' && "greenhouse"@[4] == 'n' && "greenhouse"@[5] == 'h' && "greenhouse"@[6] == 'o' && "greenhouse"@[7] == 'u' && "greenhouse"@[8] == 's' && "greenhouse"@[9] == 'e');
    reveal_strlit("mineral_refinery");
    assert("mineral_refinery"@[0] == 'm' && "mineral_refinery"@[1] == 'i' && "mineral_refinery"@[2] == 'n' && "mineral_refinery"@[3] == 'e' && "mineral_refinery"@[4] == 'r' && "mineral_refinery"@[5] == 'a' && "mineral_refinery"@[6] == 'l' && "mineral_refinery"@[7] == '_' && "mineral_refinery"@[8] == 'r' && "mineral_refinery"@[9] == 'e' && "mineral_refinery"@[10] == 'f' && "mineral_refinery"@[11] == 'i' && "mineral_refinery"@[12] == 'n' && "mineral_refinery"@[13] == 'e' && "mineral_refinery"@[14] == 'r' && "mineral_refinery"@[15] == 'y');
    reveal_strlit("trade_exchange");
    assert("trade_exchange"@[0] == 't' && "trade_exchange"@[1] == 'r' && "trade_exchange"@[2] == 'a' && "trade_exchange"@[3] == 'd' && "trade_exchange"@[4] == 'e' && "trade_exchange"@[5] == '_' && "trade_exchange"@[6] == 'e' && "trade_exchange"@[7] == 'x' && "trade_exchange"@[8] == 'c' && "trade_exchange"@[9] == 'h' && "trade_exchange"@[10] == 'a' && "trade_exchange"@[11] == 'n' && "trade_exchange"@[12] == 'g' && "trade_exchange"@[13] == 'e');
    reveal_strlit("freight_depot");
    assert("freight_depot"@[0] == 'f' && "freight_depot"@[1] == 'r' && "freight_depot"@[2] == 'e' && "freight_depot"@[3] == 'i' && "freight_depot"@[4] == 'g' && "freight_depot"@[5] == 'h' && "freight_depot"@[6] == 't' && "freight_depot"@[7] == '_' && "freight_depot"@[8] == 'd' && "freight_depot"@[9] == 'e' && "freight_depot"@[10] == 'p' && "freight_depot"@[11] == 'o' && "freight_depot"@[12] == 't');
    reveal_strlit("patrol_grid");
    assert("patrol_grid"@[0] == 'p' && "patrol_grid"@[1] == 'a' && "patrol_grid"@[2] == 't' && "patrol_grid"@[3] == 'r' && "patrol_grid"@[4] == 'o' && "patrol_grid"@[5] == 'l' && "patrol_grid"@[6] == '_' && "patrol_grid"@[7] == 'g' && "patrol_grid"@[8] == 'r' && "patrol_grid"@[9] == 'i' && "patrol_grid"@[10] == 'd');
    reveal_strlit("command_center");
    assert("command_center"@[0] == 'c' && "command_center"@[1] == 'o' && "command_center"@[2] == 'm' && "command_center"@[3] == 'm' && "command_center"@[4] == 'a' && "command_center"@[5] == 'n' && "command_center"@[6] == 'd' && "command_center"@[7] == '_' && "command_center"@[8] == 'c' && "command_center"@[9] == 'e' && "command_center"@[10] == 'n' && "command_center"@[11] == 't' && "command_center"@[12] == 'e' && "command_center"@[13] == 'r');
    reveal_strlit("field_hospital");
    assert("field_hospital"@[0] == 'f' && "field_hospital"@[1] == 'i' && "field_hospital"@[2] == 'e' && "field_hospital"@[3] == 'l' && "field_hospital"@[4] == 'd' && "field_hospital"@[5] == '_' && "field_hospital"@[6] == 'h' && "field_hospital"@[7] == 'o' && "field_hospital"@[8] == 's' && "field_hospital"@[9] == 'p' && "field_hospital"@[10] == 'i' && "field_hospital"@[11] == 't' && "field_hospital"@[12] == 'a' && "field_hospital"@[13] == 'l');
    reveal_strlit("military_academy");
    assert("military_academy"@[0] == 'm' && "military_academy"@[1] == 'i' && "military_academy"@[2] == 'l' && "military_academy"@[3] == 'i' && "military_academy"@[4] == 't' && "military_academy"@[5] == 'a' && "military_academy"@[6] == 'r' && "military_academy"@[7] == 'y' && "military_academy"@[8] == '_' && "military_academy"@[9] == 'a' && "military_academy"@[10] == 'c' && "military_academy"@[11] == 'a' && "military_academy"@[12] == 'd' && "military_academy"@[13] == 'e' && "military_academy"@[14] == 'm' && "military_academy"@[15] == 'y');
    reveal_strlit("sensor_array");
    assert("sensor_array"@[0] == 's' && "sensor_array"@[1] == 'e' && "sensor_array"@[2] == 'n' && "sensor_array"@[3] == 's' && "sensor_array"@[4] == 'o' && "sensor_array"@[5] == 'r' && "sensor_array"@[6] == '_' && "sensor_array"@[7] == 'a' && "sensor_array"@[8] == 'r' && "sensor_array"@[9] == 'r' && "sensor_array"@[10] == 'a' && "sensor_array"@[11] == 'y');
    reveal_strlit("transit_hub");
    assert("transit_hub"@[0] == 't' && "transit_hub"@[1] == 'r' && "transit_hub"@[2] == 'a' && "transit_hub"@[3] == 'n' && "transit_hub"@[4] == 's' && "transit_hub"@[5] == 'i' && "transit_hub"@[6] == 't' && "transit_hub"@[7] == '_' && "transit_hub"@[8] == 'h' && "transit_hub"@[9] == 'u' && "transit_hub"@[10] == 'b');
    reveal_strlit("psi_beacon");
    assert("psi_beacon"@[0] == 'p' && "psi_beacon"@[1] == 's' && "psi_beacon"@[2] == 'i' && "psi_beacon"@[3] == '_' && "psi_beacon"@[4] == 'b' && "psi_beacon"@[5] == 'e' && "psi_beacon"@[6] == 'a' && "psi_beacon"@[7] == 'c' && "psi_beacon"@[8] == 'o' && "psi_beacon"@[9] == 'n');
    reveal_strlit("forward_depot");
    assert("forward_depot"@[0] == 'f' && "forward_depot"@[1] == 'o' && "forward_depot"@[2] == 'r' && "forward_depot"@[3] == 'w' && "forward_depot"@[4] == 'a' && "forward_depot"@[5] == 'r' && "forward_depot"@[6] == 'd' && "forward_depot"@[7] == '_' && "forward_depot"@[8] == 'd' && "forward_depot"@[9] == 'e' && "forward_depot"@[10] == 'p' && "forward_depot"@[11] == 'o' && "forward_depot"@[12] == 't');
    reveal_strlit("hologram_theatre");
    assert("hologram_theatre"@[0] == 'h' && "hologram_theatre"@[1] == 'o' && "hologram_theatre"@[2] == 'l' && "hologram_theatre"@[3] == 'o' && "hologram_theatre"@[4] == 'g' && "hologram_theatre"@[5] == 'r' && "hologram_theatre"@[6] == 'a' && "hologram_theatre"@[7] == 'm' && "hologram_theatre"@[8] == '_' && "hologram_theatre"@[9] == 't' && "hologram_theatre"@[10] == 'h' && "hologram_theatre"@[11] == 'e' && "hologram_theatre"@[12] == 'a' && "hologram_theatre"@[13] == 't' && "hologram_theatre"@[14] == 'r' && "hologram_theatre"@[15] == 'e');
    reveal_strlit("bioenhancement_center");
    assert("bioenhancement_center"@[0] == 'b' && "bioenhancement_center"@[1] == 'i' && "bioenhancement_center"@[2] == 'o' && "bioenhancement_center"@[3] == 'e' && "bioenhancement_center"@[4] == 'n' && "bioenhancement_center"@[5] == 'h' && "bioenhancement_center"@[6] == 'a' && "bioenhancement_center"@[7] == 'n' && "bioenhancement_center"@[8] == 'c' && "bioenhancement_center"@[9] == 'e' && "bioenhancement_center"@[10] == 'm' && "bioenhancement_center"@[11] == 'e' && "bioenhancement_center"@[12] == 'n' && "bioenhancement_center"@[13] == 't' && "bioenhancement_center"@[14] == '_' && "bioenhancement_center"@[15] == 'c' && "bioenhancement_center"@[16] == 'e' && "bioenhancement_center"@[17] == 'n' && "bioenhancement_center"@[18] == 't' && "bioenhancement_center"@[19] == 'e' && "bioenhancement_center"@[20] == 'r');
    reveal_strlit("research_hospital");
    assert("research_hospital"@[0] == 'r' && "research_hospital"@[1] == 'e' && "research_hospital"@[2] == 's' && "research_hospital"@[3] == 'e' && "research_hospital"@[4] == 'a' && "research_hospital"@[5] == 'r' && "research_hospital"@[6] == 'c' && "research_hospital"@[7] == 'h' && "research_hospital"@[8] == '_' && "research_hospital"@[9] == 'h' && "research_hospital"@[10] == 'o' && "research_hospital"@[11] == 's' && "research_hospital"@[12] == 'p' && "research_hospital"@[13] == 'i' && "research_hospital"@[14] == 't' && "research_hospital"@[15] == 'a' && "research_hospital"@[16] == 'l');
    reveal_strlit("weather_pattern");
    assert("weather_pattern"@[0] == 'w' && "weather_pattern"@[1] == 'e' && "weather_pattern"@[2] == 'a' && "weather_pattern"@[3] == 't' && "weather_pattern"@[4] == 'h' && "weather_pattern"@[5] == 'e' && "weather_pattern"@[6] == 'r' && "weather_pattern"@[7] == '_' && "weather_pattern"@[8] == 'p' && "weather_pattern"@[9] == 'a' && "weather_pattern"@[10] == 't' && "weather_pattern"@[11] == 't' && "weather_pattern"@[12] == 'e' && "weather_pattern"@[13] == 'r' && "weather_pattern"@[14] == 'n');
    reveal_strlit("clinical_immortality");
    assert("clinical_immortality"@[0] == 'c' && "clinical_immortality"@[1] == 'l' && "clinical_immortality"@[2] == 'i' && "clinical_immortality"@[3] == 'n' && "clinical_immortality"@[4] == 'i' && "clinical_immortality"@[5] == 'c' && "clinical_immortality"@[6] == 'a' && "clinical_immortality"@[7] == 'l' && "clinical_immortality"@[8] == '_' && "clinical_immortality"@[9] == 'i' && "clinical_immortality"@[10] == 'm' && "clinical_immortality"@[11] == 'm' && "clinical_immortality"@[12] == 'o' && "clinical_immortality"@[13] == 'r' && "clinical_immortality"@[14] == 't' && "clinical_immortality"@[15] == 'a' && "clinical_immortality"@[16] == 'l' && "clinical_immortality"@[17] == 'i' && "clinical_immortality"@[18] == 't' && "clinical_immortality"@[19] == 'y');
    reveal_strlit("empath_guild");
    assert("empath_guild"@[0] == 'e' && "empath_guild"@[1] == 'm' && "empath_guild"@[2] == 'p' && "empath_guild"@[3] == 'a' && "empath_guild"@[4] == 't' && "empath_guild"@[5] == 'h' && "empath_guild"@[6] == '_' && "empath_guild"@[7] == 'g' && "empath_guild"@[8] == 'u' && "empath_guild"@[9] == 'i' && "empath_guild"@[10] == 'l' && "empath_guild"@[11] == 'd');
    reveal_strlit("orbital_elevator");
    assert("orbital_elevator"@[0] == 'o' && "orbital_elevator"@[1] == 'r' && "orbital_elevator"@[2] == 'b' && "orbital_elevator"@[3] == 'i' && "orbital_elevator"@[4] == 't' && "orbital_elevator"@[5] == 'a' && "orbital_elevator"@[6] == 'l' && "orbital_elevator"@[7] == '_' && "orbital_elevator"@[8] == 'e' && "orbital_elevator"@[9] == 'l' && "orbital_elevator"@[10] == 'e' && "orbital_elevator"@[11] == 'v' && "orbital_elevator"@[12] == 'a' && "orbital_elevator"@[13] == 't' && "orbital_elevator"@[14] == 'o' && "orbital_elevator"@[15] == 'r');
    reveal_strlit("manifold_drive");
    assert("manifold_drive"@[0] == 'm' && "manifold_drive"@[1] == 'a' && "manifold_drive"@[2] == 'n' && "manifold_drive"@[3] == 'i' && "manifold_drive"@[4] == 'f' && "manifold_drive"@[5] == 'o' && "manifold_drive"@[6] == 'l' && "manifold_drive"@[7] == 'd' && "manifold_drive"@[8] == '_' && "manifold_drive"@[9] == 'd' && "manifold_drive"@[10] == 'r' && "manifold_drive"@[11] == 'i' && "manifold_drive"@[12] == 'v' && "manifold_drive"@[13] == 'e');
    reveal_strlit("singularity_containment");
    assert("singularity_containment"@[0] == 's' && "singularity_containment"@[1] == 'i' && "singularity_containment"@[2] == 'n' && "singularity_containment"@[3] == 'g' && "singularity_containment"@[4] == 'u' && "singularity_containment"@[5] == 'l' && "singularity_containment"@[6] == 'a' && "singularity_containment"@[7] == 'r' && "singularity_containment"@[8] == 'i' && "singularity_containment"@[9] == 't' && "singularity_containment"@[10] == 'y' && "singularity_containment"@[11] == '_' && "singularity_containment"@[12] == 'c' && "singularity_containment"@[13] == 'o' && "singularity_containment"@[14] == 'n' && "singularity_containment"@[15] == 't' && "singularity_containment"@[16] == 'a' && "singularity_containment"@[17] == 'i' && "singularity_containment"@[18] == 'n' && "singularity_containment"@[19] == 'm' && "singularity_containment"@[20] == 'e' && "singularity_containment"@[21] == 'n' && "singularity_containment"@[22] == 't');
    reveal_strlit("black_hole_harvester");
    assert("black_hole_harvester"@[0] == 'b' && "black_hole_harvester"@[1] == 'l' && "black_hole_harvester"@[2] == 'a' && "black_hole_harvester"@[3] == 'c' && "black_hole_harvester"@[4] == 'k' && "black_hole_harvester"@[5] == '_' && "black_hole_harvester"@[6] == 'h' && "black_hole_harvester"@[7] == 'o' && "black_hole_harvester"@[8] == 'l' && "black_hole_harvester"@[9] == 'e' && "black_hole_harvester"@[10] == '_' && "black_hole_harvester"@[11] == 'h' && "black_hole_harvester"@[12] == 'a' && "black_hole_harvester"@[13] == 'r' && "black_hole_harvester"@[14] == 'v' && "black_hole_harvester"@[15] == 'e' && "black_hole_harvester"@[16] == 's' && "black_hole_harvester"@[17] == 't' && "black_hole_harvester"@[18] == 'e' && "black_hole_harvester"@[19] == 'r');
    reveal_strlit("probe_team");
    assert("probe_team"@[0] == 'p' && "probe_team"@[1] == 'r' && "probe_team"@[2] == 'o' && "probe_team"@[3] == 'b' && "probe_team"@[4] == 'e' && "probe_team"@[5] == '_' && "probe_team"@[6] == 't' && "probe_team"@[7] == 'e' && "probe_team"@[8] == 'a' && "probe_team"@[9] == 'm');
    reveal_strlit("sea_transport");
    assert("sea_transport"@[0] == 's' && "sea_transport"@[1] == 'e' && "sea_transport"@[2] == 'a' && "sea_transport"@[3] == '_' && "sea_transport"@[4] == 't' && "sea_transport"@[5] == 'r' && "sea_transport"@[6] == 'a' && "sea_transport"@[7] == 'n' && "sea_transport"@[8] == 's' && "sea_transport"@[9] == 'p' && "sea_transport"@[10] == 'o' && "sea_transport"@[11] == 'r' && "sea_transport"@[12] == 't');
    reveal_strlit("custom_unit");
    assert("custom_unit"@[0] == 'c' && "custom_unit"@[1] == 'u' && "custom_unit"@[2] == 's' && "custom_unit"@[3] == 't' && "custom_unit"@[4] == 'o' && "custom_unit"@[5] == 'm' && "custom_unit"@[6] == '_' && "custom_unit"@[7] == 'u' && "custom_unit"@[8] == 'n' && "custom_unit"@[9] == 'i' && "custom_unit"@[10] == 't');
    reveal_strlit("stockpile_energy");
    assert("stockpile_energy"@[0] == 's' && "stockpile_energy"@[1] == 't' && "stockpile_energy"@[2] == 'o' && "stockpile_energy"@[3] == 'c' && "stockpile_energy"@[4] == 'k' && "stockpile_energy"@[5] == 'p' && "stockpile_energy"@[6] == 'i' && "stockpile_energy"@[7] == 'l' && "stockpile_energy"@[8] == 'e' && "stockpile_energy"@[9] == '_' && "stockpile_energy"@[10] == 'e' && "stockpile_energy"@[11] == 'n' && "stockpile_energy"@[12] == 'e' && "stockpile_energy"@[13] == 'r' && "stockpile_energy"@[14] == 'g' && "stockpile_energy"@[15] == 'y');
    reveal_strlit("sky_hydroponics");
    assert("sky_hydroponics"@[0] == 's' && "sky_hydroponics"@[1] == 'k' && "sky_hydroponics"@[2] == 'y' && "sky_hydroponics"@[3] == '_' && "sky_hydroponics"@[4] == 'h' && "sky_hydroponics"@[5] == 'y' && "sky_hydroponics"@[6] == 'd' && "sky_hydroponics"@[7] == 'r' && "sky_hydroponics"@[8] == 'o' && "sky_hydroponics"@[9] == 'p' && "sky_hydroponics"@[10] == 'o' && "sky_hydroponics"@[11] == 'n' && "sky_hydroponics"@[12] == 'i' && "sky_hydroponics"@[13] == 'c' && "sky_hydroponics"@[14] == 's');
    reveal_strlit("solar_transmitter");
    assert("solar_transmitter"@[0] == 's' && "solar_transmitter"@[1] == 'o' && "solar_transmitter"@[2] == 'l' && "solar_transmitter"@[3] == 'a' && "solar_transmitter"@[4] == 'r' && "solar_transmitter"@[5] == '_' && "solar_transmitter"@[6] == 't' && "solar_transmitter"@[7] == 'r' && "solar_transmitter"@[8] == 'a' && "solar_transmitter"@[9] == 'n' && "solar_transmitter"@[10] == 's' && "solar_transmitter"@[11] == 'm' && "solar_transmitter"@[12] == 'i' && "solar_transmitter"@[13] == 't' && "solar_transmitter"@[14] == 't' && "solar_transmitter"@[15] == 'e' && "solar_transmitter"@[16] == 'r');
    reveal_strlit("orbital_defense");
    assert("orbital_defense"@[0] == 'o' && "orbital_defense"@[1] == 'r' && "orbital_defense"@[2] == 'b' && "orbital_defense"@[3] == 'i' && "orbital_defense"@[4] == 't' && "orbital_defense"@[5] == 'a' && "orbital_defense"@[6] == 'l' && "orbital_defense"@[7] == '_' && "orbital_defense"@[8] == 'd' && "orbital_defense"@[9] == 'e' && "orbital_defense"@[10] == 'f' && "orbital_defense"@[11] == 'e' && "orbital_defense"@[12] == 'n' && "orbital_defense"@[13] == 's' && "orbital_defense"@[14] == 'e');
}

/// A secret project is read back from its content identifier, and only from it.
pub proof fn lemma_secret_project_content_id_round_trip(x: SecretProject)
    ensures
        SecretProject::parse_content_id(x.content_id_text()) == Some(x),
        forall|s: Seq<char>| SecretProject::parse_content_id(s) == Some(x) ==> s == x.content_id_text(),
{
    reveal_strlit("weather_pattern");
    assert("weather_pattern"@[0] == 'w' && "weather_pattern"@[1] == 'e' && "weather_pattern"@[2] == 'a' && "weather_pattern"@[3] == 't' && "weather_pattern"@[4] == 'h' && "weather_pattern"@[5] == 'e' && "weather_pattern"@[6] == 'r' && "weather_pattern"@[7] == '_' && "weather_pattern"@[8] == 'p' && "weather_pattern"@[9] == 'a' && "weather_pattern"@[10] == 't' && "weather_pattern"@[11] == 't' && "weather_pattern"@[12] == 'e' && "weather_pattern"@[13] == 'r' && "weather_pattern"@[14] == 'n');
    reveal_strlit("clinical_immortality");
    assert("clinical_immortality"@[0] == 'c' && "clinical_immortality"@[1] == 'l' && "clinical_immortality"@[2] == 'i' && "clinical_immortality"@[3] == 'n' && "clinical_immortality"@[4] == 'i' && "clinical_immortality"@[5] == 'c' && "clinical_immortality"@[6] == 'a' && "clinical_immortality"@[7] == 'l' && "clinical_immortality"@[8] == '_' && "clinical_immortality"@[9] == 'i' && "clinical_immortality"@[10] == 'm' && "clinical_immortality"@[11] == 'm' && "clinical_immortality"@[12] == 'o' && "clinical_immortality"@[13] == 'r' && "clinical_immortality"@[14] == 't' && "clinical_immortality"@[15] == 'a' && "clinical_immortality"@[16] == 'l' && "clinical_immortality"@[17] == 'i' && "clinical_immortality"@[18] == 't' && "clinical_immortality"@[19] == 'y');
    reveal_strlit("empath_guild");
    assert("empath_guild"@[0] == 'e' && "empath_guild"@[1] == 'm' && "empath_guild"@[2] == 'p' && "empath_guild"@[3] == 'a' && "empath_guild"@[4] == 't' && "empath_guild"@[5] == 'h' && "empath_guild"@[6] == '_' && "empath_guild"@[7] == 'g' && "empath_guild"@[8] == 'u' && "empath_guild"@[9] == 'i' && "empath_guild"@[10] == 'l' && "empath_guild"@[11] == 'd');
    reveal_strlit("orbital_elevator");
    assert("orbital_elevator"@[0] == 'o' && "orbital_elevator"@[1] == 'r' && "orbital_elevator"@[2] == 'b' && "orbital_elevator"@[3] == 'i' && "orbital_elevator"@[4] == 't' && "orbital_elevator"@[5] == 'a' && "orbital_elevator"@[6] == 'l' && "orbital_elevator"@[7] == '_' && "orbital_elevator"@[8] == 'e' && "orbital_elevator"@[9] == 'l' && "orbital_elevator"@[10] == 'e' && "orbital_elevator"@[11] == 'v' && "orbital_elevator"@[12] == 'a' && "orbital_elevator"@[13] == 't' && "orbital_elevator"@[14] == 'o' && "orbital_elevator"@[15] == 'r');
    reveal_strlit("manifold_drive");
    assert("manifold_drive"@[0] == 'm' && "manifold_drive"@[1] == 'a' && "manifold_drive"@[2] == 'n' && "manifold_drive"@[3] == 'i' && "manifold_drive"@[4] == 'f' && "manifold_drive"@[5] == 'o' && "manifold_drive"@[6] == 'l' && "manifold_drive"@[7] == 'd' && "manifold_drive"@[8] == '_' && "manifold_drive"@[9] == 'd' && "manifold_drive"@[10] == 'r' && "manifold_drive"@[11] == 'i' && "manifold_drive"@[12] == 'v' && "manifold_drive"@[13] == 'e');
    reveal_strlit("singularity_containment");
    assert("singularity_containment"@[0] == 's' && "singularity_containment"@[1] == 'i' && "singularity_containment"@[2] == 'n' && "singularity_containment"@[3] == 'g' && "singularity_containment"@[4] == 'u' && "singularity_containment"@[5] == 'l' && "singularity_containment"@[6] == 'a' && "singularity_containment"@[7] == 'r' && "singularity_containment"@[8] == 'i' && "singularity_containment"@[9] == 't' && "singularity_containment"@[10] == 'y' && "singularity_containment"@[11] == '_' && "singularity_containment"@[12] == 'c' && "singularity_containment"@[13] == 'o' && "singularity_containment"@[14] == 'n' && "singularity_containment"@[15] == 't' && "singularity_containment"@[16] == 'a' && "singularity_containment"@[17] == 'i' && "singularity_containment"@[18] == 'n' && "singularity_containment"@[19] == 'm' && "singularity_containment"@[20] == 'e' && "singularity_containment"@[21] == 'n' && "singularity_containment"@[22] == 't');
    reveal_strlit("black_hole_harvester");
    assert("black_hole_harvester"@[0] == 'b' && "black_hole_harvester"@[1] == 'l' && "black_hole_harvester"@[2] == 'a' && "black_hole_harvester"@[3] == 'c' && "black_hole_harvester"@[4] == 'k' && "black_hole_harvester"@[5] == '_' && "black_hole_harvester"@[6] == 'h' && "black_hole_harvester"@[7] == 'o' && "black_hole_harvester"@[8] == 'l' && "black_hole_harvester"@[9] == 'e' && "black_hole_harvester"@[10] == '_' && "black_hole_harvester"@[11] == 'h' && "black_hole_harvester"@[12] == 'a' && "black_hole_harvester"@[13] == 'r' && "black_hole_harvester"@[14] == 'v' && "black_hole_harvester"@[15] == 'e' && "black_hole_harvester"@[16] == 's' && "black_hole_harvester"@[17] == 't' && "black_hole_harvester"@[18] == 'e' && "black_hole_harvester"@[19] == 'r');
}

/// A facility is read back from its content identifier, and only from it.
pub proof fn lemma_facility_content_id_round_trip(x: Facility)
    ensures
        Facility::parse_content_id(x.content_id_text()) == Some(x),
        forall|s: Seq<char>| Facility::parse_content_id(s) == Some(x) ==> s == x.content_id_text(),
{
    reveal_strlit("recycling_tanks");
    assert("recycling_tanks"@[0] == 'r' && "recycling_tanks"@[1] == 'e' && "recycling_tanks"@[2] == 'c' && "recycling_tanks"@[3] == 'y' && "recycling_tanks"@[4] == 'c' && "recycling_tanks"@[5] == 'l' && "recycling_tanks"@[6] == 'i' && "recycling_tanks"@[7] == 'n' && "recycling_tanks"@[8] == 'g' && "recycling_tanks"@[9] == '_' && "recycling_tanks"@[10] == 't' && "recycling_tanks"@[11] == 'a' && "recycling_tanks"@[12] == 'n' && "recycling_tanks"@[13] == 'k' && "recycling_tanks"@[14] == 's');
    reveal_strlit("perimeter_defense");
    assert("perimeter_defense"@[0] == 'p' && "perimeter_defense"@[1] == 'e' && "perimeter_defense"@[2] == 'r' && "perimeter_defense"@[3] == 'i' && "perimeter_defense"@[4] == 'm' && "perimeter_defense"@[5] == 'e' && "perimeter_defense"@[6] == 't' && "perimeter_defense"@[7] == 'e' && "perimeter_defense"@[8] == 'r' && "perimeter_defense"@[9] == '_' && "perimeter_defense"@[10] == 'd' && "perimeter_defense"@[11] == 'e' && "perimeter_defense"@[12] == 'f' && "perimeter_defense"@[13] == 'e' && "perimeter_defense"@[14] == 'n' && "perimeter_defense"@[15] == 's' && "perimeter_defense"@[16] == 'e');
    reveal_strlit("network_node");
    assert("network_node"@[0] == 'n' && "network_node"@[1] == 'e' && "network_node"@[2] == 't' && "network_node"@[3] == 'w' && "network_node"@[4] == 'o' && "network_node"@[5] == 'r' && "network_node"@[6] == 'k' && "network_node"@[7] == '_' && "network_node"@[8] == 'n' && "network_node"@[9] == 'o' && "network_node"@[10] == 'd' && "network_node"@[11] == 'e');
    reveal_strlit("recreation_commons");
    assert("recreation_commons"@[0] == 'r' && "recreation_commons"@[1] == 'e' && "recreation_commons"@[2] == 'c' && "recreation_commons"@[3] == 'r' && "recreation_commons"@[4] == 'e' && "recreation_commons"@[5] == 'a' && "recreation_commons"@[6] == 't' && "recreation_commons"@[7] == 'i' && "recreation_commons"@[8] == 'o' && "recreation_commons"@[9] == 'n' && "recreation_commons"@[10] == '_' && "recreation_commons"@[11] == 'c' && "recreation_commons"@[12] == 'o' && "recreation_commons"@[13] == 'm' && "recreation_commons"@[14] == 'm' && "recreation_commons"@[15] == 'o' && "recreation_commons"@[16] == 'n' && "recreation_commons"@[17] == 's');
    reveal_strlit("greenhouse");
    assert("greenhouse"@[0] == 'g' && "greenhouse"@[1] == 'r' && "greenhouse"@[2] == 'e' && "greenhouse"@[3] == 'e' && "greenhouse"@[4] == 'n' && "greenhouse"@[5] == 'h' && "greenhouse"@[6] == 'o' && "greenhouse"@[7] == 'u' && "greenhouse"@[8] == 's' && "greenhouse"@[9] == 'e');
    reveal_strlit("mineral_refinery");
    assert("mineral_refinery"@[0] == 'm' && "mineral_refinery"@[1] == 'i' && "mineral_refinery"@[2] == 'n' && "mineral_refinery"@[3] == 'e' && "mineral_refinery"@[4] == 'r' && "mineral_refinery"@[5] == 'a' && "mineral_refinery"@[6] == 'l' && "mineral_refinery"@[7] == '_' && "mineral_refinery"@[8] == 'r' && "mineral_refinery"@[9] == 'e' && "mineral_refinery"@[10] == 'f' && "mineral_refinery"@[11] == 'i' && "mineral_refinery"@[12] == 'n' && "mineral_refinery"@[13] == 'e' && "mineral_refinery"@[14] == 'r' && "mineral_refinery"@[15] == 'y');
    reveal_strlit("trade_exchange");
    assert("trade_exchange"@[0] == 't' && "trade_exchange"@[1] == 'r' && "trade_exchange"@[2] == 'a' && "trade_exchange"@[3] == 'd' && "trade_exchange"@[4] == 'e' && "trade_exchange"@[5] == '_' && "trade_exchange"@[6] == 'e' && "trade_exchange"@[7] == 'x' && "trade_exchange"@[8] == 'c' && "trade_exchange"@[9] == 'h' && "trade_exchange"@[10] == 'a' && "trade_exchange"@[11] == 'n' && "trade_exchange"@[12] == 'g' && "trade_exchange"@[13] == 'e');
    reveal_strlit("freight_depot");
    assert("freight_depot"@[0] == 'f' && "freight_depot"@[1] == 'r' && "freight_depot"@[2] == 'e' && "freight_depot"@[3] == 'i' && "freight_depot"@[4] == 'g' && "freight_depot"@[5] == 'h' && "freight_depot"@[6] == 't' && "freight_depot"@[7] == '_' && "freight_depot"@[8] == 'd' && "freight_depot"@[9] == 'e' && "freight_depot"@[10] == 'p' && "freight_depot"@[11] == 'o' && "freight_depot"@[12] == 't');
    reveal_strlit("patrol_grid");
    assert("patrol_grid"@[0] == 'p' && "patrol_grid"@[1] == 'a' && "patrol_grid"@[2] == 't' && "patrol_grid"@[3] == 'r' && "patrol_grid"@[4] == 'o' && "patrol_grid"@[5] == 'l' && "patrol_grid"@[6] == '_' && "patrol_grid"@[7] == 'g' && "patrol_grid"@[8] == 'r' && "patrol_grid"@[9] == 'i' && "patrol_grid"@[10] == 'd');
    reveal_strlit("command_center");
    assert("command_center"@[0] == 'c' && "command_center"@[1] == 'o' && "command_center"@[2] == 'm' && "command_center"@[3] == 'm' && "command_center"@[4] == 'a' && "command_center"@[5] == 'n' && "command_center"@[6] == 'd' && "command_center"@[7] == '_' && "command_center"@[8] == 'c' && "command_center"@[9] == 'e' && "command_center"@[10] == 'n' && "command_center"@[11] == 't' && "command_center"@[12] == 'e' && "command_center"@[13] == 'r');
    reveal_strlit("field_hospital");
    assert("field_hospital"@[0] == 'f' && "field_hospital"@[1] == 'i' && "field_hospital"@[2] == 'e' && "field_hospital"@[3] == 'l' && "field_hospital"@[4] == 'd' && "field_hospital"@[5] == '_' && "field_hospital"@[6] == 'h' && "field_hospital"@[7] == 'o' && "field_hospital"@[8] == 's' && "field_hospital"@[9] == 'p' && "field_hospital"@[10] == 'i' && "field_hospital"@[11] == 't' && "field_hospital"@[12] == 'a' && "field_hospital"@[13] == 'l');
    reveal_strlit("military_academy");
    assert("military_academy"@[0] == 'm' && "military_academy"@[1] == 'i' && "military_academy"@[2] == 'l' && "military_academy"@[3] == 'i' && "military_academy"@[4] == 't' && "military_academy"@[5] == 'a' && "military_academy"@[6] == 'r' && "military_academy"@[7] == 'y' && "military_academy"@[8] == '_' && "military_academy"@[9] == 'a' && "military_academy"@[10] == 'c' && "military_academy"@[11] == 'a' && "military_academy"@[12] == 'd' && "military_academy"@[13] == 'e' && "military_academy"@[14] == 'm' && "military_academy"@[15] == 'y');
    reveal_strlit("sensor_array");
    assert("sensor_array"@[0] == 's' && "sensor_array"@[1] == 'e' && "sensor_array"@[2] == 'n' && "sensor_array"@[3] == 's' && "sensor_array"@[4] == 'o' && "sensor_array"@[5] == 'r' && "sensor_array"@[6] == '_' && "sensor_array"@[7] == 'a' && "sensor_array"@[8] == 'r' && "sensor_array"@[9] == 'r' && "sensor_array"@[10] == 'a' && "sensor_array"@[11] == 'y');
    reveal_strlit("transit_hub");
    assert("transit_hub"@[0] == 't' && "transit_hub"@[1] == 'r' && "transit_hub"@[2] == 'a' && "transit_hub"@[3] == 'n' && "transit_hub"@[4] == 's' && "transit_hub"@[5] == 'i' && "transit_hub"@[6] == 't' && "transit_hub"@[7] == '_' && "transit_hub"@[8] == 'h' && "transit_hub"@[9] == 'u' && "transit_hub"@[10] == 'b');
    reveal_strlit("psi_beacon");
    assert("psi_beacon"@[0] == 'p' && "psi_beacon"@[1] == 's' && "psi_beacon"@[2] == 'i' && "psi_beacon"@[3] == '_' && "psi_beacon"@[4] == 'b' && "psi_beacon"@[5] == 'e' && "psi_beacon"@[6] == 'a' && "psi_beacon"@[7] == 'c' && "psi_beacon"@[8] == 'o' && "psi_beacon"@[9] == 'n');
    reveal_strlit("forward_depot");
    assert("forward_depot"@[0] == 'f' && "forward_depot"@[1] == 'o' && "forward_depot"@[2] == 'r' && "forward_depot"@[3] == 'w' && "forward_depot"@[4] == 'a' && "forward_depot"@[5] == 'r' && "forward_depot"@[6] == 'd' && "forward_depot"@[7] == '_' && "forward_depot"@[8] == 'd' && "forward_depot"@[9] == 'e' && "forward_depot"@[10] == 'p' && "forward_depot"@[11] == 'o' && "forward_depot"@[12] == 't');
    reveal_strlit("hologram_theatre");
    assert("hologram_theatre"@[0] == 'h' && "hologram_theatre"@[1] == 'o' && "hologram_theatre"@[2] == 'l' && "hologram_theatre"@[3] == 'o' && "hologram_theatre"@[4] == 'g' && "hologram_theatre"@[5] == 'r' && "hologram_theatre"@[6] == 'a' && "hologram_theatre"@[7] == 'm' && "hologram_theatre"@[8] == '_' && "hologram_theatre"@[9] == 't' && "hologram_theatre"@[10] == 'h' && "hologram_theatre"@[11] == 'e' && "hologram_theatre"@[12] == 'a' && "hologram_theatre"@[13] == 't' && "hologram_theatre"@[14] == 'r' && "hologram_theatre"@[15] == 'e');
    reveal_strlit("bioenhancement_center");
    assert("bioenhancement_center"@[0] == 'b' && "bioenhancement_center"@[1] == 'i' && "bioenhancement_center"@[2] == 'o' && "bioenhancement_center"@[3] == 'e' && "bioenhancement_center"@[4] == 'n' && "bioenhancement_center"@[5] == 'h' && "bioenhancement_center"@[6] == 'a' && "bioenhancement_center"@[7] == 'n' && "bioenhancement_center"@[8] == 'c' && "bioenhancement_center"@[9] == 'e' && "bioenhancement_center"@[10] == 'm' && "bioenhancement_center"@[11] == 'e' && "bioenhancement_center"@[12] == 'n' && "bioenhancement_center"@[13] == 't' && "bioenhancement_center"@[14] == '_' && "bioenhancement_center"@[15] == 'c' && "bioenhancement_center"@[16] == 'e' && "bioenhancement_center"@[17] == 'n' && "bioenhancement_center"@[18] == 't' && "bioenhancement_center"@[19] == 'e' && "bioenhancement_center"@[20] == 'r');
    reveal_strlit("research_hospital");
    assert("research_hospital"@[0] == 'r' && "research_hospital"@[1] == 'e' && "research_hospital"@[2] == 's' && "research_hospital"@[3] == 'e' && "research_hospital"@[4] == 'a' && "research_hospital"@[5] == 'r' && "research_hospital"@[6] == 'c' && "research_hospital"@[7] == 'h' && "research_hospital"@[8] == '_' && "research_hospital"@[9] == 'h' && "research_hospital"@[10] == 'o' && "research_hospital"@[11] == 's' && "research_hospital"@[12] == 'p' && "research_hospital"@[13] == 'i' && "research_hospital"@[14] == 't' && "research_hospital"@[15] == 'a' && "research_hospital"@[16] == 'l');
}

/// A tech is read back from its content identifier, and only from it.
pub proof fn lemma_tech_content_id_round_trip(x: Tech)
    ensures
        Tech::parse_content_id(x.content_id_text()) == Some(x),
        forall|s: Seq<char>| Tech::parse_content_id(s) == Some(x) ==> s == x.content_id_text(),
{
    reveal_strlit("centauri_ecology");
    assert("centauri_ecology"@[0] == 'c' && "centauri_ecology"@[1] == 'e' && "centauri_ecology"@[2] == 'n' && "centauri_ecology"@[3] == 't' && "centauri_ecology"@[4] == 'a' && "centauri_ecology"@[5] == 'u' && "centauri_ecology"@[6] == 'r' && "centauri_ecology"@[7] == 'i' && "centauri_ecology"@[8] == '_' && "centauri_ecology"@[9] == 'e' && "centauri_ecology"@[10] == 'c' && "centauri_ecology"@[11] == 'o' && "centauri_ecology"@[12] == 'l' && "centauri_ecology"@[13] == 'o' && "centauri_ecology"@[14] == 'g' && "centauri_ecology"@[15] == 'y');
    reveal_strlit("social_psych");
    assert("social_psych"@[0] == 's' && "social_psych"@[1] == 'o' && "social_psych"@[2] == 'c' && "social_psych"@[3] == 'i' && "social_psych"@[4] == 'a' && "social_psych"@[5] == 'l' && "social_psych"@[6] == '_' && "social_psych"@[7] == 'p' && "social_psych"@[8] == 's' && "social_psych"@[9] == 'y' && "social_psych"@[10] == 'c' && "social_psych"@[11] == 'h');
    reveal_strlit("progenitor_psych");
    assert("progenitor_psych"@[0] == 'p' && "progenitor_psych"@[1] == 'r' && "progenitor_psych"@[2] == 'o' && "progenitor_psych"@[3] == 'g' && "progenitor_psych"@[4] == 'e' && "progenitor_psych"@[5] == 'n' && "progenitor_psych"@[6] == 'i' && "progenitor_psych"@[7] == 't' && "progenitor_psych"@[8] == 'o' && "progenitor_psych"@[9] == 'r' && "progenitor_psych"@[10] == '_' && "progenitor_psych"@[11] == 'p' && "progenitor_psych"@[12] == 's' && "progenitor_psych"@[13] == 'y' && "progenitor_psych"@[14] == 'c' && "progenitor_psych"@[15] == 'h');
    reveal_strlit("field_modulation");
    assert("field_modulation"@[0] == 'f' && "field_modulation"@[1] == 'i' && "field_modulation"@[2] == 'e' && "field_modulation"@[3] == 'l' && "field_modulation"@[4] == 'd' && "field_modulation"@[5] == '_' && "field_modulation"@[6] == 'm' && "field_modulation"@[7] == 'o' && "field_modulation"@[8] == 'd' && "field_modulation"@[9] == 'u' && "field_modulation"@[10] == 'l' && "field_modulation"@[11] == 'a' && "field_modulation"@[12] == 't' && "field_modulation"@[13] == 'i' && "field_modulation"@[14] == 'o' && "field_modulation"@[15] == 'n');
    reveal_strlit("planetary_networks");
    assert("planetary_networks"@[0] == 'p' && "planetary_networks"@[1] == 'l' && "planetary_networks"@[2] == 'a' && "planetary_networks"@[3] == 'n' && "planetary_networks"@[4] == 'e' && "planetary_networks"@[5] == 't' && "planetary_networks"@[6] == 'a' && "planetary_networks"@[7] == 'r' && "planetary_networks"@[8] == 'y' && "planetary_networks"@[9] == '_' && "planetary_networks"@[10] == 'n' && "planetary_networks"@[11] == 'e' && "planetary_networks"@[12] == 't' && "planetary_networks"@[13] == 'w' && "planetary_networks"@[14] == 'o' && "planetary_networks"@[15] == 'r' && "planetary_networks"@[16] == 'k' && "planetary_networks"@[17] == 's');
    reveal_strlit("secrets_of_the_human_brain");
    assert("secrets_of_the_human_brain"@[0] == 's' && "secrets_of_the_human_brain"@[1] == 'e' && "secrets_of_the_human_brain"@[2] == 'c' && "secrets_of_the_human_brain"@[3] == 'r' && "secrets_of_the_human_brain"@[4] == 'e' && "secrets_of_the_human_brain"@[5] == 't' && "secrets_of_the_human_brain"@[6] == 's' && "secrets_of_the_human_brain"@[7] == '_' && "secrets_of_the_human_brain"@[8] == 'o' && "secrets_of_the_human_brain"@[9] == 'f' && "secrets_of_the_human_brain"@[10] == '_' && "secrets_of_the_human_brain"@[11] == 't' && "secrets_of_the_human_brain"@[12] == 'h' && "secrets_of_the_human_brain"@[13] == 'e' && "secrets_of_the_human_brain"@[14] == '_' && "secrets_of_the_human_brain"@[15] == 'h' && "secrets_of_the_human_brain"@[16] == 'u' && "secrets_of_the_human_brain"@[17] == 'm' && "secrets_of_the_human_brain"@[18] == 'a' && "secrets_of_the_human_brain"@[19] == 'n' && "secrets_of_the_human_brain"@[20] == '_' && "secrets_of_the_human_brain"@[21] == 'b' && "secrets_of_the_human_brain"@[22] == 'r' && "secrets_of_the_human_brain"@[23] == 'a' && "secrets_of_the_human_brain"@[24] == 'i' && "secrets_of_the_human_brain"@[25] == 'n');
    reveal_strlit("gene_splicing");
    assert("gene_splicing"@[0] == 'g' && "gene_splicing"@[1] == 'e' && "gene_splicing"@[2] == 'n' && "gene_splicing"@[3] == 'e' && "gene_splicing"@[4] == '_' && "gene_splicing"@[5] == 's' && "gene_splicing"@[6] == 'p' && "gene_splicing"@[7] == 'l' && "gene_splicing"@[8] == 'i' && "gene_splicing"@[9] == 'c' && "gene_splicing"@[10] == 'i' && "gene_splicing"@[11] == 'n' && "gene_splicing"@[12] == 'g');
    reveal_strlit("industrial_base");
    assert("industrial_base"@[0] == 'i' && "industrial_base"@[1] == 'n' && "industrial_base"@[2] == 'd' && "industrial_base"@[3] == 'u' && "industrial_base"@[4] == 's' && "industrial_base"@[5] == 't' && "industrial_base"@[6] == 'r' && "industrial_base"@[7] == 'i' && "industrial_base"@[8] == 'a' && "industrial_base"@[9] == 'l' && "industrial_base"@[10] == '_' && "industrial_base"@[11] == 'b' && "industrial_base"@[12] == 'a' && "industrial_base"@[13] == 's' && "industrial_base"@[14] == 'e');
    reveal_strlit("doctrine_mobility");
    assert("doctrine_mobility"@[0] == 'd' && "doctrine_mobility"@[1] == 'o' && "doctrine_mobility"@[2] == 'c' && "doctrine_mobility"@[3] == 't' && "doctrine_mobility"@[4] == 'r' && "doctrine_mobility"@[5] == 'i' && "doctrine_mobility"@[6] == 'n' && "doctrine_mobility"@[7] == 'e' && "doctrine_mobility"@[8] == '_' && "doctrine_mobility"@[9] == 'm' && "doctrine_mobility"@[10] == 'o' && "doctrine_mobility"@[11] == 'b' && "doctrine_mobility"@[12] == 'i' && "doctrine_mobility"@[13] == 'l' && "doctrine_mobility"@[14] == 'i' && "doctrine_mobility"@[15] == 't' && "doctrine_mobility"@[16] == 'y');
    reveal_strlit("doctrine_initiative");
    assert("doctrine_initiative"@[0] == 'd' && "doctrine_initiative"@[1] == 'o' && "doctrine_initiative"@[2] == 'c' && "doctrine_initiative"@[3] == 't' && "doctrine_initiative"@[4] == 'r' && "doctrine_initiative"@[5] == 'i' && "doctrine_initiative"@[6] == 'n' && "doctrine_initiative"@[7] == 'e' && "doctrine_initiative"@[8] == '_' && "doctrine_initiative"@[9] == 'i' && "doctrine_initiative"@[10] == 'n' && "doctrine_initiative"@[11] == 'i' && "doctrine_initiative"@[12] == 't' && "doctrine_initiative"@[13] == 'i' && "doctrine_initiative"@[14] == 'a' && "doctrine_initiative"@[15] == 't' && "doctrine_initiative"@[16] == 'i' && "doctrine_initiative"@[17] == 'v' && "doctrine_initiative"@[18] == 'e');
    reveal_strlit("doctrine_air_power");
    assert("doctrine_air_power"@[0] == 'd' && "doctrine_air_power"@[1] == 'o' && "doctrine_air_power"@[2] == 'c' && "doctrine_air_power"@[3] == 't' && "doctrine_air_power"@[4] == 'r' && "doctrine_air_power"@[5] == 'i' && "doctrine_air_power"@[6] == 'n' && "doctrine_air_power"@[7] == 'e' && "doctrine_air_power"@[8] == '_' && "doctrine_air_power"@[9] == 'a' && "doctrine_air_power"@[10] == 'i' && "doctrine_air_power"@[11] == 'r' && "doctrine_air_power"@[12] == '_' && "doctrine_air_power"@[13] == 'p' && "doctrine_air_power"@[14] == 'o' && "doctrine_air_power"@[15] == 'w' && "doctrine_air_power"@[16] == 'e' && "doctrine_air_power"@[17] == 'r');
    reveal_strlit("information_networks");
    assert("information_networks"@[0] == 'i' && "information_networks"@[1] == 'n' && "information_networks"@[2] == 'f' && "information_networks"@[3] == 'o' && "information_networks"@[4] == 'r' && "information_networks"@[5] == 'm' && "information_networks"@[6] == 'a' && "information_networks"@[7] == 't' && "information_networks"@[8] == 'i' && "information_networks"@[9] == 'o' && "information_networks"@[10] == 'n' && "information_networks"@[11] == '_' && "information_networks"@[12] == 'n' && "information_networks"@[13] == 'e' && "information_networks"@[14] == 't' && "information_networks"@[15] == 'w' && "information_networks"@[16] == 'o' && "information_networks"@[17] == 'r' && "information_networks"@[18] == 'k' && "information_networks"@[19] == 's');
    reveal_strlit("biogenetics");
    assert("biogenetics"@[0] == 'b' && "biogenetics"@[1] == 'i' && "biogenetics"@[2] == 'o' && "biogenetics"@[3] == 'g' && "biogenetics"@[4] == 'e' && "biogenetics"@[5] == 'n' && "biogenetics"@[6] == 'e' && "biogenetics"@[7] == 't' && "biogenetics"@[8] == 'i' && "biogenetics"@[9] == 'c' && "biogenetics"@[10] == 's');
    reveal_strlit("secrets_of_planet");
    assert("secrets_of_planet"@[0] == 's' && "secrets_of_planet"@[1] == 'e' && "secrets_of_planet"@[2] == 'c' && "secrets_of_planet"@[3] == 'r' && "secrets_of_planet"@[4] == 'e' && "secrets_of_planet"@[5] == 't' && "secrets_of_planet"@[6] == 's' && "secrets_of_planet"@[7] == '_' && "secrets_of_planet"@[8] == 'o' && "secrets_of_planet"@[9] == 'f' && "secrets_of_planet"@[10] == '_' && "secrets_of_planet"@[11] == 'p' && "secrets_of_planet"@[12] == 'l' && "secrets_of_planet"@[13] == 'a' && "secrets_of_planet"@[14] == 'n' && "secrets_of_planet"@[15] == 'e' && "secrets_of_planet"@[16] == 't');
    reveal_strlit("orbital_mechanics");
    assert("orbital_mechanics"@[0] == 'o' && "orbital_mechanics"@[1] == 'r' && "orbital_mechanics"@[2] == 'b' && "orbital_mechanics"@[3] == 'i' && "orbital_mechanics"@[4] == 't' && "orbital_mechanics"@[5] == 'a' && "orbital_mechanics"@[6] == 'l' && "orbital_mechanics"@[7] == '_' && "orbital_mechanics"@[8] == 'm' && "orbital_mechanics"@[9] == 'e' && "orbital_mechanics"@[10] == 'c' && "orbital_mechanics"@[11] == 'h' && "orbital_mechanics"@[12] == 'a' && "orbital_mechanics"@[13] == 'n' && "orbital_mechanics"@[14] == 'i' && "orbital_mechanics"@[15] == 'c' && "orbital_mechanics"@[16] == 's');
    reveal_strlit("advanced_field_theory");
    assert("advanced_field_theory"@[0] == 'a' && "advanced_field_theory"@[1] == 'd' && "advanced_field_theory"@[2] == 'v' && "advanced_field_theory"@[3] == 'a' && "advanced_field_theory"@[4] == 'n' && "advanced_field_theory"@[5] == 'c' && "advanced_field_theory"@[6] == 'e' && "advanced_field_theory"@[7] == 'd' && "advanced_field_theory"@[8] == '_' && "advanced_field_theory"@[9] == 'f' && "advanced_field_theory"@[10] == 'i' && "advanced_field_theory"@[11] == 'e' && "advanced_field_theory"@[12] == 'l' && "advanced_field_theory"@[13] == 'd' && "advanced_field_theory"@[14] == '_' && "advanced_field_theory"@[15] == 't' && "advanced_field_theory"@[16] == 'h' && "advanced_field_theory"@[17] == 'e' && "advanced_field_theory"@[18] == 'o' && "advanced_field_theory"@[19] == 'r' && "advanced_field_theory"@[20] == 'y');
    reveal_strlit("singularity_physics");
    assert("singularity_physics"@[0] == 's' && "singularity_physics"@[1] == 'i' && "singularity_physics"@[2] == 'n' && "singularity_physics"@[3] == 'g' && "singularity_physics"@[4] == 'u' && "singularity_physics"@[5] == 'l' && "singularity_physics"@[6] == 'a' && "singularity_physics"@[7] == 'r' && "singularity_physics"@[8] == 'i' && "singularity_physics"@[9] == 't' && "singularity_physics"@[10] == 'y' && "singularity_physics"@[11] == '_' && "singularity_physics"@[12] == 'p' && "singularity_physics"@[13] == 'h' && "singularity_physics"@[14] == 'y' && "singularity_physics"@[15] == 's' && "singularity_physics"@[16] == 'i' && "singularity_physics"@[17] == 'c' && "singularity_physics"@[18] == 's');
}

/// A tech of the research tree is read back from its display name, and only from it.
pub proof fn lemma_tech_name_round_trip(x: Tech)
    requires
        Tech::all_seq().contains(x),
    ensures
        Tech::parse_content_name(crate::content::tech_name_text(x)) == Some(x),
        forall|s: Seq<char>| Tech::parse_content_name(s) == Some(x) ==> s == crate::content::tech_name_text(x),
{
    let all = Tech::all_seq();
    let i = choose|i: int| 0 <= i < all.len() && all[i] == x;
    reveal_strlit("Centauri Ecology");
    assert("Centauri Ecology"@[0] == 'C' && "Centauri Ecology"@[1] == 'e' && "Centauri Ecology"@[2] == 'n' && "Centauri Ecology"@[3] == 't' && "Centauri Ecology"@[4] == 'a' && "Centauri Ecology"@[5] == 'u' && "Centauri Ecology"@[6] == 'r' && "Centauri Ecology"@[7] == 'i' && "Centauri Ecology"@[8] == ' ' && "Centauri Ecology"@[9] == 'E' && "Centauri Ecology"@[10] == 'c' && "Centauri Ecology"@[11] == 'o' && "Centauri Ecology"@[12] == 'l' && "Centauri Ecology"@[13] == 'o' && "Centauri Ecology"@[14] == 'g' && "Centauri Ecology"@[15] == 'y');
    reveal_strlit("Social Psych");
    assert("Social Psych"@[0] == 'S' && "Social Psych"@[1] == 'o' && "Social Psych"@[2] == 'c' && "Social Psych"@[3] == 'i' && "Social Psych"@[4] == 'a' && "Social Psych"@[5] == 'l' && "Social Psych"@[6] == ' ' && "Social Psych"@[7] == 'P' && "Social Psych"@[8] == 's' && "Social Psych"@[9] == 'y' && "Social Psych"@[10] == 'c' && "Social Psych"@[11] == 'h');
    reveal_strlit("Progenitor Psych");
    assert("Progenitor Psych"@[0] == 'P' && "Progenitor Psych"@[1] == 'r' && "Progenitor Psych"@[2] == 'o' && "Progenitor Psych"@[3] == 'g' && "Progenitor Psych"@[4] == 'e' && "Progenitor Psych"@[5] == 'n' && "Progenitor Psych"@[6] == 'i' && "Progenitor Psych"@[7] == 't' && "Progenitor Psych"@[8] == 'o' && "Progenitor Psych"@[9] == 'r' && "Progenitor Psych"@[10] == ' ' && "Progenitor Psych"@[11] == 'P' && "Progenitor Psych"@[12] == 's' && "Progenitor Psych"@[13] == 'y' && "Progenitor Psych"@[14] == 'c' && "Progenitor Psych"@[15] == 'h');
    reveal_strlit("Field Modulation");
    assert("Field Modulation"@[0] == 'F' && "Field Modulation"@[1] == 'i' && "Field Modulation"@[2] == 'e' && "Field Modulation"@[3] == 'l' && "Field Modulation"@[4] == 'd' && "Field Modulation"@[5] == ' ' && "Field Modulation"@[6] == 'M' && "Field Modulation"@[7] == 'o' && "Field Modulation"@[8] == 'd' && "Field Modulation"@[9] == 'u' && "Field Modulation"@[10] == 'l' && "Field Modulation"@[11] == 'a' && "Field Modulation"@[12] == 't' && "Field Modulation"@[13] == 'i' && "Field Modulation"@[14] == 'o' && "Field Modulation"@[15] == 'n');
    reveal_strlit("Planetary Networks");
    assert("Planetary Networks"@[0] == 'P' && "Planetary Networks"@[1] == 'l' && "Planetary Networks"@[2] == 'a' && "Planetary Networks"@[3] == 'n' && "Planetary Networks"@[4] == 'e' && "Planetary Networks"@[5] == 't' && "Planetary Networks"@[6] == 'a' && "Planetary Networks"@[7] == 'r' && "Planetary Networks"@[8] == 'y' && "Planetary Networks"@[9] == ' ' && "Planetary Networks"@[10] == 'N' && "Planetary Networks"@[11] == 'e' && "Planetary Networks"@[12] == 't' && "Planetary Networks"@[13] == 'w' && "Planetary Networks"@[14] == 'o' && "Planetary Networks"@[15] == 'r' && "Planetary Networks"@[16] == 'k' && "Planetary Networks"@[17] == 's');
    reveal_strlit("Secrets of the Human Brain");
    assert("Secrets of the Human Brain"@[0] == 'S' && "Secrets of the Human Brain"@[1] == 'e' && "Secrets of the Human Brain"@[2] == 'c' && "Secrets of the Human Brain"@[3] == 'r' && "Secrets of the Human Brain"@[4] == 'e' && "Secrets of the Human Brain"@[5] == 't' && "Secrets of the Human Brain"@[6] == 's' && "Secrets of the Human Brain"@[7] == ' ' && "Secrets of the Human Brain"@[8] == 'o' && "Secrets of the Human Brain"@[9] == 'f' && "Secrets of the Human Brain"@[10] == ' ' && "Secrets of the Human Brain"@[11] == 't' && "Secrets of the Human Brain"@[12] == 'h' && "Secrets of the Human Brain"@[13] == 'e' && "Secrets of the Human Brain"@[14] == ' ' && "Secrets of the Human Brain"@[15] == 'H' && "Secrets of the Human Brain"@[16] == 'u' && "Secrets of the Human Brain"@[17] == 'm' && "Secrets of the Human Brain"@[18] == 'a' && "Secrets of the Human Brain"@[19] == 'n' && "Secrets of the Human Brain"@[20] == ' ' && "Secrets of the Human Brain"@[21] == 'B' && "Secrets of the Human Brain"@[22] == 'r' && "Secrets of the Human Brain"@[23] == 'a' && "Secrets of the Human Brain"@[24] == 'i' && "Secrets of the Human Brain"@[25] == 'n');
    reveal_strlit("Gene Splicing");
    assert("Gene Splicing"@[0] == 'G' && "Gene Splicing"@[1] == 'e' && "Gene Splicing"@[2] == 'n' && "Gene Splicing"@[3] == 'e' && "Gene Splicing"@[4] == ' ' && "Gene Splicing"@[5] == 'S' && "Gene Splicing"@[6] == 'p' && "Gene Splicing"@[7] == 'l' && "Gene Splicing"@[8] == 'i' && "Gene Splicing"@[9] == 'c' && "Gene Splicing"@[10] == 'i' && "Gene Splicing"@[11] == 'n' && "Gene Splicing"@[12] == 'g');
    reveal_strlit("Industrial Base");
    assert("Industrial Base"@[0] == 'I' && "Industrial Base"@[1] == 'n' && "Industrial Base"@[2] == 'd' && "Industrial Base"@[3] == 'u' && "Industrial Base"@[4] == 's' && "Industrial Base"@[5] == 't' && "Industrial Base"@[6] == 'r' && "Industrial Base"@[7] == 'i' && "Industrial Base"@[8] == 'a' && "Industrial Base"@[9] == 'l' && "Industrial Base"@[10] == ' ' && "Industrial Base"@[11] == 'B' && "Industrial Base"@[12] == 'a' && "Industrial Base"@[13] == 's' && "Industrial Base"@[14] == 'e');
    reveal_strlit("Doctrine: Mobility");
    assert("Doctrine: Mobility"@[0] == 'D' && "Doctrine: Mobility"@[1] == 'o' && "Doctrine: Mobility"@[2] == 'c' && "Doctrine: Mobility"@[3] == 't' && "Doctrine: Mobility"@[4] == 'r' && "Doctrine: Mobility"@[5] == 'i' && "Doctrine: Mobility"@[6] == 'n' && "Doctrine: Mobility"@[7] == 'e' && "Doctrine: Mobility"@[8] == ':' && "Doctrine: Mobility"@[9] == ' ' && "Doctrine: Mobility"@[10] == 'M' && "Doctrine: Mobility"@[11] == 'o' && "Doctrine: Mobility"@[12] == 'b' && "Doctrine: Mobility"@[13] == 'i' && "Doctrine: Mobility"@[14] == 'l' && "Doctrine: Mobility"@[15] == 'i' && "Doctrine: Mobility"@[16] == 't' && "Doctrine: Mobility"@[17] == 'y');
    reveal_strlit("Doctrine: Initiative");
    assert("Doctrine: Initiative"@[0] == 'D' && "Doctrine: Initiative"@[1] == 'o' && "Doctrine: Initiative"@[2] == 'c' && "Doctrine: Initiative"@[3] == 't' && "Doctrine: Initiative"@[4] == 'r' && "Doctrine: Initiative"@[5] == 'i' && "Doctrine: Initiative"@[6] == 'n' && "Doctrine: Initiative"@[7] == 'e' && "Doctrine: Initiative"@[8] == ':' && "Doctrine: Initiative"@[9] == ' ' && "Doctrine: Initiative"@[10] == 'I' && "Doctrine: Initiative"@[11] == 'n' && "Doctrine: Initiative"@[12] == 'i' && "Doctrine: Initiative"@[13] == 't' && "Doctrine: Initiative"@[14] == 'i' && "Doctrine: Initiative"@[15] == 'a' && "Doctrine: Initiative"@[16] == 't' && "Doctrine: Initiative"@[17] == 'i' && "Doctrine: Initiative"@[18] == 'v' && "Doctrine: Initiative"@[19] == 'e');
    reveal_strlit("Doctrine: Air Power");
    assert("Doctrine: Air Power"@[0] == 'D' && "Doctrine: Air Power"@[1] == 'o' && "Doctrine: Air Power"@[2] == 'c' && "Doctrine: Air Power"@[3] == 't' && "Doctrine: Air Power"@[4] == 'r' && "Doctrine: Air Power"@[5] == 'i' && "Doctrine: Air Power"@[6] == 'n' && "Doctrine: Air Power"@[7] == 'e' && "Doctrine: Air Power"@[8] == ':' && "Doctrine: Air Power"@[9] == ' ' && "Doctrine: Air Power"@[10] == 'A' && "Doctrine: Air Power"@[11] == 'i' && "Doctrine: Air Power"@[12] == 'r' && "Doctrine: Air Power"@[13] == ' ' && "Doctrine: Air Power"@[14] == 'P' && "Doctrine: Air Power"@[15] == 'o' && "Doctrine: Air Power"@[16] == 'w' && "Doctrine: Air Power"@[17] == 'e' && "Doctrine: Air Power"@[18] == 'r');
    reveal_strlit("Information Networks");
    assert("Information Networks"@[0] == 'I' && "Information Networks"@[1] == 'n' && "Information Networks"@[2] == 'f' && "Information Networks"@[3] == 'o' && "Information Networks"@[4] == 'r' && "Information Networks"@[5] == 'm' && "Information Networks"@[6] == 'a' && "Information Networks"@[7] == 't' && "Information Networks"@[8] == 'i' && "Information Networks"@[9] == 'o' && "Information Networks"@[10] == 'n' && "Information Networks"@[11] == ' ' && "Information Networks"@[12] == 'N' && "Information Networks"@[13] == 'e' && "Information Networks"@[14] == 't' && "Information Networks"@[15] == 'w' && "Information Networks"@[16] == 'o' && "Information Networks"@[17] == 'r' && "Information Networks"@[18] == 'k' && "Information Networks"@[19] == 's');
    reveal_strlit("Biogenetics");
    assert("Biogenetics"@[0] == 'B' && "Biogenetics"@[1] == 'i' && "Biogenetics"@[2] == 'o' && "Biogenetics"@[3] == 'g' && "Biogenetics"@[4] == 'e' && "Biogenetics"@[5] == 'n' && "Biogenetics"@[6] == 'e' && "Biogenetics"@[7] == 't' && "Biogenetics"@[8] == 'i' && "Biogenetics"@[9] == 'c' && "Biogenetics"@[10] == 's');
    reveal_strlit("Secrets of Planet");
    assert("Secrets of Planet"@[0] == 'S' && "Secrets of Planet"@[1] == 'e' && "Secrets of Planet"@[2] == 'c' && "Secrets of Planet"@[3] == 'r' && "Secrets of Planet"@[4] == 'e' && "Secrets of Planet"@[5] == 't' && "Secrets of Planet"@[6] == 's' && "Secrets of Planet"@[7] == ' ' && "Secrets of Planet"@[8] == 'o' && "Secrets of Planet"@[9] == 'f' && "Secrets of Planet"@[10] == ' ' && "Secrets of Planet"@[11] == 'P' && "Secrets of Planet"@[12] == 'l' && "Secrets of Planet"@[13] == 'a' && "Secrets of Planet"@[14] == 'n' && "Secrets of Planet"@[15] == 'e' && "Secrets of Planet"@[16] == 't');
    reveal_strlit("Orbital Mechanics");
    assert("Orbital Mechanics"@[0] == 'O' && "Orbital Mechanics"@[1] == 'r' && "Orbital Mechanics"@[2] == 'b' && "Orbital Mechanics"@[3] == 'i' && "Orbital Mechanics"@[4] == 't' && "Orbital Mechanics"@[5] == 'a' && "Orbital Mechanics"@[6] == 'l' && "Orbital Mechanics"@[7] == ' ' && "Orbital Mechanics"@[8] == 'M' && "Orbital Mechanics"@[9] == 'e' && "Orbital Mechanics"@[10] == 'c' && "Orbital Mechanics"@[11] == 'h' && "Orbital Mechanics"@[12] == 'a' && "Orbital Mechanics"@[13] == 'n' && "Orbital Mechanics"@[14] == 'i' && "Orbital Mechanics"@[15] == 'c' && "Orbital Mechanics"@[16] == 's');
    reveal_strlit("Advanced Field Theory");
    assert("Advanced Field Theory"@[0] == 'A' && "Advanced Field Theory"@[1] == 'd' && "Advanced Field Theory"@[2] == 'v' && "Advanced Field Theory"@[3] == 'a' && "Advanced Field Theory"@[4] == 'n' && "Advanced Field Theory"@[5] == 'c' && "Advanced Field Theory"@[6] == 'e' && "Advanced Field Theory"@[7] == 'd' && "Advanced Field Theory"@[8] == ' ' && "Advanced Field Theory"@[9] == 'F' && "Advanced Field Theory"@[10] == 'i' && "Advanced Field Theory"@[11] == 'e' && "Advanced Field Theory"@[12] == 'l' && "Advanced Field Theory"@[13] == 'd' && "Advanced Field Theory"@[14] == ' ' && "Advanced Field Theory"@[15] == 'T' && "Advanced Field Theory"@[16] == 'h' && "Advanced Field Theory"@[17] == 'e' && "Advanced Field Theory"@[18] == 'o' && "Advanced Field Theory"@[19] == 'r' && "Advanced Field Theory"@[20] == 'y');
    reveal_strlit("Singularity Physics");
    assert("Singularity Physics"@[0] == 'S' && "Singularity Physics"@[1] == 'i' && "Singularity Physics"@[2] == 'n' && "Singularity Physics"@[3] == 'g' && "Singularity Physics"@[4] == 'u' && "Singularity Physics"@[5] == 'l' && "Singularity Physics"@[6] == 'a' && "Singularity Physics"@[7] == 'r' && "Singularity Physics"@[8] == 'i' && "Singularity Physics"@[9] == 't' && "Singularity Physics"@[10] == 'y' && "Singularity Physics"@[11] == ' ' && "Singularity Physics"@[12] == 'P' && "Singularity Physics"@[13] == 'h' && "Singularity Physics"@[14] == 'y' && "Singularity Physics"@[15] == 's' && "Singularity Physics"@[16] == 'i' && "Singularity Physics"@[17] == 'c' && "Singularity Physics"@[18] == 's');
}

/// A facility's production item builds that facility, and it is the only item that does.
pub proof fn lemma_facility_item_round_trip(f: Facility, item: ProductionItem)
    ensures
        ProductionItem::of_facility(f).facility_of() == Some(f),
        item.facility_of() == Some(f) ==> item == ProductionItem::of_facility(f),
{
}

/// One square of the map.
#[derive(Clone, Debug)]
pub struct Tile {
    pub x: usize,
    pub y: usize,
    pub terrain: Terrain,
    pub elevation: i32,
    pub moisture: i32,
    pub unit: Option<usize>,
    pub base: Option<usize>,
    pub pod: bool,
    pub improvement: Option<Improvement>,
    pub explored_by_owner: BTreeSet<usize>,
    pub visible_by_owner: BTreeSet<usize>,
}

/// The whole state of a running game.
#[derive(Clone, Debug)]
pub struct GameState {
    pub width: usize,
    pub height: usize,
    pub seed: u32,
    pub turn: i32,
    pub dust_fall_turns_left: i32,
    pub tidal_chaos_turns_left: i32,
    pub tiles: Vec<Tile>,
    pub units: Vec<Unit>,
    pub bases: Vec<Base>,
    pub convoy_routes: Vec<ConvoyRoute>,
    pub factions: Vec<Faction>,
    pub relations: Vec<Vec<DiplomaticRelation>>,
    pub built_secret_projects: Vec<(SecretProject, usize)>,
    pub log: Vec<EventLogEntry>,
    pub pending_diplomacy_offers: Vec<(usize, usize, DiplomacyStatus)>,
    pub pending_tech_trades: Vec<(usize, usize, Tech, Tech)>,
    pub pending_demands: Vec<(usize, usize, DemandKind)>,
    /// The messages Planet has already spoken, each listed once, in the order spoken.
    pub triggered_narratives: Vec<String>,
    pub council: CouncilState,
    pub game_over: Option<GameOver>,
    pub command_center_turn_traces: Vec<CommandCenterTurnTrace>,
}

} // verus!
