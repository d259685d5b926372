//! Agreements between factions: demands, technology trades and social choices.
use crate::game_state::access::{log_event, logged_as};
use crate::model::{
    DemandKind, Economics, EventCategory, Faction, FutureSociety, GameState, Politics,
    SocialEngineering, Tech, Values,
};
use crate::presentation;
use crate::text::{int_text, owned, push_int, push_text, text_eq};
use vstd::prelude::*;

verus! {

/// The name a technology prints with in debug output: its variant's name.
pub open spec fn tech_debug_text(t: Tech) -> Seq<char> {
    match t {
        Tech::CentauriEcology => "CentauriEcology"@,
        Tech::SocialPsych => "SocialPsych"@,
        Tech::ProgenitorPsych => "ProgenitorPsych"@,
        Tech::FieldModulation => "FieldModulation"@,
        Tech::PlanetaryNetworks => "PlanetaryNetworks"@,
        Tech::SecretsOfTheHumanBrain => "SecretsOfTheHumanBrain"@,
        Tech::GeneSplicing => "GeneSplicing"@,
        Tech::IndustrialBase => "IndustrialBase"@,
        Tech::DoctrineMobility => "DoctrineMobility"@,
        Tech::DoctrineInitiative => "DoctrineInitiative"@,
        Tech::DoctrineAirPower => "DoctrineAirPower"@,
        Tech::InformationNetworks => "InformationNetworks"@,
        Tech::Biogenetics => "Biogenetics"@,
        Tech::SecretsOfPlanet => "SecretsOfPlanet"@,
        Tech::OrbitalMechanics => "OrbitalMechanics"@,
        Tech::AdvancedFieldTheory => "AdvancedFieldTheory"@,
        Tech::SingularityPhysics => "SingularityPhysics"@,
    }
}

/// A technology's variant name.
fn tech_debug_name(t: Tech) -> (r: &'static str)
    ensures
        r@ == tech_debug_text(t),
{
    match t {
        Tech::CentauriEcology => "CentauriEcology",
        Tech::SocialPsych => "SocialPsych",
        Tech::ProgenitorPsych => "ProgenitorPsych",
        Tech::FieldModulation => "FieldModulation",
        Tech::PlanetaryNetworks => "PlanetaryNetworks",
        Tech::SecretsOfTheHumanBrain => "SecretsOfTheHumanBrain",
        Tech::GeneSplicing => "GeneSplicing",
        Tech::IndustrialBase => "IndustrialBase",
        Tech::DoctrineMobility => "DoctrineMobility",
        Tech::DoctrineInitiative => "DoctrineInitiative",
        Tech::DoctrineAirPower => "DoctrineAirPower",
        Tech::InformationNetworks => "InformationNetworks",
        Tech::Biogenetics => "Biogenetics",
        Tech::SecretsOfPlanet => "SecretsOfPlanet",
        Tech::OrbitalMechanics => "OrbitalMechanics",
        Tech::AdvancedFieldTheory => "AdvancedFieldTheory",
        Tech::SingularityPhysics => "SingularityPhysics",
    }
}

/// Whether `v` lists `t`.
pub(crate) fn techs_contain(v: &Vec<Tech>, t: Tech) -> (r: bool)
    ensures
        r == v@.contains(t),
{
    let mut i: usize = 0;
    while i < v.len()
        invariant
            i <= v@.len(),
            forall|j: int| 0 <= j < i ==> v@[j] != t,
        decreases v@.len() - i,
    {
        if v[i] == t {
            assert(v@[i as int] == t);
            return true;
        }
        i += 1;
    }
    false
}

/// The name shown for faction `owner`.
pub open spec fn name_of(factions: Seq<Faction>, owner: usize) -> Seq<char> {
    if owner < factions.len() {
        factions[owner as int].name@
    } else {
        "Faction"@
    }
}

/// Whether faction `owner` exists and knows `t`.
pub open spec fn knows(factions: Seq<Faction>, owner: usize, t: Tech) -> bool {
    owner < factions.len() && factions[owner as int].known_techs@.contains(t)
}

/// `b` is faction `a` having learned `t`.
pub open spec fn learned(a: Faction, b: Faction, t: Tech) -> bool {
    &&& b.known_techs@ == a.known_techs@.push(t)
    &&& b.techs_discovered == a.techs_discovered + 1
    &&& b == (Faction { known_techs: b.known_techs, techs_discovered: b.techs_discovered, ..a })
}

/// A faction that learns a technology knows it afterwards and forgets nothing: what a
/// demand, a trade or a theft hands over reads back as known.
pub proof fn law_learned_tech_known(a: Faction, b: Faction, t: Tech, other: Tech)
    requires
        learned(a, b, t),
    ensures
        b.known_techs@.contains(t),
        a.known_techs@.contains(other) ==> b.known_techs@.contains(other),
{
    assert(b.known_techs@[b.known_techs@.len() - 1] == t);
    if a.known_techs@.contains(other) {
        let i = choose|i: int| 0 <= i < a.known_techs@.len() && a.known_techs@[i] == other;
        assert(b.known_techs@[i] == other);
    }
}

/// The energy that an energy demand of `amount` actually moves from `receiver`.
pub open spec fn tribute(factions: Seq<Faction>, receiver: usize, amount: i32) -> int {
    let available: int = if receiver < factions.len() { factions[receiver as int].energy as int } else { 0 };
    if amount < available { amount as int } else { available }
}

/// Why a social-engineering choice is refused for a faction named `name`, if it is.
pub open spec fn social_refusal(name: Seq<char>, politics: Option<Politics>, economics: Option<Economics>, values: Option<Values>) -> Option<Seq<char>> {
    if economics == Some(Economics::Planned) && name == "Morgan Industries"@ {
        Some("Morgan Industries cannot use Planned economics."@)
    } else if economics == Some(Economics::FreeMarket) && name == "Gaia's Stepdaughters"@ {
        Some("Gaia's Stepdaughters cannot use Free Market economics."@)
    } else if economics == Some(Economics::FreeMarket) && name == "The Lord's Believers"@ {
        Some("The Lord's Believers cannot use Free Market economics."@)
    } else if politics == Some(Politics::Democratic) && name == "The Human Hive"@ {
        Some("The Human Hive cannot use Democratic politics."@)
    } else if values == Some(Values::Knowledge) && name == "The Lord's Believers"@ {
        Some("The Lord's Believers cannot use Knowledge values."@)
    } else {
        None
    }
}

/// `choice` where given, `current` otherwise.
pub open spec fn chosen<T>(choice: Option<T>, current: T) -> T {
    match choice {
        Some(c) => c,
        None => current,
    }
}

impl GameState {
    /// Carries out `demand` by `proposer` on `receiver`: a technology changes hands when the
    /// receiver knows it and the proposer does not; an energy tribute moves as much of the
    /// amount as the receiver holds.
    pub fn execute_demand(&mut self, proposer: usize, receiver: usize, demand: DemandKind) -> (r: Result<(), String>)
        requires
            demand matches DemandKind::Technology(t) && knows(old(self).factions@, receiver, t)
                && proposer < old(self).factions@.len() ==> old(self).factions@[proposer as int].techs_discovered
                < i32::MAX,
            demand matches DemandKind::Energy(amount) ==> {
                let a = tribute(old(self).factions@, receiver, amount);
                &&& receiver < old(self).factions@.len() ==> i32::MIN <= old(self).factions@[receiver as int].energy - a <= i32::MAX
                &&& proposer < old(self).factions@.len() ==> i32::MIN <= old(self).factions@[proposer as int].energy
                    - (if proposer == receiver { a } else { 0 }) + a <= i32::MAX
            },
        ensures
            match demand {
                DemandKind::Technology(t) => if knows(old(self).factions@, receiver, t)
                    && proposer < old(self).factions@.len() && !knows(old(self).factions@, proposer, t) {
                    &&& r is Ok
                    &&& final(self).factions@ == old(self).factions@.update(
                        proposer as int,
                        final(self).factions@[proposer as int],
                    )
                    &&& learned(old(self).factions@[proposer as int], final(self).factions@[proposer as int], t)
                    &&& logged_as(
                        old(self).log@,
                        final(self).log@,
                        EventCategory::General,
                        "DEMAND: "@ + name_of(old(self).factions@, receiver) + " surrendered "@
                            + crate::content::tech_name_text(t) + " to "@ + name_of(old(self).factions@, proposer)
                            + "."@,
                        old(self).turn,
                    )
                    &&& *final(self) == (GameState {
                        factions: final(self).factions,
                        log: final(self).log,
                        ..*old(self)
                    })
                } else {
                    &&& r matches Err(e) && e@
                        == "Invalid tech demand: receiver does not have tech or proposer already knows it."@
                    &&& *final(self) == *old(self)
                },
                DemandKind::Energy(amount) => {
                    let a = tribute(old(self).factions@, receiver, amount);
                    &&& r is Ok
                    &&& final(self).factions@.len() == old(self).factions@.len()
                    &&& forall|j: int|
                        0 <= j < old(self).factions@.len() ==> #[trigger] final(self).factions@[j] == (Faction {
                            energy: (old(self).factions@[j].energy - (if j == receiver { a } else { 0 })
                                + (if j == proposer { a } else { 0 })) as i32,
                            ..old(self).factions@[j]
                        })
                    &&& logged_as(
                        old(self).log@,
                        final(self).log@,
                        EventCategory::General,
                        "DEMAND: "@ + name_of(old(self).factions@, receiver) + " paid "@ + int_text(a)
                            + " energy tribute to "@ + name_of(old(self).factions@, proposer) + "."@,
                        old(self).turn,
                    )
                    &&& *final(self) == (GameState {
                        factions: final(self).factions,
                        log: final(self).log,
                        ..*old(self)
                    })
                },
            },
    {
        match demand {
            DemandKind::Technology(tech) => {
                let receiver_has_tech = receiver < self.factions.len() && techs_contain(
                    &self.factions[receiver].known_techs,
                    tech,
                );
                let proposer_needs_tech = proposer < self.factions.len() && !techs_contain(
                    &self.factions[proposer].known_techs,
                    tech,
                );
                if !receiver_has_tech || !proposer_needs_tech {
                    return Err(
                        owned(
                            "Invalid tech demand: receiver does not have tech or proposer already knows it.",
                        ),
                    );
                }
                self.factions[proposer].known_techs.push(tech);
                self.factions[proposer].techs_discovered = self.factions[proposer].techs_discovered + 1;
                assert(self.factions@ =~= old(self).factions@.update(
                    proposer as int,
                    self.factions@[proposer as int],
                ));
                let mut message = owned("DEMAND: ");
                push_text(&mut message, self.faction_name(receiver));
                push_text(&mut message, " surrendered ");
                push_text(&mut message, presentation::tech_name(tech));
                push_text(&mut message, " to ");
                push_text(&mut message, self.faction_name(proposer));
                push_text(&mut message, ".");
                log_event(self, EventCategory::General, message);
            },
            DemandKind::Energy(amount) => {
                let receiver_energy: i32 = if receiver < self.factions.len() {
                    self.factions[receiver].energy
                } else {
                    0
                };
                let actual_amount = if amount < receiver_energy { amount } else { receiver_energy };
                if receiver < self.factions.len() {
                    self.factions[receiver].energy = self.factions[receiver].energy - actual_amount;
                }
                if proposer < self.factions.len() {
                    self.factions[proposer].energy = self.factions[proposer].energy + actual_amount;
                }
                let mut message = owned("DEMAND: ");
                push_text(&mut message, self.faction_name(receiver));
                push_text(&mut message, " paid ");
                push_int(&mut message, actual_amount as i64);
                push_text(&mut message, " energy tribute to ");
                push_text(&mut message, self.faction_name(proposer));
                push_text(&mut message, ".");
                log_event(self, EventCategory::General, message);
            },
        }
        Ok(())
    }

    /// Why `execute_tech_trade` is refused, if it is.
    pub open spec fn tech_trade_refusal(self, proposer: usize, receiver: usize, offered: Tech, requested: Tech) -> Option<Seq<char>> {
        if proposer >= self.factions@.len() {
            Some("Proposer not found"@)
        } else if receiver >= self.factions@.len() {
            Some("Receiver not found"@)
        } else if !knows(self.factions@, proposer, offered) || knows(self.factions@, proposer, requested)
            || !knows(self.factions@, receiver, requested) || knows(self.factions@, receiver, offered) {
            Some(
                "Invalid tech trade: one or both factions do not have the required tech or already know the requested tech."@,
            )
        } else {
            None
        }
    }

    /// Swaps technologies: `proposer` learns `requested_tech` and `receiver` learns
    /// `offered_tech`, when each knows what it gives and lacks what it gets.
    pub fn execute_tech_trade(&mut self, proposer: usize, receiver: usize, offered_tech: Tech, requested_tech: Tech) -> (r: Result<(), String>)
        requires
            old(self).tech_trade_refusal(proposer, receiver, offered_tech, requested_tech) is None ==> {
                &&& old(self).factions@[proposer as int].techs_discovered < i32::MAX
                &&& old(self).factions@[receiver as int].techs_discovered < i32::MAX
            },
        ensures
            match old(self).tech_trade_refusal(proposer, receiver, offered_tech, requested_tech) {
                Some(reason) => r matches Err(e) && e@ == reason && *final(self) == *old(self),
                None => {
                    &&& r is Ok
                    &&& proposer != receiver
                    &&& final(self).factions@ == old(self).factions@.update(
                        proposer as int,
                        final(self).factions@[proposer as int],
                    ).update(receiver as int, final(self).factions@[receiver as int])
                    &&& learned(
                        old(self).factions@[proposer as int],
                        final(self).factions@[proposer as int],
                        requested_tech,
                    )
                    &&& learned(
                        old(self).factions@[receiver as int],
                        final(self).factions@[receiver as int],
                        offered_tech,
                    )
                    &&& logged_as(
                        old(self).log@,
                        final(self).log@,
                        EventCategory::Diplomacy,
                        "TECH TRADE: "@ + name_of(old(self).factions@, proposer) + " and "@ + name_of(
                            old(self).factions@,
                            receiver,
                        ) + " traded technologies: "@ + tech_debug_text(offered_tech) + " for "@
                            + tech_debug_text(requested_tech) + "."@,
                        old(self).turn,
                    )
                    &&& *final(self) == (GameState {
                        factions: final(self).factions,
                        log: final(self).log,
                        ..*old(self)
                    })
                },
            },
    {
        if proposer >= self.factions.len() {
            return Err(owned("Proposer not found"));
        }
        if receiver >= self.factions.len() {
            return Err(owned("Receiver not found"));
        }
        let proposer_has_offered = techs_contain(&self.factions[proposer].known_techs, offered_tech);
        let proposer_needs_requested = !techs_contain(&self.factions[proposer].known_techs, requested_tech);
        let receiver_has_requested = techs_contain(&self.factions[receiver].known_techs, requested_tech);
        let receiver_needs_offered = !techs_contain(&self.factions[receiver].known_techs, offered_tech);
        if !proposer_has_offered || !proposer_needs_requested || !receiver_has_requested
            || !receiver_needs_offered {
            return Err(
                owned(
                    "Invalid tech trade: one or both factions do not have the required tech or already know the requested tech.",
                ),
            );
        }
        self.factions[proposer].known_techs.push(requested_tech);
        self.factions[proposer].techs_discovered = self.factions[proposer].techs_discovered + 1;
        self.factions[receiver].known_techs.push(offered_tech);
        self.factions[receiver].techs_discovered = self.factions[receiver].techs_discovered + 1;
        assert(self.factions@ =~= old(self).factions@.update(
            proposer as int,
            self.factions@[proposer as int],
        ).update(receiver as int, self.factions@[receiver as int]));
        let mut message = owned("TECH TRADE: ");
        push_text(&mut message, self.faction_name(proposer));
        push_text(&mut message, " and ");
        push_text(&mut message, self.faction_name(receiver));
        push_text(&mut message, " traded technologies: ");
        push_text(&mut message, tech_debug_name(offered_tech));
        push_text(&mut message, " for ");
        push_text(&mut message, tech_debug_name(requested_tech));
        push_text(&mut message, ".");
        log_event(self, EventCategory::Diplomacy, message);
        Ok(())
    }

    /// Changes the social engineering of faction `owner` in every category given, unless
    /// its ideology forbids one of the choices.
    pub fn choose_social_engineering(
        &mut self,
        owner: usize,
        politics: Option<Politics>,
        economics: Option<Economics>,
        values: Option<Values>,
        future: Option<FutureSociety>,
    ) -> (r: Result<(), String>)
        ensures
            owner >= old(self).factions@.len() ==> (r matches Err(e) && e@ == "Faction not found."@
                && *final(self) == *old(self)),
            owner < old(self).factions@.len() ==> {
                let f = old(self).factions@[owner as int];
                match social_refusal(f.name@, politics, economics, values) {
                    Some(reason) => r matches Err(e) && e@ == reason && *final(self) == *old(self),
                    None => {
                        let se = f.social_engineering;
                        &&& r is Ok
                        &&& final(self).factions@ == old(self).factions@.update(
                            owner as int,
                            Faction {
                                social_engineering: SocialEngineering {
                                    politics: chosen(politics, se.politics),
                                    economics: chosen(economics, se.economics),
                                    values: chosen(values, se.values),
                                    future: chosen(future, se.future),
                                },
                                ..f
                            },
                        )
                        &&& logged_as(
                            old(self).log@,
                            final(self).log@,
                            EventCategory::General,
                            f.name@ + " updated Social Engineering."@,
                            old(self).turn,
                        )
                        &&& *final(self) == (GameState {
                            factions: final(self).factions,
                            log: final(self).log,
                            ..*old(self)
                        })
                    },
                }
            },
    {
        if owner >= self.factions.len() {
            return Err(owned("Faction not found."));
        }
        match economics {
            Some(e) => {
                if e == Economics::Planned && text_eq(self.factions[owner].name.as_str(), "Morgan Industries") {
                    return Err(owned("Morgan Industries cannot use Planned economics."));
                }
                if e == Economics::FreeMarket && text_eq(self.factions[owner].name.as_str(), "Gaia's Stepdaughters") {
                    return Err(owned("Gaia's Stepdaughters cannot use Free Market economics."));
                }
                if e == Economics::FreeMarket && text_eq(self.factions[owner].name.as_str(), "The Lord's Believers") {
                    return Err(owned("The Lord's Believers cannot use Free Market economics."));
                }
            },
            None => {},
        }
        match politics {
            Some(p) => {
                if p == Politics::Democratic && text_eq(self.factions[owner].name.as_str(), "The Human Hive") {
                    return Err(owned("The Human Hive cannot use Democratic politics."));
                }
            },
            None => {},
        }
        match values {
            Some(v) => {
                if v == Values::Knowledge && text_eq(self.factions[owner].name.as_str(), "The Lord's Believers") {
                    return Err(owned("The Lord's Believers cannot use Knowledge values."));
                }
            },
            None => {},
        }
        match politics {
            Some(p) => {
                self.factions[owner].social_engineering.politics = p;
            },
            None => {},
        }
        match economics {
            Some(e) => {
                self.factions[owner].social_engineering.economics = e;
            },
            None => {},
        }
        match values {
            Some(v) => {
                self.factions[owner].social_engineering.values = v;
            },
            None => {},
        }
        match future {
            Some(f) => {
                self.factions[owner].social_engineering.future = f;
            },
            None => {},
        }
        assert(self.factions@ =~= old(self).factions@.update(owner as int, self.factions@[owner as int]));
        let message = {
            let mut m = owned(self.factions[owner].name.as_str());
            push_text(&mut m, " updated Social Engineering.");
            m
        };
        log_event(self, EventCategory::General, message);
        Ok(())
    }
}

} // verus!
