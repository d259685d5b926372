//! The voice of Planet: messages that appear when conditions are first met.
use crate::model::Tech;
use vstd::prelude::*;

verus! {

pub struct NarrativeTrigger {
    pub message: &'static str,
    pub condition: NarrativeCondition,
}

#[derive(Clone, Copy, Debug, PartialEq, Eq, Structural)]
pub enum NarrativeCondition {
    Toxicity(i32),
    Technology(Tech),
    Turn(i32),
}

/// The number of messages Planet speaks.
pub open spec fn voice_trigger_count() -> int {
    6
}

/// The message of trigger `i`.
pub open spec fn voice_message_text(i: int) -> Seq<char> {
    if i == 0 {
        "I am the Planet. I feel your machines like parasites upon my skin."@
    } else if i == 1 {
        "The fungus spreads. It is my white blood cells, rushing to the site of infection."@
    } else if i == 2 {
        "You think you can master me? I was here before your sun was born."@
    } else if i == 3 {
        "Information networks... you weave a web of glass across the world. I see your thoughts."@
    } else if i == 4 {
        "Planetary networks... you are beginning to hear my voice. Do not look away."@
    } else {
        "The first century on this world ends. You have survived. For now."@
    }
}

/// The condition of trigger `i`.
pub open spec fn voice_condition(i: int) -> NarrativeCondition {
    if i == 0 {
        NarrativeCondition::Toxicity(30)
    } else if i == 1 {
        NarrativeCondition::Toxicity(60)
    } else if i == 2 {
        NarrativeCondition::Toxicity(90)
    } else if i == 3 {
        NarrativeCondition::Technology(Tech::InformationNetworks)
    } else if i == 4 {
        NarrativeCondition::Technology(Tech::PlanetaryNetworks)
    } else {
        NarrativeCondition::Turn(100)
    }
}

/// Planet's messages with the conditions that release them, in order.
pub fn get_voice_of_planet_triggers() -> (r: Vec<NarrativeTrigger>)
    ensures
        r@.len() == voice_trigger_count(),
        forall|i: int|
            0 <= i < voice_trigger_count() ==> (#[trigger] r@[i]).message@ == voice_message_text(i)
                && r@[i].condition == voice_condition(i),
{
    let r = vec![
        NarrativeTrigger {
            message: "I am the Planet. I feel your machines like parasites upon my skin.",
            condition: NarrativeCondition::Toxicity(30),
        },
        NarrativeTrigger {
            message: "The fungus spreads. It is my white blood cells, rushing to the site of infection.",
            condition: NarrativeCondition::Toxicity(60),
        },
        NarrativeTrigger {
            message: "You think you can master me? I was here before your sun was born.",
            condition: NarrativeCondition::Toxicity(90),
        },
        NarrativeTrigger {
            message: "Information networks... you weave a web of glass across the world. I see your thoughts.",
            condition: NarrativeCondition::Technology(Tech::InformationNetworks),
        },
        NarrativeTrigger {
            message: "Planetary networks... you are beginning to hear my voice. Do not look away.",
            condition: NarrativeCondition::Technology(Tech::PlanetaryNetworks),
        },
        NarrativeTrigger {
            message: "The first century on this world ends. You have survived. For now.",
            condition: NarrativeCondition::Turn(100),
        },
    ];
    r
}

} // verus!
