//! The social-engineering screen: each choice of the four categories, whether the
//! faction may take it, and which it has taken.
use crate::game_state::{
    SocialEngineeringCategoryOptionState, SocialEngineeringCategoryState,
    SocialEngineeringDisplayState,
};
use crate::model::{Economics, FutureSociety, GameState, Politics, SocialEngineering, Values};
use crate::presentation::string_views;
use crate::text::{owned, text_eq};
use vstd::prelude::*;

verus! {

/// The name of category `c`: politics, economics, values, future society.
pub open spec fn category_name(c: int) -> Seq<char> {
    if c == 0 {
        "Politics"@
    } else if c == 1 {
        "Economics"@
    } else if c == 2 {
        "Values"@
    } else {
        "Future Society"@
    }
}

/// Choice `i` of category `c`: its name, its modifiers, and the identifier under which
/// the technology tree enables it. The first choice of each category is always open.
pub open spec fn choice_texts(c: int, i: int) -> (Seq<char>, Seq<char>, Seq<char>) {
    if c == 0 {
        if i == 0 {
            ("Frontier"@, "None"@, "frontier"@)
        } else if i == 1 {
            ("Police"@, "+2 Support, +2 Police, -2 Efficiency"@, "police"@)
        } else if i == 2 {
            ("Democratic"@, "+2 Growth, +2 Efficiency, -2 Support"@, "democratic"@)
        } else {
            ("Fundamentalist"@, "+2 Morale, +2 Probe, -2 Research"@, "fundamentalist"@)
        }
    } else if c == 1 {
        if i == 0 {
            ("Simple"@, "None"@, "simple"@)
        } else if i == 1 {
            ("Free Market"@, "+2 Economy, +2 Efficiency, -2 Planet"@, "free_market"@)
        } else if i == 2 {
            ("Planned"@, "+1 Industry, +1 Growth, -2 Efficiency"@, "planned"@)
        } else {
            ("Green"@, "+2 Efficiency, +1 Planet, -2 Growth"@, "green"@)
        }
    } else if c == 2 {
        if i == 0 {
            ("Survival"@, "None"@, "survival"@)
        } else if i == 1 {
            ("Wealth"@, "+1 Economy, +1 Industry, -1 Morale"@, "wealth"@)
        } else if i == 2 {
            ("Knowledge"@, "+2 Research, +1 Efficiency, -1 Probe"@, "knowledge"@)
        } else {
            ("Power"@, "+2 Morale, +1 Support, -1 Industry"@, "power"@)
        }
    } else {
        if i == 0 {
            ("None"@, "None"@, "none"@)
        } else if i == 1 {
            ("Cybernetic"@, "+2 Efficiency, +2 Research, +1 Planet, -1 Police"@, "cybernetic"@)
        } else if i == 2 {
            ("Thought Control"@, "+2 Police, +2 Morale, +2 Probe, -1 Research"@, "thought_control"@)
        } else {
            ("Eudaimonic"@, "+2 Economy, +2 Efficiency, +2 Growth, -1 Industry"@, "eudaimonic"@)
        }
    }
}

/// The politics of choice `i`.
pub open spec fn politics_at(i: int) -> Politics {
    if i == 0 { Politics::Frontier } else if i == 1 { Politics::Police } else if i == 2 { Politics::Democratic } else { Politics::Fundamentalist }
}

/// The economics of choice `i`.
pub open spec fn economics_at(i: int) -> Economics {
    if i == 0 { Economics::Simple } else if i == 1 { Economics::FreeMarket } else if i == 2 { Economics::Planned } else { Economics::Green }
}

/// The values of choice `i`.
pub open spec fn values_at(i: int) -> Values {
    if i == 0 { Values::Survival } else if i == 1 { Values::Wealth } else if i == 2 { Values::Knowledge } else { Values::Power }
}

/// The future society of choice `i`.
pub open spec fn future_at(i: int) -> FutureSociety {
    if i == 0 {
        FutureSociety::Undecided
    } else if i == 1 {
        FutureSociety::Cybernetic
    } else if i == 2 {
        FutureSociety::ThoughtControl
    } else {
        FutureSociety::Eudaimonic
    }
}

/// Whether choice `i` of category `c` is the one `se` has taken.
pub open spec fn choice_taken(se: SocialEngineering, c: int, i: int) -> bool {
    if c == 0 {
        se.politics == politics_at(i)
    } else if c == 1 {
        se.economics == economics_at(i)
    } else if c == 2 {
        se.values == values_at(i)
    } else {
        se.future == future_at(i)
    }
}

/// `row` shows choice `i` of category `c` for a faction with social engineering `se`,
/// where `enabled` lists the choices its known technologies open.
pub open spec fn choice_row_shows(
    se: SocialEngineering,
    enabled: Seq<Seq<char>>,
    c: int,
    i: int,
    row: SocialEngineeringCategoryOptionState,
) -> bool {
    let (choice, modifiers, id) = choice_texts(c, i);
    &&& row.choice_text@ == choice
    &&& row.modifiers_text@ == modifiers
    &&& row.enabled == (i == 0 || enabled.contains(id))
    &&& row.selected == choice_taken(se, c, i)
    &&& row.politics == (if c == 0 { Some(politics_at(i)) } else { None })
    &&& row.economics == (if c == 1 { Some(economics_at(i)) } else { None })
    &&& row.values == (if c == 2 { Some(values_at(i)) } else { None })
    &&& row.future == (if c == 3 { Some(future_at(i)) } else { None })
}

/// The texts of choice `i` of category `c`.
fn choice_texts_of(c: usize, i: usize) -> (r: (&'static str, &'static str, &'static str))
    requires
        c < 4,
        i < 4,
    ensures
        (r.0@, r.1@, r.2@) == choice_texts(c as int, i as int),
{
    if c == 0 {
        if i == 0 {
            ("Frontier", "None", "frontier")
        } else if i == 1 {
            ("Police", "+2 Support, +2 Police, -2 Efficiency", "police")
        } else if i == 2 {
            ("Democratic", "+2 Growth, +2 Efficiency, -2 Support", "democratic")
        } else {
            ("Fundamentalist", "+2 Morale, +2 Probe, -2 Research", "fundamentalist")
        }
    } else if c == 1 {
        if i == 0 {
            ("Simple", "None", "simple")
        } else if i == 1 {
            ("Free Market", "+2 Economy, +2 Efficiency, -2 Planet", "free_market")
        } else if i == 2 {
            ("Planned", "+1 Industry, +1 Growth, -2 Efficiency", "planned")
        } else {
            ("Green", "+2 Efficiency, +1 Planet, -2 Growth", "green")
        }
    } else if c == 2 {
        if i == 0 {
            ("Survival", "None", "survival")
        } else if i == 1 {
            ("Wealth", "+1 Economy, +1 Industry, -1 Morale", "wealth")
        } else if i == 2 {
            ("Knowledge", "+2 Research, +1 Efficiency, -1 Probe", "knowledge")
        } else {
            ("Power", "+2 Morale, +1 Support, -1 Industry", "power")
        }
    } else {
        if i == 0 {
            ("None", "None", "none")
        } else if i == 1 {
            ("Cybernetic", "+2 Efficiency, +2 Research, +1 Planet, -1 Police", "cybernetic")
        } else if i == 2 {
            ("Thought Control", "+2 Police, +2 Morale, +2 Probe, -1 Research", "thought_control")
        } else {
            ("Eudaimonic", "+2 Economy, +2 Efficiency, +2 Growth, -1 Industry", "eudaimonic")
        }
    }
}

fn category_name_of(c: usize) -> (r: &'static str)
    ensures
        r@ == category_name(c as int),
{
    if c == 0 {
        "Politics"
    } else if c == 1 {
        "Economics"
    } else if c == 2 {
        "Values"
    } else {
        "Future Society"
    }
}

/// Whether `enabled` lists `id`.
fn lists_choice(enabled: &Vec<String>, id: &str) -> (r: bool)
    ensures
        r == string_views(enabled@).contains(id@),
{
    let mut k: usize = 0;
    while k < enabled.len()
        invariant
            k <= enabled@.len(),
            forall|j: int| 0 <= j < k ==> enabled@[j]@ != id@,
        decreases enabled@.len() - k,
    {
        if text_eq(enabled[k].as_str(), id) {
            assert(string_views(enabled@)[k as int] == id@);
            return true;
        }
        k += 1;
    }
    assert forall|j: int| 0 <= j < string_views(enabled@).len() implies string_views(enabled@)[j] != id@ by {
        assert(string_views(enabled@)[j] == enabled@[j]@);
    }
    false
}

impl GameState {
    /// Choice `i` of category `c` as the screen shows it.
    fn choice_row(&self, se: SocialEngineering, enabled: &Vec<String>, c: usize, i: usize) -> (r: SocialEngineeringCategoryOptionState)
        requires
            c < 4,
            i < 4,
        ensures
            choice_row_shows(se, string_views(enabled@), c as int, i as int, r),
    {
        let (choice, modifiers, id) = choice_texts_of(c, i);
        let open = i == 0 || lists_choice(enabled, id);
        if c == 0 {
            let p = if i == 0 { Politics::Frontier } else if i == 1 { Politics::Police } else if i == 2 { Politics::Democratic } else { Politics::Fundamentalist };
            self.politics_option(p, choice, modifiers, open, se.politics == p)
        } else if c == 1 {
            let e = if i == 0 { Economics::Simple } else if i == 1 { Economics::FreeMarket } else if i == 2 { Economics::Planned } else { Economics::Green };
            self.economics_option(e, choice, modifiers, open, se.economics == e)
        } else if c == 2 {
            let v = if i == 0 { Values::Survival } else if i == 1 { Values::Wealth } else if i == 2 { Values::Knowledge } else { Values::Power };
            self.values_option(v, choice, modifiers, open, se.values == v)
        } else {
            let f = if i == 0 {
                FutureSociety::Undecided
            } else if i == 1 {
                FutureSociety::Cybernetic
            } else if i == 2 {
                FutureSociety::ThoughtControl
            } else {
                FutureSociety::Eudaimonic
            };
            self.future_option(f, choice, modifiers, open, se.future == f)
        }
    }

    /// The social-engineering screen of faction `owner`: four categories of four choices,
    /// each with its modifiers, open when it is a category's first choice or when
    /// `enabled` (the choices the technology tree opens for the faction's known
    /// technologies) lists it, and marked when the faction has taken it.
    pub fn social_engineering_display_state(&self, owner: usize, enabled: &Vec<String>) -> (r: SocialEngineeringDisplayState)
        requires
            owner < self.factions@.len(),
        ensures
            r.heading_text@ == "SOCIAL ENGINEERING"@,
            r.categories@.len() == 4,
            forall|c: int| 0 <= c < 4 ==> {
                let cat = #[trigger] r.categories@[c];
                &&& cat.name@ == category_name(c)
                &&& cat.options@.len() == 4
                &&& forall|i: int| 0 <= i < 4 ==> choice_row_shows(
                    self.factions@[owner as int].social_engineering,
                    string_views(enabled@),
                    c,
                    i,
                    #[trigger] cat.options@[i],
                )
            },
    {
        let se = self.factions[owner].social_engineering;
        let mut categories: Vec<SocialEngineeringCategoryState> = Vec::new();
        let mut c: usize = 0;
        while c < 4
            invariant
                c <= 4,
                se == self.factions@[owner as int].social_engineering,
                categories@.len() == c,
                forall|m: int| 0 <= m < c ==> {
                    let cat = #[trigger] categories@[m];
                    &&& cat.name@ == category_name(m)
                    &&& cat.options@.len() == 4
                    &&& forall|i: int| 0 <= i < 4 ==> choice_row_shows(se, string_views(enabled@), m, i, #[trigger] cat.options@[i])
                },
            decreases 4 - c,
        {
            let mut options: Vec<SocialEngineeringCategoryOptionState> = Vec::new();
            let mut i: usize = 0;
            while i < 4
                invariant
                    c < 4,
                    i <= 4,
                    options@.len() == i,
                    forall|k: int| 0 <= k < i ==> choice_row_shows(se, string_views(enabled@), c as int, k, #[trigger] options@[k]),
                decreases 4 - i,
            {
                let row = self.choice_row(se, enabled, c, i);
                options.push(row);
                i += 1;
            }
            categories.push(SocialEngineeringCategoryState { name: category_name_of(c), options });
            c += 1;
        }
        SocialEngineeringDisplayState { heading_text: owned("SOCIAL ENGINEERING"), categories }
    }
}

} // verus!
