//! The prompt model: one unit of required player action, tagged by kind,
//! and the pairwise precedence predicate between prompts.

use vstd::prelude::*;

use crate::domain::Continent;

verus! {

/// One unit of required player action during the timed phase of a round.
#[derive(Debug, Clone, Copy, PartialEq, Eq, Structural)]
pub enum TimedPhasePrompt {
    TakeIncome(i32),
    RollUFOLocation(Continent),
    AddUFOsToLocation(Continent, i32),
    SwapUFOLocations(Continent, Continent),
    ChooseResearch,
    AssignInterceptors(Continent),
    AlienBaseDiscovered(Continent),
}

/// The pairwise precedence relation: `later` is only valid once `earlier`
/// has already occurred. Deliberately only pairwise; no transitive closure
/// is ever taken.
pub open spec fn spec_must_come_after(later: TimedPhasePrompt, earlier: TimedPhasePrompt) -> bool {
    match later {
        TimedPhasePrompt::AddUFOsToLocation(loc, _) => {
            earlier matches TimedPhasePrompt::RollUFOLocation(other) && other == loc
        },
        TimedPhasePrompt::AssignInterceptors(loc) => {
            earlier matches TimedPhasePrompt::RollUFOLocation(other) && other == loc
        },
        TimedPhasePrompt::SwapUFOLocations(loc_1, loc_2) => {
            earlier matches TimedPhasePrompt::RollUFOLocation(other)
                && (other == loc_1 || other == loc_2)
        },
        _ => false,
    }
}

/// Well-formedness of a single prompt: units are only ever added in positive
/// amounts, and a swap always names two distinct locations.
pub open spec fn prompt_wf(p: TimedPhasePrompt) -> bool {
    &&& (p matches TimedPhasePrompt::AddUFOsToLocation(_, count) ==> count > 0)
    &&& (p matches TimedPhasePrompt::SwapUFOLocations(a, b) ==> a != b)
}

/// A prompt order is legal when no prompt stands before one of the prompts
/// it must come after: for all indices `i < j`, `s[i]` does not have to
/// come after `s[j]`.
pub open spec fn precedence_respected(s: Seq<TimedPhasePrompt>) -> bool {
    forall|i: int, j: int|
        0 <= i < j < s.len() ==> !spec_must_come_after(s[i], s[j])
}

/// Only a roll can be required to come earlier, and a roll is never itself
/// required to come after anything.
pub proof fn lemma_precedence_kinds(later: TimedPhasePrompt, earlier: TimedPhasePrompt)
    ensures
        spec_must_come_after(later, earlier) ==> earlier is RollUFOLocation,
        spec_must_come_after(later, earlier) ==> !(later is RollUFOLocation),
{
}

impl TimedPhasePrompt {
    /// True iff `self` is only valid once `other` has already occurred.
    pub fn must_come_after(&self, other: &TimedPhasePrompt) -> (r: bool)
        ensures
            r == spec_must_come_after(*self, *other),
    {
        match self {
            // Can't add to a location until the related die has been rolled.
            TimedPhasePrompt::AddUFOsToLocation(location, _) => match other {
                TimedPhasePrompt::RollUFOLocation(other_location) => other_location == location,
                _ => false,
            },
            // Let the player at least see which die has been rolled for this
            // location before making them assign interceptors. Dice might be
            // swapped or added to after interceptors have been assigned.
            TimedPhasePrompt::AssignInterceptors(location) => match other {
                TimedPhasePrompt::RollUFOLocation(other_location) => other_location == location,
                _ => false,
            },
            // Can't swap locations until both related dice have been rolled.
            TimedPhasePrompt::SwapUFOLocations(location_1, location_2) => match other {
                TimedPhasePrompt::RollUFOLocation(other_location) => {
                    other_location == location_1 || other_location == location_2
                },
                _ => false,
            },
            _ => false,
        }
    }

    /// Headline shown for this prompt.
    pub fn title(&self) -> (r: String)
        ensures
            r@ == spec_title(*self),
    {
        match self {
            TimedPhasePrompt::TakeIncome(_) => "Take Income".to_owned(),
            TimedPhasePrompt::RollUFOLocation(continent) => match continent {
                Continent::America => "UFOs Spotted Over America",
                Continent::Africa => "UFOs Spotted Over Africa",
                Continent::Eurasia => "UFOs Spotted Over Eurasia",
            }.to_owned(),
            TimedPhasePrompt::AddUFOsToLocation(continent, _) => match continent {
                Continent::America => "More UFOs Spotted Over America",
                Continent::Africa => "More UFOs Spotted Over Africa",
                Continent::Eurasia => "More UFOs Spotted Over Eurasia",
            }.to_owned(),
            TimedPhasePrompt::SwapUFOLocations(_, _) => "UFOs on the Move".to_owned(),
            TimedPhasePrompt::ChooseResearch => "Choose Research".to_owned(),
            TimedPhasePrompt::AssignInterceptors(continent) => match continent {
                Continent::America => "Assign Interceptors to America",
                Continent::Africa => "Assign Interceptors to Africa",
                Continent::Eurasia => "Assign Interceptors to Eurasia",
            }.to_owned(),
            TimedPhasePrompt::AlienBaseDiscovered(continent) => match continent {
                Continent::America => "Alien Base Discovered in America",
                Continent::Africa => "Alien Base Discovered in Africa",
                Continent::Eurasia => "Alien Base Discovered in Eurasia",
            }.to_owned(),
        }
    }
}

pub open spec fn spec_title(p: TimedPhasePrompt) -> Seq<char> {
    match p {
        TimedPhasePrompt::TakeIncome(_) => "Take Income"@,
        TimedPhasePrompt::RollUFOLocation(continent) => match continent {
            Continent::America => "UFOs Spotted Over America"@,
            Continent::Africa => "UFOs Spotted Over Africa"@,
            Continent::Eurasia => "UFOs Spotted Over Eurasia"@,
        },
        TimedPhasePrompt::AddUFOsToLocation(continent, _) => match continent {
            Continent::America => "More UFOs Spotted Over America"@,
            Continent::Africa => "More UFOs Spotted Over Africa"@,
            Continent::Eurasia => "More UFOs Spotted Over Eurasia"@,
        },
        TimedPhasePrompt::SwapUFOLocations(_, _) => "UFOs on the Move"@,
        TimedPhasePrompt::ChooseResearch => "Choose Research"@,
        TimedPhasePrompt::AssignInterceptors(continent) => match continent {
            Continent::America => "Assign Interceptors to America"@,
            Continent::Africa => "Assign Interceptors to Africa"@,
            Continent::Eurasia => "Assign Interceptors to Eurasia"@,
        },
        TimedPhasePrompt::AlienBaseDiscovered(continent) => match continent {
            Continent::America => "Alien Base Discovered in America"@,
            Continent::Africa => "Alien Base Discovered in Africa"@,
            Continent::Eurasia => "Alien Base Discovered in Eurasia"@,
        },
    }
}

} // verus!
