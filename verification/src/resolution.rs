//! The resolution phase: a fixed linear list of prompts with no
//! randomness.

use vstd::prelude::*;

verus! {

/// One step of the resolution phase that follows the timed phase of a
/// round.
#[derive(Debug, Clone, Copy, PartialEq, Eq, Structural)]
pub enum ResolutionPhasePrompt {
    AuditSpending,
    ResolveResearch,
    ResolveUFODefence,
    IncreasePanic,
    AskForBoardState,
    ResolveContinentBonuses,
    CleanUp,
    PurchaseReplacementForces,
}

/// The fixed order of the resolution phase steps.
pub open spec fn spec_all_resolution_prompts() -> Seq<ResolutionPhasePrompt> {
    seq![
        ResolutionPhasePrompt::AuditSpending,
        ResolutionPhasePrompt::ResolveResearch,
        ResolutionPhasePrompt::ResolveUFODefence,
        ResolutionPhasePrompt::IncreasePanic,
        ResolutionPhasePrompt::AskForBoardState,
        ResolutionPhasePrompt::ResolveContinentBonuses,
        ResolutionPhasePrompt::CleanUp,
        ResolutionPhasePrompt::PurchaseReplacementForces,
    ]
}

pub open spec fn spec_resolution_title(p: ResolutionPhasePrompt) -> Seq<char> {
    match p {
        ResolutionPhasePrompt::AuditSpending => "Audit Spending"@,
        ResolutionPhasePrompt::ResolveResearch => "Resolve Research"@,
        ResolutionPhasePrompt::ResolveUFODefence => "Resolve UFO Defence"@,
        ResolutionPhasePrompt::IncreasePanic => "Increase Panic"@,
        ResolutionPhasePrompt::AskForBoardState => "Update Board State"@,
        ResolutionPhasePrompt::ResolveContinentBonuses => "Gain Continent Bonuses"@,
        ResolutionPhasePrompt::CleanUp => "Clean Up"@,
        ResolutionPhasePrompt::PurchaseReplacementForces => "Replenish Forces"@,
    }
}

impl ResolutionPhasePrompt {
    /// All resolution steps, in the order they are resolved.
    pub fn all() -> (v: Vec<ResolutionPhasePrompt>)
        ensures
            v@ == spec_all_resolution_prompts(),
    {
        let mut v: Vec<ResolutionPhasePrompt> = Vec::new();
        v.push(ResolutionPhasePrompt::AuditSpending);
        v.push(ResolutionPhasePrompt::ResolveResearch);
        v.push(ResolutionPhasePrompt::ResolveUFODefence);
        v.push(ResolutionPhasePrompt::IncreasePanic);
        v.push(ResolutionPhasePrompt::AskForBoardState);
        v.push(ResolutionPhasePrompt::ResolveContinentBonuses);
        v.push(ResolutionPhasePrompt::CleanUp);
        v.push(ResolutionPhasePrompt::PurchaseReplacementForces);
        assert(v@ =~= spec_all_resolution_prompts());
        v
    }

    /// Headline shown for this resolution step.
    pub fn title(&self) -> (r: String)
        ensures
            r@ == spec_resolution_title(*self),
    {
        match self {
            ResolutionPhasePrompt::AuditSpending => "Audit Spending",
            ResolutionPhasePrompt::ResolveResearch => "Resolve Research",
            ResolutionPhasePrompt::ResolveUFODefence => "Resolve UFO Defence",
            ResolutionPhasePrompt::IncreasePanic => "Increase Panic",
            ResolutionPhasePrompt::AskForBoardState => "Update Board State",
            ResolutionPhasePrompt::ResolveContinentBonuses => "Gain Continent Bonuses",
            ResolutionPhasePrompt::CleanUp => "Clean Up",
            ResolutionPhasePrompt::PurchaseReplacementForces => "Replenish Forces",
        }.to_owned()
    }
}

} // verus!
