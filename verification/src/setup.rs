//! The scripted training walkthrough shown before the first round.

use vstd::prelude::*;

verus! {

/// One step of the pre-game training walkthrough.
#[derive(Debug, Clone, Copy, PartialEq, Eq, Structural)]
pub enum SetupStep {
    ListComponents,
    Theme,
    WinLossConditions,
    GameStructure,
    Panic,
    Funding,
    WorldMap,
    UFOEdgeCases,
    UFOs,
    AlienThreatAndTasks,
    AlienThreatConsequences,
    Interceptors,
    UFODefense,
    ResearchAndTech,
    ResearchTask,
    UsingTech,
    Satellites,
}

/// The fixed order in which the training steps are presented.
pub open spec fn spec_all_setup_steps() -> Seq<SetupStep> {
    seq![
        SetupStep::ListComponents,
        SetupStep::Theme,
        SetupStep::WinLossConditions,
        SetupStep::GameStructure,
        SetupStep::Panic,
        SetupStep::Funding,
        SetupStep::WorldMap,
        SetupStep::UFOs,
        SetupStep::UFOEdgeCases,
        SetupStep::AlienThreatAndTasks,
        SetupStep::AlienThreatConsequences,
        SetupStep::Interceptors,
        SetupStep::UFODefense,
        SetupStep::ResearchAndTech,
        SetupStep::ResearchTask,
        SetupStep::UsingTech,
        SetupStep::Satellites,
    ]
}

impl SetupStep {
    /// All training steps, in presentation order.
    pub fn get_all_steps() -> (v: Vec<SetupStep>)
        ensures
            v@ == spec_all_setup_steps(),
    {
        let mut v: Vec<SetupStep> = Vec::new();
        v.push(SetupStep::ListComponents);
        v.push(SetupStep::Theme);
        v.push(SetupStep::WinLossConditions);
        v.push(SetupStep::GameStructure);
        v.push(SetupStep::Panic);
        v.push(SetupStep::Funding);
        v.push(SetupStep::WorldMap);
        v.push(SetupStep::UFOs);
        v.push(SetupStep::UFOEdgeCases);
        v.push(SetupStep::AlienThreatAndTasks);
        v.push(SetupStep::AlienThreatConsequences);
        v.push(SetupStep::Interceptors);
        v.push(SetupStep::UFODefense);
        v.push(SetupStep::ResearchAndTech);
        v.push(SetupStep::ResearchTask);
        v.push(SetupStep::UsingTech);
        v.push(SetupStep::Satellites);
        assert(v@ =~= spec_all_setup_steps());
        v
    }
}

} // verus!
