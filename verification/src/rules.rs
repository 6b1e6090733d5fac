//! The rulebook's table of contents: the fixed list of sections and their
//! titles. The body text of each section belongs to the presentation
//! layer.

use vstd::prelude::*;

verus! {

/// One section of the in-app rulebook.
#[derive(Debug, Clone, Copy, PartialEq, Eq, Structural)]
pub enum RulebookSection {
    HowToUseTheApp,
    Theme,
    Components,
    SetUp,
    WinLossConditions,
    GameStructure,
    AlienThreatAndTasks,
    AlienThreatConsequences,
    Panic,
    Funding,
    WorldMap,
    UFOs,
    UFOEdgeCases,
    Interceptors,
    UFODefence,
    UFODefenceResults,
    ResearchAndTech,
    ResearchTask,
    UsingTech,
    Satellites,
}

/// The fixed order in which the rulebook sections are listed.
pub open spec fn spec_all_rulebook_sections() -> Seq<RulebookSection> {
    seq![
        RulebookSection::HowToUseTheApp,
        RulebookSection::Theme,
        RulebookSection::Components,
        RulebookSection::SetUp,
        RulebookSection::WinLossConditions,
        RulebookSection::GameStructure,
        RulebookSection::AlienThreatAndTasks,
        RulebookSection::AlienThreatConsequences,
        RulebookSection::Panic,
        RulebookSection::Funding,
        RulebookSection::WorldMap,
        RulebookSection::UFOs,
        RulebookSection::UFOEdgeCases,
        RulebookSection::Interceptors,
        RulebookSection::UFODefence,
        RulebookSection::UFODefenceResults,
        RulebookSection::ResearchAndTech,
        RulebookSection::ResearchTask,
        RulebookSection::UsingTech,
        RulebookSection::Satellites,
    ]
}

pub open spec fn spec_rulebook_title(s: RulebookSection) -> Seq<char> {
    match s {
        RulebookSection::HowToUseTheApp => "How to Use the App"@,
        RulebookSection::Theme => "Welcome, Commander"@,
        RulebookSection::Components => "Components"@,
        RulebookSection::SetUp => "Set Up"@,
        RulebookSection::WinLossConditions => "Goal of the Game"@,
        RulebookSection::GameStructure => "Game Structure"@,
        RulebookSection::AlienThreatAndTasks => "Alien Threat and Tasks"@,
        RulebookSection::AlienThreatConsequences => "Alien Threat and Consequences"@,
        RulebookSection::Panic => "Panic"@,
        RulebookSection::Funding => "Funding"@,
        RulebookSection::WorldMap => "The World Map"@,
        RulebookSection::UFOs => "UFO Invasion"@,
        RulebookSection::UFOEdgeCases => "UFO Special Cases"@,
        RulebookSection::Interceptors => "Interceptors"@,
        RulebookSection::UFODefence => "UFO Defence"@,
        RulebookSection::UFODefenceResults => "UFO Defence Results"@,
        RulebookSection::ResearchAndTech => "Research and Technology I"@,
        RulebookSection::ResearchTask => "Research and Technology II"@,
        RulebookSection::UsingTech => "Using Technology"@,
        RulebookSection::Satellites => "Satellites"@,
    }
}

impl RulebookSection {
    /// All rulebook sections, in listing order.
    pub fn get_all() -> (v: Vec<RulebookSection>)
        ensures
            v@ == spec_all_rulebook_sections(),
    {
        let mut v: Vec<RulebookSection> = Vec::new();
        v.push(RulebookSection::HowToUseTheApp);
        v.push(RulebookSection::Theme);
        v.push(RulebookSection::Components);
        v.push(RulebookSection::SetUp);
        v.push(RulebookSection::WinLossConditions);
        v.push(RulebookSection::GameStructure);
        v.push(RulebookSection::AlienThreatAndTasks);
        v.push(RulebookSection::AlienThreatConsequences);
        v.push(RulebookSection::Panic);
        v.push(RulebookSection::Funding);
        v.push(RulebookSection::WorldMap);
        v.push(RulebookSection::UFOs);
        v.push(RulebookSection::UFOEdgeCases);
        v.push(RulebookSection::Interceptors);
        v.push(RulebookSection::UFODefence);
        v.push(RulebookSection::UFODefenceResults);
        v.push(RulebookSection::ResearchAndTech);
        v.push(RulebookSection::ResearchTask);
        v.push(RulebookSection::UsingTech);
        v.push(RulebookSection::Satellites);
        assert(v@ =~= spec_all_rulebook_sections());
        v
    }

    /// Heading shown for this section.
    pub fn title(&self) -> (r: String)
        ensures
            r@ == spec_rulebook_title(*self),
    {
        match self {
            RulebookSection::HowToUseTheApp => "How to Use the App",
            RulebookSection::Theme => "Welcome, Commander",
            RulebookSection::Components => "Components",
            RulebookSection::SetUp => "Set Up",
            RulebookSection::WinLossConditions => "Goal of the Game",
            RulebookSection::GameStructure => "Game Structure",
            RulebookSection::AlienThreatAndTasks => "Alien Threat and Tasks",
            RulebookSection::AlienThreatConsequences => "Alien Threat and Consequences",
            RulebookSection::Panic => "Panic",
            RulebookSection::Funding => "Funding",
            RulebookSection::WorldMap => "The World Map",
            RulebookSection::UFOs => "UFO Invasion",
            RulebookSection::UFOEdgeCases => "UFO Special Cases",
            RulebookSection::Interceptors => "Interceptors",
            RulebookSection::UFODefence => "UFO Defence",
            RulebookSection::UFODefenceResults => "UFO Defence Results",
            RulebookSection::ResearchAndTech => "Research and Technology I",
            RulebookSection::ResearchTask => "Research and Technology II",
            RulebookSection::UsingTech => "Using Technology",
            RulebookSection::Satellites => "Satellites",
        }.to_owned()
    }
}

} // verus!
