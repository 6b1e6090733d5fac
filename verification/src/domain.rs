//! Closed domain model: the three world regions, the three panic levels
//! (the difficulty state that fixes the base income), and the game result.

use vstd::prelude::*;

verus! {

/// The panic level of the world, which acts as the difficulty state:
/// the higher the panic, the lower the base income of a round.
#[derive(Debug, Clone, Copy, PartialEq, Eq, Structural)]
pub enum PanicLevel {
    Yellow,
    Orange,
    Red,
}

/// Base income a round grants before the random adjustment is applied.
pub open spec fn spec_base_income(panic: PanicLevel) -> int {
    match panic {
        PanicLevel::Yellow => 6,
        PanicLevel::Orange => 5,
        PanicLevel::Red => 4,
    }
}

/// One of exactly three fixed world regions over which all location-bound
/// prompts are parameterised.
#[derive(Debug, Clone, Copy, PartialEq, Eq, Structural)]
pub enum Continent {
    America,
    Africa,
    Eurasia,
}

impl Continent {
    /// Lower-case name of the continent, as used for asset lookup.
    pub fn lowercase(&self) -> (r: String)
        ensures
            r@ == spec_lowercase(*self),
    {
        match self {
            Continent::America => "america",
            Continent::Africa => "africa",
            Continent::Eurasia => "eurasia",
        }.to_owned()
    }

    /// Display name of the continent.
    pub fn name(&self) -> (r: String)
        ensures
            r@ == spec_continent_name(*self),
    {
        match self {
            Continent::America => "America",
            Continent::Africa => "Africa",
            Continent::Eurasia => "Eurasia",
        }.to_owned()
    }
}

pub open spec fn spec_lowercase(c: Continent) -> Seq<char> {
    match c {
        Continent::America => "america"@,
        Continent::Africa => "africa"@,
        Continent::Eurasia => "eurasia"@,
    }
}

pub open spec fn spec_continent_name(c: Continent) -> Seq<char> {
    match c {
        Continent::America => "America"@,
        Continent::Africa => "Africa"@,
        Continent::Eurasia => "Eurasia"@,
    }
}

/// The canonical order of the three continents.
pub open spec fn spec_all_continents() -> Seq<Continent> {
    seq![Continent::America, Continent::Africa, Continent::Eurasia]
}

/// The three continents in their fixed canonical order.
pub fn all_continents() -> (v: Vec<Continent>)
    ensures
        v@ == spec_all_continents(),
        v@.no_duplicates(),
{
    let mut v: Vec<Continent> = Vec::new();
    v.push(Continent::America);
    v.push(Continent::Africa);
    v.push(Continent::Eurasia);
    assert(v@ =~= spec_all_continents());
    v
}

/// Outcome of a finished game.
#[derive(Debug, Clone, Copy, PartialEq, Eq, Structural)]
pub enum GameResult {
    Victory,
    PyrrhicVictory,
    Defeat,
}

impl GameResult {
    /// Display name of the outcome.
    pub fn name(&self) -> (r: String)
        ensures
            r@ == spec_game_result_name(*self),
    {
        match self {
            GameResult::Victory => "Victory",
            GameResult::PyrrhicVictory => "Pyrrhic Victory",
            GameResult::Defeat => "Defeat",
        }.to_owned()
    }
}

pub open spec fn spec_game_result_name(r: GameResult) -> Seq<char> {
    match r {
        GameResult::Victory => "Victory"@,
        GameResult::PyrrhicVictory => "Pyrrhic Victory"@,
        GameResult::Defeat => "Defeat"@,
    }
}

} // verus!
