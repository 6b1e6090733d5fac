//! Round prompt scheduler for a board-game companion.
//!
//! Each game round the scheduler assembles the canonical list of prompts
//! (actions the player must perform on the physical board) and applies a
//! bounded random reordering that never violates the causal dependencies
//! between prompts: a location's die must be rolled before units are added
//! to it, before interceptors are assigned to it, and before it takes part
//! in a swap.

pub mod domain;
pub mod prompt;
pub mod randomness;
pub mod resolution;
pub mod rules;
pub mod schedule;
pub mod setup;

pub use domain::Continent;
pub use domain::GameResult;
pub use domain::PanicLevel;
pub use prompt::TimedPhasePrompt;
pub use randomness::random_continent;
pub use resolution::ResolutionPhasePrompt;
pub use rules::RulebookSection;
pub use schedule::compose_round_prompts;
pub use schedule::generate_timed_phase_prompts;
pub use schedule::num_shifts_for_leftover;
pub use schedule::shift_prompts;
pub use setup::SetupStep;
