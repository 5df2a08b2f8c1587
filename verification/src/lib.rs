//! An engine for testing interactive command-line programs.
//!
//! A [`Scenario`] is a command line and an ordered list of acts: texts that
//! the program is expected to print, lines that are sent to it, and the exit
//! status that it is expected to end with. A run takes the scenario through
//! its acts against a live process and ends in a verdict.
//!
//! The scenario itself never touches a process. It asks for one [`Action`]
//! at a time and is told what came of it in a [`SessionReply`]; whoever owns
//! the process session performs the actions. So the whole of the run is a
//! function of the scenario and of the replies, and that function is what
//! this crate states and proves.

pub mod act;
pub mod engine;
pub mod lemmas;
pub mod scenario;
pub mod session;
pub mod text;

pub use act::{Act, ActKind, ExpectedValue};
pub use engine::Phase;
pub use scenario::{clix, Scenario, ScenarioResult};
pub use session::{Action, Failure, SessionReply};
pub use text::{text_matches, trim_text};
