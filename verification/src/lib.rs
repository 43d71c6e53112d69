//! Dispatches a normalized verb (`build`, `run`, `test`) to the build tool
//! that owns a project directory, inferred from the marker files present.

use vstd::prelude::*;

pub mod catalog;
pub mod command;
pub mod resolve;
pub mod runner;

pub use catalog::Builders;
pub use command::BuilderCmd;
pub use command::Verb;
pub use resolve::Builder;
pub use resolve::PathStatus;
pub use resolve::ResolveError;
pub use resolve::discover;
pub use resolve::find;
pub use resolve::resolve;
pub use runner::ExecutionOutcome;
pub use runner::RunFailure;
pub use runner::RunnerEvent;
pub use runner::RunnerState;
pub use runner::is_terminal;
pub use runner::outcome;
pub use runner::step;

verus! {

} // verus!
