//! A pipeline of named stages that each work on one shared context.
//!
//! A pipeline is declared as a list of descriptors (a name and an argument
//! value). Stage types are registered under names; a run resolves each
//! descriptor in turn, constructs the stage from its arguments, sets it up
//! and lets it work on the context.

pub mod stage;
pub mod descriptor;
pub mod registry;
pub mod manager;
pub mod laws;

pub use descriptor::StageArgs;
pub use descriptor::StageFile;
pub use manager::StageManager;
pub use registry::Factory;
pub use registry::StageFactory;
pub use stage::FromArgs;
pub use stage::Outcome;
pub use stage::Stage;
pub use stage::StageError;
pub use stage::StageName;
