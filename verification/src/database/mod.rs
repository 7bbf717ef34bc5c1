//! The kiln database: entities, aggregates, the rules of the mutation engine
//! and the SQLite-backed store.

pub mod entities;
pub mod error;
pub mod laws;
pub mod lexical;
pub mod program;
pub mod project;
pub mod ramp;
pub mod rows;
pub mod rules;
pub mod sqlite;
pub mod statements;
pub mod store;
pub mod values;

pub use entities::{
    FiringSequence, FiringSequenceView, FiringStep, FiringStepView, Kiln, KilnView, Project,
    ProjectFiringSteps, ProjectFiringStepsView, ProjectImage, ProjectImageView, ProjectView,
};
pub use error::{DatabaseError, DatabaseErrorView};
pub use program::{KilnProgram, KilnProgramView};
pub use project::{FiringView, KilnProject, KilnProjectView};
pub use ramp::RampRate;
pub use store::KilnDatabase;
