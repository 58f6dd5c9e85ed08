pub mod text;
pub mod error;
pub mod paths;
pub mod ignore;
pub mod manifest;
pub mod store;
pub mod report;
pub mod operator;
pub mod orchestrator;
pub mod archive;

pub use error::DotfilesError;
pub use ignore::{DotIgnore, DotIgnoreSource};
pub use manifest::{Distribution, ExtraKey, NamedSection, Section};
pub use operator::{FileManager, FilePair};
pub use paths::FilePaths;
pub use report::{Report, Severity};
pub use store::{DistributionParser, DistributionSource};
