//! Verified core of a container-image build orchestrator.
//!
//! The library renders a two-stage image-build description from a
//! validated configuration, constructs the argument lists for the
//! container build engine's build and publish invocations under a
//! selectable cache mode, and maps a child process's termination to a
//! typed result. All file and process handling stays with the caller:
//! the functions here are pure, and their contracts pin every byte of
//! the text and every token of the argument lists they produce.

pub mod config;
pub mod docker;
pub mod template;

pub use config::BuildError;
pub use config::ConfigField;
pub use config::ContainerBuildConfig;
pub use docker::BuildPlan;
pub use docker::CacheMode;
pub use docker::ProcessOutcome;
