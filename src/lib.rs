//! Plugin composition and conditional bootstrap for an application shell.
//!
//! A [`Builder`] collects plugin descriptors in registration order and rejects
//! duplicate identities. Building it yields a [`Bootstrap`], a state machine
//! that tells its driver which plugin initializer to run next, whether the
//! platform's setup needs a mobile-only attachment, and finally whether to
//! enter the run loop or report a fatal failure. The module `laws` states and
//! proves how these fit together over a whole run.
pub mod error;
pub mod laws;
pub mod machine;
pub mod platform;
pub mod registry;

pub use error::{BootstrapError, ErrorModel, FailureStage};
pub use machine::{Bootstrap, BootstrapModel, Phase, Step};
pub use platform::{PlatformClass, SetupStrategy};
pub use registry::{Builder, BuilderModel, PluginDescriptor};
