//! Onboarding wizard state: a versioned status document, a JSON codec for it,
//! a store adapter with defaulting on read failure, and the completion
//! orchestrator that reconciles the wizard store with the relational
//! settings store.

mod clock;
pub mod codec;
pub mod commands;
pub mod complete;
pub mod status;
pub mod store;

pub use status::ModelState;
pub use status::ModelStatus;
pub use status::OnboardingStatus;
