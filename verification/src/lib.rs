//! Adaptive form-field resolution and interaction engine.
//!
//! Given a target page and a profile record, the library decides which DOM
//! element corresponds to a semantic field, how to interact with that element,
//! and how to recover from failure by retrying alternative strategies and
//! selectors.  Browser control and the language-model oracle are external
//! collaborators: the library models every decision as a function from plain
//! state and events to the next action, and an unverified driver performs the
//! actions and feeds the results back.

pub mod engine;
pub mod models;
pub mod oracle;
pub mod orchestrator;
pub mod profile;
pub mod recovery;
pub mod resolver;
pub mod sys;
pub mod ui;
pub mod text;
pub mod validator;
