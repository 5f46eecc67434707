//! Composable build steps: tasks that run in parallel pairs and numbered
//! stages, with failures that keep every branch's diagnostics.
pub mod bundle;
pub mod command;
pub mod compiler;
pub mod diagnostic;
pub mod failure;
pub mod framework;
pub mod html;
pub mod lint;
pub mod log;
pub mod logger;
pub mod process;
pub mod rules;
pub mod saucer;
pub mod text;
pub mod timer;
