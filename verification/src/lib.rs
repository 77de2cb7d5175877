//! Lifecycle coordination for a remote-control audio-streaming client.
//!
//! The crate decides; a driver acts. The [`orchestrator::Orchestrator`] keeps
//! track of one pending connect attempt, one control handle/task pair and the
//! two-stage shutdown handshake. It tells its driver which event source to
//! poll next, takes the outcome of that poll as an [`lifecycle::Event`], and
//! answers with the [`lifecycle::Action`]s the driver has to carry out.
//! [`laws`] states what holds of every lifecycle, and [`driver`] is the model
//! of the driver that the laws speak of.
//!
//! The configuration that the program starts with comes from the command
//! line: [`settings::setup`] parses the arguments with `getopts` and derives
//! the [`settings::Settings`], and [`logging::log_plan`] chooses the log
//! filter.

pub mod command_line;
pub mod driver;
pub mod error;
pub mod getopts_spec;
pub mod laws;
pub mod lifecycle;
pub mod logging;
pub mod orchestrator;
pub mod settings;
