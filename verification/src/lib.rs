//! A task-urgency engine for a command-line todo client.
//!
//! Tasks fetched from a remote task-management service carry an optional due
//! date in one of two string shapes: a plain calendar date or a combined
//! date-and-time, optionally recurring and optionally pinned to a named
//! timezone.  This crate classifies those due dates, answers the temporal
//! predicates ("due today", "overdue"), computes an integer urgency score,
//! and sorts and filters task collections by those values.  Everything is a
//! pure function of the task list, a caller-supplied "now" instant (seconds
//! since the Unix epoch) and a configured default timezone; the engine never
//! reads a clock of its own.

pub mod args;
pub mod cfg;
pub mod config;
pub mod config_old;
pub mod dates;
pub mod items;
pub mod laws;
pub mod parse;
pub mod render;
pub mod text;
pub mod zones;
