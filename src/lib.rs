//! A client-side cache for one configuration value held in a document store.
//!
//! The library holds the decisions: the single-flight value cell, the
//! change-feed watch loop as a state machine, the filter on change events and
//! the mapping of a lookup's outcome. The caller performs the store I/O and
//! hands the outcomes back as plain values.
use vstd::prelude::*;

pub mod cell;
pub mod error;
pub mod handler;
pub mod watch;
