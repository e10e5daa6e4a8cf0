//! Core of a terminal-resident, tab-organized media browser and launcher.
//!
//! The crate verifies the pieces that decide behaviour: the circular
//! selection container behind every list in the interface, the queue that
//! merges keyboard and ticker events into one stream, the hierarchical
//! navigation state machine, the command-template substitution performed
//! before a player process is launched, and the construction and validation
//! of the tab set from configured descriptors. Reading the configuration,
//! scanning directories, drawing widgets and spawning the player are left to
//! an unverified shell around this crate.

pub mod builder;
pub mod event;
pub mod launch;
pub mod nav;
pub mod select_loop;
pub mod settings;
