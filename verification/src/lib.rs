//! The core of DSH Desktop, a desktop shell around the `dsh web` service:
//! version parsing and ordering, the startup sequence of the service, the
//! update check and upgrade, window-close behaviour, and the text that goes
//! into the shell page's URL. The application around it performs the I/O
//! that these modules ask for.
use vstd::prelude::*;

pub mod text;
pub mod version;
pub mod encode;
pub mod prefs;
pub mod state;
pub mod service;
pub mod shell;
pub mod startup;
pub mod update;

verus! {

/// How a startup sequence was triggered.
pub enum StartKind {
    Boot,
    Retry,
    Upgrade,
}

} // verus!
