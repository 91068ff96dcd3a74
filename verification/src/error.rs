//! Error values of the library.
//!
//! Every failure is a value; no library function panics.  Load-time errors
//! (`UnknownQuality`, `MalformedSkill`) are recoverable: the caller drops the
//! offending entry.  `SkillNotFound` is surfaced per skill when a check is
//! resolved and never aborts a batch of sibling resolutions.

use vstd::prelude::*;

verus! {

/// The error taxonomy of the library.
#[derive(Debug, PartialEq, Eq)]
pub enum Error {
    /// A textual alias did not name any of the fourteen qualities.
    UnknownQuality {
        /// The alias as it was given.
        token: String,
    },
    /// A skill definition did not reference exactly three qualities.
    MalformedSkill {
        /// The name of the offending skill definition.
        name: String,
    },
    /// A skill check was requested for a name absent from the catalog.
    SkillNotFound {
        /// The requested skill name as it was given.
        name: String,
    },
}

} // verus!
