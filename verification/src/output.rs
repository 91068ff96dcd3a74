//! Output values handed to a formatter.
//!
//! Every result a command produces has its own variant.  Rendering — human
//! readable or structured — is the business of the surrounding program, not
//! of the library; an [`Output`] is a plain immutable record.

use vstd::prelude::*;

use crate::hero::Hero;
use crate::roll::RollOutcome;

verus! {

/// One result of a command, ready to be rendered.
#[derive(Debug)]
pub enum Output {
    /// The outcome of a dice roll for a certain skill.
    Roll(RollOutcome),
    /// A gauge reading taken during a session, e.g. health or stamina.
    Gauge {
        /// The name of the tracked property.
        name: String,
        /// The current value.
        current: isize,
        /// The maximum value.
        max: isize,
    },
    /// A dump of the whole hero.
    Dump(Hero),
}

} // verus!
