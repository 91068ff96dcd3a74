//! The commands of the tool, as the surrounding program plugs them in.
//!
//! Each command's decision logic lives here and in the modules re-exported
//! below; argument handling and rendering stay with the caller.

use vstd::prelude::*;

pub use crate::roll::Roll;
pub use crate::tracker::Health;
pub use crate::tracker::Tracker;

use crate::hero::Hero;
use crate::hero::same_hero;
use crate::output::Output;

verus! {

/// Dumps the hero, ready to be displayed by a formatter.  Really nothing
/// more to it than that.
pub struct Dump;

impl Dump {
    /// Emits the hero as an output value.
    pub fn call(&self, hero: &Hero) -> (o: Output)
        ensures
            o matches Output::Dump(h) && same_hero(h, *hero),
    {
        Output::Dump(hero.clone())
    }
}

} // verus!
