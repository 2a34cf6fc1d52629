//! The button poll step: the decision half of the physical-button input.
//! The poll loop samples the pin level on every tick; a press must count
//! exactly once, on the first high sample that follows a release, however
//! long the button is held. The loop carries one flag — whether a release
//! has been seen since the last counted press — and this step advances it.

use vstd::prelude::*;

verus! {

/// What one poll tick does with the sampled level: a high level after a
/// release counts the press (and arms again only after a release); a low
/// level records the release; a held-high level does nothing.
pub open spec fn spec_button_step(released: bool, level_high: bool) -> (bool, bool) {
    if level_high && released {
        (false, true)
    } else if !level_high {
        (true, false)
    } else {
        (released, false)
    }
}

/// Advances the poll loop's released-flag for one sampled pin level.
/// Returns the new flag and whether this tick counts as a press.
pub fn button_step(released: bool, level_high: bool) -> (r: (bool, bool))
    ensures
        r == spec_button_step(released, level_high),
{
    if level_high && released {
        (false, true)
    } else if !level_high {
        (true, false)
    } else {
        (released, false)
    }
}

/// A held button never counts twice: the second of two consecutive high
/// samples never counts a press, and a low sample always re-arms.
pub proof fn lemma_press_counts_once(released: bool)
    ensures
        !spec_button_step(spec_button_step(released, true).0, true).1,
        spec_button_step(released, false).0,
{
}

} // verus!
