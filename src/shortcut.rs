//! What a formatted key chord means for the application.
use vstd::prelude::*;

verus! {

/// The effect of a key chord.
#[derive(Debug, Clone, Copy, PartialEq, Eq, Structural)]
pub enum ShortcutOutcome {
    /// The chord is the capture shortcut: start a capture.
    Capture,
    /// A new shortcut is being listened for and this chord becomes it.
    Learn,
    /// Nothing to do.
    Ignore,
}

pub open spec fn shortcut_outcome_of(chord: Seq<char>, current: Seq<char>, listening: bool) -> ShortcutOutcome {
    if chord == current {
        ShortcutOutcome::Capture
    } else if listening && chord.len() > 0 {
        ShortcutOutcome::Learn
    } else {
        ShortcutOutcome::Ignore
    }
}

/// Decides what a formatted chord (empty for a key that forms none) does,
/// given the current shortcut and whether a new one is being listened for.
pub fn shortcut_outcome(chord: &String, current: &String, listening: bool) -> (r: ShortcutOutcome)
    ensures
        r == shortcut_outcome_of(chord@, current@, listening),
{
    if *chord == *current {
        ShortcutOutcome::Capture
    } else if listening && chord.unicode_len() > 0 {
        ShortcutOutcome::Learn
    } else {
        ShortcutOutcome::Ignore
    }
}

} // verus!
