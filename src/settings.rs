//! The one setting read at start-up: whether background music plays.

use vstd::prelude::*;

verus! {

/// The value that switches the music on.
pub open spec fn music_on_word() -> Seq<char> {
    seq!['t', 'r', 'u', 'e']
}

/// Decides from the raw value of the `music_enabled` setting whether the
/// background music is started: only the exact word `true` switches it on.
pub fn music_enabled(value: &str) -> (r: bool)
    ensures
        r == (value@ == music_on_word()),
{
    let given: String = value.to_owned();
    let on: String = "true".to_owned();
    proof {
        reveal_strlit("true");
        assert(on@ =~= music_on_word());
    }
    given == on
}

} // verus!
