//! The window background that a configured colour name selects.
use vstd::prelude::*;

use crate::text::{ascii_lower, equals_lowercased, lemma_ascii_lower_idempotent};

verus! {

/// A background that a colour name can select.
#[derive(Clone, Copy, Debug, PartialEq, Eq, Structural)]
pub enum Background {
    /// Solid green, for chroma keying the overlay.
    Green,
    /// No colour at all: the desktop shows through.
    Transparent,
}

/// The background that `name` selects, compared without regard to ASCII
/// case: `green` selects green, `none` selects transparency, and any other
/// name selects nothing, so that the current background stays.
pub open spec fn background_choice(name: Seq<char>) -> Option<Background> {
    if ascii_lower(name) == seq!['g', 'r', 'e', 'e', 'n'] {
        Some(Background::Green)
    } else if ascii_lower(name) == seq!['n', 'o', 'n', 'e'] {
        Some(Background::Transparent)
    } else {
        None
    }
}

/// The choice does not depend on ASCII case: a name and its lowercase form
/// select the same background.
pub proof fn lemma_background_ignores_case(name: Seq<char>)
    ensures
        background_choice(ascii_lower(name)) == background_choice(name),
{
    lemma_ascii_lower_idempotent(name);
}

/// The background selected by a configured colour name; `None` leaves the
/// window's background as it was.
pub fn background_for(name: &str) -> (r: Option<Background>)
    ensures
        r == background_choice(name@),
{
    proof {
        reveal_strlit("green");
        reveal_strlit("none");
        assert("green"@ =~= seq!['g', 'r', 'e', 'e', 'n']);
        assert("none"@ =~= seq!['n', 'o', 'n', 'e']);
    }
    if equals_lowercased(name, "green") {
        Some(Background::Green)
    } else if equals_lowercased(name, "none") {
        Some(Background::Transparent)
    } else {
        None
    }
}

} // verus!
