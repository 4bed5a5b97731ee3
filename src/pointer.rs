//! The pointer samples that arrive during a frame, and the one that places
//! the sprite.
use vstd::prelude::*;

verus! {

/// One observed input event: a move of the pointer to a position `P`, or
/// any other event (a key, a button, a wheel).
#[derive(Clone, Copy, Debug)]
pub enum PointerSample<P> {
    Move(P),
    Other,
}

/// The position of the last move among `s`, if any sample is a move.
pub open spec fn last_move<P>(s: Seq<PointerSample<P>>) -> Option<P>
    decreases s.len(),
{
    if s.len() == 0 {
        None
    } else {
        match s.last() {
            PointerSample::Move(p) => Some(p),
            PointerSample::Other => last_move(s.drop_last()),
        }
    }
}

/// The position the sprite follows after the samples of a frame, in the
/// order they came: each move replaces the one before, so the last move
/// wins; with no move at all the sprite stays where it is (`None`).
pub fn latest_move<P: Copy>(samples: &[PointerSample<P>]) -> (r: Option<P>)
    ensures
        r == last_move(samples@),
{
    let mut found: Option<P> = None;
    let mut i: usize = 0;
    while i < samples.len()
        invariant
            i <= samples@.len(),
            found == last_move(samples@.subrange(0, i as int)),
        decreases samples@.len() - i,
    {
        proof {
            assert(samples@.subrange(0, i + 1).drop_last() =~= samples@.subrange(0, i as int));
        }
        match &samples[i] {
            PointerSample::Move(p) => {
                found = Some(*p);
            },
            PointerSample::Other => {},
        }
        i = i + 1;
    }
    proof {
        assert(samples@.subrange(0, samples@.len() as int) =~= samples@);
    }
    found
}

} // verus!
