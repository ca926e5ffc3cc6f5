//! The font-ready watcher: it listens to font events and flips the readiness
//! of the text objects that ask for the font, so that the synchronizer looks
//! at them again. It never touches geometry.

use crate::object::{FontEvent, TextObject};
use vstd::prelude::*;

verus! {

/// Lets every object hear of every event, first event to last. An object is
/// changed only by the events that make its own font available or
/// unavailable.
pub fn font_loaded(events: &Vec<FontEvent>, objects: &mut Vec<TextObject>)
    ensures
        final(objects).len() == old(objects).len(),
        forall|i: int|
            0 <= i < old(objects).len() ==> (#[trigger] final(objects)[i])@ == old(
                objects,
            )[i]@.after_events(events@),
{
    let ghost before = objects@;
    let mut e: usize = 0;
    while e < events.len()
        invariant
            e <= events.len(),
            objects.len() == before.len(),
            forall|i: int|
                0 <= i < before.len() ==> (#[trigger] objects[i])@ == before[i]@.after_events(
                    events@.take(e as int),
                ),
        decreases events.len() - e,
    {
        let ghost seen = events@.take(e as int);
        let ghost next = events@.take(e + 1);
        assert(next.drop_last() == seen);
        assert(next.last() == events[e as int]);
        let mut o: usize = 0;
        while o < objects.len()
            invariant
                e < events.len(),
                o <= objects.len(),
                objects.len() == before.len(),
                next.len() > 0,
                next.drop_last() == seen,
                next.last() == events[e as int],
                forall|i: int|
                    0 <= i < o ==> (#[trigger] objects[i])@ == before[i]@.after_events(next),
                forall|i: int|
                    o <= i < before.len() ==> (#[trigger] objects[i])@
                        == before[i]@.after_events(seen),
            decreases objects.len() - o,
        {
            objects[o].font_event(&events[e]);
            o = o + 1;
        }
        e = e + 1;
    }
    assert(events@.take(events.len() as int) == events@);
}

} // verus!
