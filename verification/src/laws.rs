//! What holds of a text object's record over its whole life.
//!
//! A life is a sequence of ticks. In each tick the text may be edited, font
//! events may arrive, and then the synchronizer makes its pass over the
//! object, with the font resolving or not. The lemmas below are stated over
//! the same spec functions as the contracts of the executable code.

use crate::object::{FontEvent, TextObjectView};
use crate::state::{ReadinessView, WARNING_THRESHOLD};
use bevy::asset::HandleId;
use vstd::prelude::*;

verus! {

/// What happens to one object between two passes, and in the pass that
/// follows.
pub struct Tick {
    /// The font that the style asks for after an edit; `None` when the text
    /// and the style were left alone.
    pub edit: Option<HandleId>,
    /// The font events that the watcher saw.
    pub events: Seq<FontEvent>,
    /// Whether the font store resolves the object's font in the pass.
    pub font_resolves: bool,
}

/// The record as the pass of tick `t` finds it.
pub open spec fn before_pass(o: TextObjectView, t: Tick) -> TextObjectView {
    let edited = match t.edit {
        Some(font) => o.after_edit(font),
        None => o,
    };
    edited.after_events(t.events)
}

/// The record after tick `t`.
pub open spec fn after_tick(o: TextObjectView, t: Tick) -> TextObjectView {
    before_pass(o, t).after_pass(t.font_resolves)
}

/// Whether the pass of tick `t` finds the object changed and its font
/// unresolved, and so skips it.
pub open spec fn skips_in(o: TextObjectView, t: Tick) -> bool {
    before_pass(o, t).needs_sync() && !t.font_resolves
}

/// Whether the pass of tick `t` asks for the diagnostic.
pub open spec fn warns_in(o: TextObjectView, t: Tick) -> bool {
    skips_in(o, t) && before_pass(o, t).state.warns_when_missing()
}

/// The record after `ticks`, first to last.
pub open spec fn after_ticks(o: TextObjectView, ticks: Seq<Tick>) -> TextObjectView
    decreases ticks.len(),
{
    if ticks.len() == 0 {
        o
    } else {
        after_tick(after_ticks(o, ticks.drop_last()), ticks.last())
    }
}

/// In how many of `ticks` the pass skips the object.
pub open spec fn skips(o: TextObjectView, ticks: Seq<Tick>) -> nat
    decreases ticks.len(),
{
    if ticks.len() == 0 {
        0
    } else {
        skips(o, ticks.drop_last()) + if skips_in(
            after_ticks(o, ticks.drop_last()),
            ticks.last(),
        ) {
            1nat
        } else {
            0nat
        }
    }
}

/// In how many of `ticks` the pass asks for the diagnostic.
pub open spec fn warnings(o: TextObjectView, ticks: Seq<Tick>) -> nat
    decreases ticks.len(),
{
    if ticks.len() == 0 {
        0
    } else {
        warnings(o, ticks.drop_last()) + if warns_in(
            after_ticks(o, ticks.drop_last()),
            ticks.last(),
        ) {
            1nat
        } else {
            0nat
        }
    }
}

/// Whether the passes that skip the object in `ticks` take its counter over
/// the threshold.
pub open spec fn crosses_threshold(o: TextObjectView, ticks: Seq<Tick>) -> bool {
    skips(o, ticks) > 0 && o.state.warning_trigger_count + skips(o, ticks) > WARNING_THRESHOLD
}

/// Font events change what is known of the font and nothing else: the
/// counter and the latch of the diagnostic stay as they are, and so does the
/// font that the object asks for.
pub proof fn lemma_events_leave_the_throttle(o: TextObjectView, events: Seq<FontEvent>)
    ensures
        o.after_events(events).font == o.font,
        o.after_events(events).text_changed == o.text_changed,
        o.after_events(events).state.warning_trigger_count == o.state.warning_trigger_count,
        o.after_events(events).state.warning_shown == o.state.warning_shown,
        o.state_changed ==> o.after_events(events).state_changed,
    decreases events.len(),
{
    if events.len() > 0 {
        lemma_events_leave_the_throttle(o, events.drop_last());
    }
}

/// An object is changed only by the events that make its own font available
/// or unavailable. Events about other fonts, and events that only say that a
/// font was touched, leave it exactly as it was.
pub proof fn lemma_unrelated_events_change_nothing(o: TextObjectView, events: Seq<FontEvent>)
    requires
        forall|k: int|
            0 <= k < events.len() ==> (#[trigger] events[k]).availability_of(o.font) is None,
    ensures
        o.after_events(events) == o,
    decreases events.len(),
{
    if events.len() > 0 {
        lemma_unrelated_events_change_nothing(o, events.drop_last());
    }
}

/// An event that makes the object's font available or unavailable is
/// recorded in the readiness state and schedules the object for the next
/// pass.
pub proof fn lemma_font_event_schedules_a_pass(o: TextObjectView, event: FontEvent)
    requires
        event.availability_of(o.font) is Some,
    ensures
        o.after_event(event).state.font_loaded == event.availability_of(o.font),
        o.after_event(event).needs_sync(),
{
}

/// Two passes in a row with nothing in between: the second finds nothing to
/// do and leaves the record as the first left it.
pub proof fn lemma_second_pass_is_idle(o: TextObjectView, first: bool, second: bool)
    ensures
        !o.after_pass(first).needs_sync(),
        o.after_pass(first).after_pass(second) == o.after_pass(first),
{
}

/// The counter of skipped attempts is the number of passes that found the
/// object changed and its font unresolved, whatever else happened in
/// between.
pub proof fn lemma_count_is_number_of_skips(o: TextObjectView, ticks: Seq<Tick>)
    ensures
        after_ticks(o, ticks).state.warning_trigger_count == o.state.warning_trigger_count
            + skips(o, ticks),
    decreases ticks.len(),
{
    if ticks.len() > 0 {
        let earlier = ticks.drop_last();
        let t = ticks.last();
        lemma_count_is_number_of_skips(o, earlier);
        let reached = after_ticks(o, earlier);
        let edited = match t.edit {
            Some(font) => reached.after_edit(font),
            None => reached,
        };
        lemma_events_leave_the_throttle(edited, t.events);
    }
}

/// The diagnostic is asked for at most once in an object's life: in the
/// first skipping pass that takes the counter over the threshold, unless it
/// had been shown before. From then on the latch stays set.
pub proof fn lemma_warning_fires_once(o: TextObjectView, ticks: Seq<Tick>)
    ensures
        warnings(o, ticks) <= 1,
        warnings(o, ticks) == 1 <==> !o.state.warning_shown && crosses_threshold(o, ticks),
        after_ticks(o, ticks).state.warning_shown <==> o.state.warning_shown
            || crosses_threshold(o, ticks),
    decreases ticks.len(),
{
    if ticks.len() > 0 {
        let earlier = ticks.drop_last();
        let t = ticks.last();
        lemma_warning_fires_once(o, earlier);
        lemma_count_is_number_of_skips(o, earlier);
        let reached = after_ticks(o, earlier);
        let edited = match t.edit {
            Some(font) => reached.after_edit(font),
            None => reached,
        };
        lemma_events_leave_the_throttle(edited, t.events);
    }
}

/// For an object that starts out new: the diagnostic has been asked for
/// exactly once as soon as six passes have skipped it, and not before.
pub proof fn lemma_new_object_warns_at_sixth_skip(font: HandleId, ticks: Seq<Tick>)
    ensures
        warnings(TextObjectView::created(font), ticks) <= 1,
        warnings(TextObjectView::created(font), ticks) == 1 <==> skips(
            TextObjectView::created(font),
            ticks,
        ) >= 6,
        after_ticks(TextObjectView::created(font), ticks).state.warning_shown <==> skips(
            TextObjectView::created(font),
            ticks,
        ) >= 6,
{
    lemma_warning_fires_once(TextObjectView::created(font), ticks);
}

/// The latch is set only above the threshold: this holds of a new record and
/// is kept by every tick.
pub proof fn lemma_latch_only_above_threshold(o: TextObjectView, ticks: Seq<Tick>)
    requires
        o.state.inv(),
    ensures
        ReadinessView::initial().inv(),
        after_ticks(o, ticks).state.inv(),
{
    lemma_warning_fires_once(o, ticks);
    lemma_count_is_number_of_skips(o, ticks);
}

} // verus!
