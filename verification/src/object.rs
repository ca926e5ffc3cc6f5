//! The record kept for each text object: which font it asks for, how ready
//! that font is, and whether anything changed since the last pass.

use crate::state::{ReadinessView, TextMeshState};
use bevy::asset::HandleId;
use vstd::prelude::*;

verus! {

/// bevy's asset id, carried as an opaque value. A font is referred to by the
/// id of its handle.
#[verifier::external_type_specification]
#[verifier::external_body]
pub struct ExHandleId(HandleId);

/// `==` on `HandleId`, which bevy derives: two ids are equal exactly when
/// they are the same id.
#[verifier::external_body]
fn same_id(a: &HandleId, b: &HandleId) -> (same: bool)
    ensures
        same == (*a == *b),
{
    a == b
}

/// A change in the life of a font asset.
#[derive(Debug, Clone, Copy)]
pub enum FontEvent {
    /// The font became available.
    Created { font: HandleId },
    /// The font was touched; its availability did not change.
    Modified { font: HandleId },
    /// The font became unavailable.
    Removed { font: HandleId },
}

impl FontEvent {
    /// What the event says about the availability of `font`: `Some(true)`
    /// when it made that font available, `Some(false)` when it took it away,
    /// `None` when it says nothing about it.
    pub open spec fn availability_of(self, font: HandleId) -> Option<bool> {
        match self {
            FontEvent::Created { font: f } => if f == font {
                Some(true)
            } else {
                None
            },
            FontEvent::Removed { font: f } => if f == font {
                Some(false)
            } else {
                None
            },
            FontEvent::Modified { .. } => None,
        }
    }

    /// Executable form of [`FontEvent::availability_of`].
    pub fn availability(&self, font: &HandleId) -> (loaded: Option<bool>)
        ensures
            loaded == self.availability_of(*font),
    {
        match self {
            FontEvent::Created { font: f } => if same_id(f, font) {
                Some(true)
            } else {
                None
            },
            FontEvent::Removed { font: f } => if same_id(f, font) {
                Some(false)
            } else {
                None
            },
            FontEvent::Modified { .. } => None,
        }
    }
}

/// Mathematical model of a [`TextObject`].
pub struct TextObjectView {
    /// The font that the style asks for.
    pub font: HandleId,
    /// The readiness state.
    pub state: ReadinessView,
    /// Whether the text or the style was edited since the last pass.
    pub text_changed: bool,
    /// Whether the watcher heard of the font since the last pass.
    pub state_changed: bool,
}

impl TextObjectView {
    /// A record as it is created with its text object: nothing is known of
    /// the font, and the object counts as changed.
    pub open spec fn created(font: HandleId) -> TextObjectView {
        TextObjectView {
            font,
            state: ReadinessView::initial(),
            text_changed: true,
            state_changed: true,
        }
    }

    /// The scheduling condition of the synchronizer: the text declaration or
    /// the readiness state changed since the last pass.
    pub open spec fn needs_sync(self) -> bool {
        self.text_changed || self.state_changed
    }

    /// The record once a pass has consumed its changes.
    pub open spec fn synced(self) -> TextObjectView {
        TextObjectView { text_changed: false, state_changed: false, ..self }
    }

    /// The record after its text or style was edited; `font` is the font the
    /// style now asks for.
    pub open spec fn after_edit(self, font: HandleId) -> TextObjectView {
        TextObjectView { font, text_changed: true, ..self }
    }

    /// The record after a pass in which the font did not resolve.
    pub open spec fn after_missing(self) -> TextObjectView {
        TextObjectView { state: self.state.after_missing(), ..self }
    }

    /// The record after one synchronizer pass. An object that did not change
    /// is left alone. One that changed is marked as seen, and where its font
    /// did not resolve the skipped attempt is counted.
    pub open spec fn after_pass(self, font_resolves: bool) -> TextObjectView {
        if !self.needs_sync() {
            self
        } else if font_resolves {
            self.synced()
        } else {
            self.after_missing().synced()
        }
    }

    /// The record after the watcher saw `event`.
    pub open spec fn after_event(self, event: FontEvent) -> TextObjectView {
        match event.availability_of(self.font) {
            Some(loaded) => TextObjectView {
                state: self.state.with_font_loaded(loaded),
                state_changed: true,
                ..self
            },
            None => self,
        }
    }

    /// The record after the watcher saw `events`, first to last.
    pub open spec fn after_events(self, events: Seq<FontEvent>) -> TextObjectView
        decreases events.len(),
    {
        if events.len() == 0 {
            self
        } else {
            self.after_events(events.drop_last()).after_event(events.last())
        }
    }
}

/// The record kept beside a text object.
#[derive(Debug, Clone, Copy)]
pub struct TextObject {
    font: HandleId,
    state: TextMeshState,
    text_changed: bool,
    state_changed: bool,
}

impl View for TextObject {
    type V = TextObjectView;

    closed spec fn view(&self) -> TextObjectView {
        TextObjectView {
            font: self.font,
            state: self.state@,
            text_changed: self.text_changed,
            state_changed: self.state_changed,
        }
    }
}

impl TextObject {
    /// The record for a new text object whose style asks for `font`.
    pub fn new(font: HandleId) -> (object: TextObject)
        ensures
            object@ == TextObjectView::created(font),
    {
        TextObject {
            font,
            state: TextMeshState::default(),
            text_changed: true,
            state_changed: true,
        }
    }

    /// The font that the style asks for.
    pub fn font(&self) -> (font: HandleId)
        ensures
            font == self@.font,
    {
        self.font
    }

    /// The readiness state.
    pub fn state(&self) -> (state: &TextMeshState)
        ensures
            state@ == self@.state,
    {
        &self.state
    }

    /// Whether the text or the style was edited since the last pass.
    pub fn text_changed(&self) -> (changed: bool)
        ensures
            changed == self@.text_changed,
    {
        self.text_changed
    }

    /// Whether the watcher heard of the font since the last pass.
    pub fn state_changed(&self) -> (changed: bool)
        ensures
            changed == self@.state_changed,
    {
        self.state_changed
    }

    /// Whether the next synchronizer pass has to look at this object.
    pub fn needs_sync(&self) -> (needed: bool)
        ensures
            needed == self@.needs_sync(),
    {
        self.text_changed || self.state_changed
    }

    /// Records that the text or the style was edited; `font` is the font the
    /// style now asks for.
    pub fn edit(&mut self, font: HandleId)
        ensures
            final(self)@ == old(self)@.after_edit(font),
    {
        self.font = font;
        self.text_changed = true;
    }

    /// Consumes the changes: tells whether the object had changed, and marks
    /// it as seen.
    pub fn take_changes(&mut self) -> (changed: bool)
        ensures
            changed == old(self)@.needs_sync(),
            final(self)@ == old(self)@.synced(),
    {
        let changed = self.text_changed || self.state_changed;
        self.text_changed = false;
        self.state_changed = false;
        changed
    }

    /// Counts one pass in which the font did not resolve, and tells whether
    /// the diagnostic is due now.
    pub fn record_missing_font(&mut self) -> (warn: bool)
        requires
            old(self)@.state.warning_trigger_count < usize::MAX,
        ensures
            final(self)@ == old(self)@.after_missing(),
            warn == old(self)@.state.warns_when_missing(),
    {
        self.state.record_missing_font()
    }

    /// Lets the record hear of one font event.
    pub fn font_event(&mut self, event: &FontEvent)
        ensures
            final(self)@ == old(self)@.after_event(*event),
    {
        match event.availability(&self.font) {
            Some(loaded) => {
                self.state.set_font_loaded(loaded);
                self.state_changed = true;
            },
            None => {},
        }
    }
}

} // verus!
