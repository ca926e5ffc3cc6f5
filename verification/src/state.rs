//! The readiness state of one text object.
//!
//! It records what the font-ready watcher last heard of the object's font,
//! and it throttles the diagnostic for a font that never resolves: the
//! synchronizer counts every pass in which it had to skip the object, and
//! asks for the diagnostic once, when the count first exceeds
//! [`WARNING_THRESHOLD`].

use vstd::prelude::*;

verus! {

/// Number of skipped passes an object may accumulate before the missing-font
/// diagnostic is due.
pub const WARNING_THRESHOLD: usize = 5;

/// The text of the one-time diagnostic for an object whose font never resolves.
pub const FONT_MISSING_WARNING: &'static str =
    "font mesh not found - did you load the font using #mesh label (`asset_server.load('font.ttf#mesh'))`";

/// Mathematical model of a [`TextMeshState`].
pub struct ReadinessView {
    /// What is known of the font: `None` while nothing was heard of it,
    /// `Some(true)` once it became available, `Some(false)` once it was
    /// taken away.
    pub font_loaded: Option<bool>,
    /// How many passes skipped the object because its font did not resolve.
    pub warning_trigger_count: nat,
    /// Whether the diagnostic has been asked for.
    pub warning_shown: bool,
}

impl ReadinessView {
    /// The state of a new object.
    pub open spec fn initial() -> ReadinessView {
        ReadinessView { font_loaded: None, warning_trigger_count: 0, warning_shown: false }
    }

    /// The diagnostic is asked for only above the threshold.
    pub open spec fn inv(self) -> bool {
        self.warning_shown ==> self.warning_trigger_count > WARNING_THRESHOLD
    }

    /// Whether the next skipped pass asks for the diagnostic.
    pub open spec fn warns_when_missing(self) -> bool {
        !self.warning_shown && self.warning_trigger_count + 1 > WARNING_THRESHOLD
    }

    /// The state after one more skipped pass.
    pub open spec fn after_missing(self) -> ReadinessView {
        ReadinessView {
            font_loaded: self.font_loaded,
            warning_trigger_count: self.warning_trigger_count + 1,
            warning_shown: self.warning_shown || self.warning_trigger_count + 1
                > WARNING_THRESHOLD,
        }
    }

    /// The state after the watcher heard that the font is available
    /// (`loaded`) or not.
    pub open spec fn with_font_loaded(self, loaded: bool) -> ReadinessView {
        ReadinessView { font_loaded: Some(loaded), ..self }
    }
}

/// Readiness state of one text object. It is created with the object and
/// changed only by the synchronizer and the font-ready watcher.
#[derive(Debug, Clone, Copy)]
pub struct TextMeshState {
    font_loaded: Option<bool>,
    warning_trigger_count: usize,
    warning_shown: bool,
}

impl View for TextMeshState {
    type V = ReadinessView;

    closed spec fn view(&self) -> ReadinessView {
        ReadinessView {
            font_loaded: self.font_loaded,
            warning_trigger_count: self.warning_trigger_count as nat,
            warning_shown: self.warning_shown,
        }
    }
}

impl Default for TextMeshState {
    /// The state of a new object: nothing is known of the font, nothing was
    /// skipped, nothing was shown.
    fn default() -> (state: TextMeshState)
        ensures
            state@ == ReadinessView::initial(),
    {
        TextMeshState { font_loaded: None, warning_trigger_count: 0, warning_shown: false }
    }
}

impl TextMeshState {
    #[verifier::type_invariant]
    closed spec fn well_formed(self) -> bool {
        self@.inv()
    }

    /// What is known of the font.
    pub fn font_loaded(&self) -> (loaded: Option<bool>)
        ensures
            loaded == self@.font_loaded,
    {
        self.font_loaded
    }

    /// How many passes skipped the object because its font did not resolve.
    pub fn warning_trigger_count(&self) -> (count: usize)
        ensures
            count == self@.warning_trigger_count,
    {
        self.warning_trigger_count
    }

    /// Whether the diagnostic has been asked for. Where it has, the count is
    /// above the threshold.
    pub fn warning_shown(&self) -> (shown: bool)
        ensures
            shown == self@.warning_shown,
            self@.inv(),
    {
        proof {
            use_type_invariant(self);
        }
        self.warning_shown
    }

    /// Records what the watcher heard of the font. The throttle of the
    /// diagnostic is left alone.
    pub fn set_font_loaded(&mut self, loaded: bool)
        ensures
            final(self)@ == old(self)@.with_font_loaded(loaded),
    {
        proof {
            use_type_invariant(&*self);
        }
        self.font_loaded = Some(loaded);
    }

    /// Counts one pass that skipped the object because its font did not
    /// resolve, and tells whether the diagnostic is due now. It is due in
    /// the pass that takes the count over the threshold, and never again.
    pub fn record_missing_font(&mut self) -> (warn: bool)
        requires
            old(self)@.warning_trigger_count < usize::MAX,
        ensures
            final(self)@ == old(self)@.after_missing(),
            warn == old(self)@.warns_when_missing(),
    {
        proof {
            use_type_invariant(&*self);
        }
        self.warning_trigger_count = self.warning_trigger_count + 1;
        if self.warning_trigger_count > WARNING_THRESHOLD && !self.warning_shown {
            self.warning_shown = true;
            true
        } else {
            false
        }
    }
}

} // verus!
