//! The live application state and its transition rules.
//!
//! `ClassNotes` is the single mutable root of the application: it is built
//! once at startup (see [`crate::codec`] for the load/save contract), is
//! mutated synchronously inside the per-frame render callback, and is
//! serialized once at shutdown.

use vstd::prelude::*;

verus! {

/// Top-level view selector: whether the notes side panel and the page
/// system are active.
#[allow(non_camel_case_types)]
#[derive(Clone, Copy, Debug, PartialEq, Eq, Structural)]
pub enum Mode {
    NONE,
    NOTES,
}

/// Sub-view selector for the main content area.  Its value is kept when
/// the mode changes, but it has no visible effect while `mode` is
/// `Mode::NONE`.
#[allow(non_camel_case_types)]
#[derive(Clone, Copy, Debug, PartialEq, Eq, Structural)]
pub enum Page {
    NONE,
    KthSmallestIntro,
}

/// The numeric control's compiled-in default, in tenths of a unit (3.1).
///
/// The control itself works in tenths so that the state and its contracts
/// stay exact; the rendering edge turns tenths into the toolkit's floating
/// display value and back.
pub const DEFAULT_VALUE_TENTHS: u32 = 31;

/// One click of the increment control adds a whole unit, i.e. ten tenths.
pub const VALUE_INCREMENT_TENTHS: u32 = 10;

/// The slider's upper bound, in tenths (the displayed range is 0 to 10).
/// Repeated increments may push the value past this bound; only the
/// slider itself is confined to it.
pub const VALUE_SLIDER_MAX_TENTHS: u32 = 100;

/// The default text of the editable label.
pub open spec fn default_label() -> Seq<char> {
    "Hello World!"@
}

/// The single live-and-persisted application state.
///
/// `label`, `mode` and `page` are durable; `value_tenths` is transient and
/// restarts at [`DEFAULT_VALUE_TENTHS`] every process start.
pub struct ClassNotes {
    /// Free-form user text, edited through the side panel.
    pub label: String,
    /// Transient numeric control value, in tenths of a unit.
    pub value_tenths: u32,
    /// Top-level view selector.
    pub mode: Mode,
    /// Sub-view selector for the main content area.
    pub page: Page,
}

impl ClassNotes {
    /// The compiled-in default state: notes mode, welcome page, default
    /// label and default value.
    pub open spec fn is_default(self) -> bool {
        &&& self.label@ == default_label()
        &&& self.value_tenths == DEFAULT_VALUE_TENTHS
        &&& self.mode == Mode::NOTES
        &&& self.page == Page::NONE
    }

    /// Toolbar mode selection.  Returns whether an immediate redraw must
    /// be requested from the host runtime: only an actual change of mode
    /// asks for one, so selecting the already-active mode is a no-op.
    pub fn select_mode(&mut self, m: Mode) -> (redraw: bool)
        ensures
            final(self).mode == m,
            final(self).label == old(self).label,
            final(self).value_tenths == old(self).value_tenths,
            final(self).page == old(self).page,
            redraw == (m != old(self).mode),
            m == old(self).mode ==> *final(self) == *old(self),
    {
        if m != self.mode {
            self.mode = m;
            true
        } else {
            false
        }
    }

    /// Side-panel navigation: selecting a topic link sets the page.  The
    /// transition is one-way; nothing ever resets the page automatically.
    pub fn set_page(&mut self, p: Page)
        ensures
            final(self).page == p,
            final(self).label == old(self).label,
            final(self).value_tenths == old(self).value_tenths,
            final(self).mode == old(self).mode,
    {
        self.page = p;
    }

    /// An edit of the free-text input replaces the label wholesale.
    pub fn set_label(&mut self, text: String)
        ensures
            final(self).label == text,
            final(self).value_tenths == old(self).value_tenths,
            final(self).mode == old(self).mode,
            final(self).page == old(self).page,
    {
        self.label = text;
    }

    /// The bounded numeric control writes a value within the slider's
    /// displayed range.
    pub fn set_value_tenths(&mut self, tenths: u32)
        requires
            tenths <= VALUE_SLIDER_MAX_TENTHS,
        ensures
            final(self).value_tenths == tenths,
            final(self).label == old(self).label,
            final(self).mode == old(self).mode,
            final(self).page == old(self).page,
    {
        self.value_tenths = tenths;
    }

    /// The increment control adds one whole unit.  It enforces no upper
    /// clamp, so the value can grow past the slider's displayed range;
    /// only the machine's integer width bounds it.
    pub fn increment_value(&mut self)
        requires
            old(self).value_tenths + VALUE_INCREMENT_TENTHS <= u32::MAX,
        ensures
            final(self).value_tenths == old(self).value_tenths + VALUE_INCREMENT_TENTHS,
            final(self).label == old(self).label,
            final(self).mode == old(self).mode,
            final(self).page == old(self).page,
    {
        self.value_tenths = self.value_tenths + VALUE_INCREMENT_TENTHS;
    }
}

impl Default for ClassNotes {
    /// The compiled-in default state.
    fn default() -> (s: Self)
        ensures
            s.is_default(),
    {
        ClassNotes {
            label: "Hello World!".to_owned(),
            value_tenths: DEFAULT_VALUE_TENTHS,
            mode: Mode::NOTES,
            page: Page::NONE,
        }
    }
}

} // verus!
