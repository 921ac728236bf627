//! The panel router: a pure decision from the current state to the set of
//! regions drawn this frame.
//!
//! Every frame the shell asks for a [`RenderPlan`] and draws exactly what
//! it says: a fixed top toolbar (always present), an optional side panel,
//! one main content surface, and an optional floating window.  All
//! branching is a statically exhaustive match with a mandatory default
//! arm, so an unmatched page never panics: it degrades to the welcome
//! surface.

use vstd::prelude::*;

use crate::state::{ClassNotes, Mode, Page};

verus! {

/// What fills the main central region for one frame.
#[derive(Clone, Copy, Debug, PartialEq, Eq, Structural)]
pub enum MainSurface {
    /// An empty central surface (no notes are shown).
    Empty,
    /// The default welcome page.
    Welcome,
    /// The introduction page of the "Kth Smallest" topic (an empty stub,
    /// reserved for future content).
    KthSmallestIntro,
}

/// The rendering decision for one frame.  The top toolbar is always
/// drawn and is therefore not a field.
#[derive(Clone, Copy, Debug, PartialEq, Eq, Structural)]
pub struct RenderPlan {
    /// Whether the left side panel (topic list and editing controls) is
    /// drawn.
    pub side_panel: bool,
    /// The renderer selected for the main central region.
    pub main: MainSurface,
    /// Whether the floating demonstration window is drawn.
    pub floating_window: bool,
}

/// The routing rule: which regions a given `mode`/`page` pair renders.
pub open spec fn spec_render_plan(m: Mode, p: Page) -> RenderPlan {
    match m {
        Mode::NONE => RenderPlan {
            side_panel: false,
            main: MainSurface::Empty,
            floating_window: false,
        },
        Mode::NOTES => RenderPlan {
            side_panel: true,
            main: match p {
                Page::KthSmallestIntro => MainSurface::KthSmallestIntro,
                _ => MainSurface::Welcome,
            },
            floating_window: true,
        },
    }
}

impl ClassNotes {
    /// Select the regions to draw this frame from the current state.
    pub fn render_plan(&self) -> (r: RenderPlan)
        ensures
            r == spec_render_plan(self.mode, self.page),
    {
        match self.mode {
            Mode::NONE => RenderPlan {
                side_panel: false,
                main: MainSurface::Empty,
                floating_window: false,
            },
            Mode::NOTES => {
                let main = match self.page {
                    Page::KthSmallestIntro => MainSurface::KthSmallestIntro,
                    _ => MainSurface::Welcome,
                };
                RenderPlan { side_panel: true, main, floating_window: true }
            },
        }
    }
}

/// Unknown-page fallback law: a page value with no renderer of its own
/// renders exactly as the default page does, in every mode.
pub proof fn lemma_unknown_page_fallback(m: Mode, p: Page)
    requires
        p != Page::KthSmallestIntro,
    ensures
        spec_render_plan(m, p) == spec_render_plan(m, Page::NONE),
{
}

} // verus!
