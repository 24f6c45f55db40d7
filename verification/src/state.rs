//! The application state: which page is selected, whether the About window
//! is shown, and where the floating toolbar sits.

use vstd::prelude::*;
use crate::geom::{Pos, PosView};

verus! {

/// The page selected in the left-side navigation panel.
#[derive(Clone, Copy, Debug, PartialEq, Eq, Structural)]
pub enum TabPage {
    Home,
    Files,
    Help,
}

/// All state the shell carries between frames.
#[derive(Clone, Copy, Debug)]
pub struct AppState {
    /// Whether the About window is shown.
    pub show_about: bool,
    /// Top-left corner of the floating toolbar.
    pub toolbar_pos: Pos,
    /// Whether a toolbar drag is in progress.
    pub is_toolbar_dragging: bool,
    /// Pointer position recorded at the last drag step.
    pub last_mouse_pos: Pos,
    /// The page shown in the central content area.
    pub current_tab: TabPage,
}

/// Mathematical model of [`AppState`].
pub struct StateView {
    pub show_about: bool,
    pub toolbar_pos: PosView,
    pub is_toolbar_dragging: bool,
    pub last_mouse_pos: PosView,
    pub current_tab: TabPage,
}

impl View for AppState {
    type V = StateView;

    open spec fn view(&self) -> StateView {
        StateView {
            show_about: self.show_about,
            toolbar_pos: self.toolbar_pos@,
            is_toolbar_dragging: self.is_toolbar_dragging,
            last_mouse_pos: self.last_mouse_pos@,
            current_tab: self.current_tab,
        }
    }
}

/// The state a fresh shell starts in: no About window, toolbar at
/// (100, 50), no drag in progress, pointer recorded at the origin,
/// Home page selected.
pub open spec fn initial_state() -> StateView {
    StateView {
        show_about: false,
        toolbar_pos: PosView { x: 100, y: 50 },
        is_toolbar_dragging: false,
        last_mouse_pos: PosView { x: 0, y: 0 },
        current_tab: TabPage::Home,
    }
}

impl Default for AppState {
    /// The initial state of the shell.
    fn default() -> (r: AppState)
        ensures
            r@ == initial_state(),
    {
        AppState {
            show_about: false,
            toolbar_pos: Pos { x: 100, y: 50 },
            is_toolbar_dragging: false,
            last_mouse_pos: Pos { x: 0, y: 0 },
            current_tab: TabPage::Home,
        }
    }
}

} // verus!
