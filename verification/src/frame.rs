//! Per-frame decision logic. Once per redraw the host gathers the widget
//! query results into a [`FrameInput`], calls [`AppState::frame_update`],
//! and performs the returned [`FrameActions`].

use vstd::prelude::*;
use crate::geom::{pos_add_sat, pos_sub_sat, Pos, PosView};
use crate::state::{AppState, StateView, TabPage};

verus! {

/// The widget query results of one frame, as the host collected them.
#[derive(Clone, Copy, Debug)]
pub struct FrameInput {
    /// The New entry of the File menu was clicked.
    pub new_clicked: bool,
    /// The Exit entry of the File menu was clicked.
    pub exit_clicked: bool,
    /// The About entry of the Help menu was clicked.
    pub about_clicked: bool,
    /// A drag of the toolbar started this frame.
    pub drag_started: bool,
    /// The toolbar is being dragged this frame.
    pub dragged: bool,
    /// The drag of the toolbar was released this frame.
    pub drag_released: bool,
    /// Where the pointer hovers, if anywhere.
    pub hover_pos: Option<Pos>,
    /// The Home tab was clicked.
    pub home_clicked: bool,
    /// The Files tab was clicked.
    pub files_clicked: bool,
    /// The Help tab was clicked.
    pub help_clicked: bool,
    /// The About window's own close control was used.
    pub about_window_closed: bool,
    /// The Close button inside the About window was clicked.
    pub about_close_clicked: bool,
}

/// Mathematical model of [`FrameInput`].
pub struct FrameInputView {
    pub new_clicked: bool,
    pub exit_clicked: bool,
    pub about_clicked: bool,
    pub drag_started: bool,
    pub dragged: bool,
    pub drag_released: bool,
    pub hover_pos: Option<PosView>,
    pub home_clicked: bool,
    pub files_clicked: bool,
    pub help_clicked: bool,
    pub about_window_closed: bool,
    pub about_close_clicked: bool,
}

/// The model of an optional pointer position.
pub open spec fn opt_pos_view(o: Option<Pos>) -> Option<PosView> {
    match o {
        Some(p) => Some(p@),
        None => None,
    }
}

impl View for FrameInput {
    type V = FrameInputView;

    open spec fn view(&self) -> FrameInputView {
        FrameInputView {
            new_clicked: self.new_clicked,
            exit_clicked: self.exit_clicked,
            about_clicked: self.about_clicked,
            drag_started: self.drag_started,
            dragged: self.dragged,
            drag_released: self.drag_released,
            hover_pos: opt_pos_view(self.hover_pos),
            home_clicked: self.home_clicked,
            files_clicked: self.files_clicked,
            help_clicked: self.help_clicked,
            about_window_closed: self.about_window_closed,
            about_close_clicked: self.about_close_clicked,
        }
    }
}

/// What the host must do after a frame: effects the logic decides but
/// cannot perform itself.
#[derive(Clone, Copy, Debug, PartialEq, Eq, Structural)]
pub struct FrameActions {
    /// Report that a new file was created.
    pub print_new: bool,
    /// Close the application window.
    pub request_exit: bool,
    /// Close the open menu popup.
    pub close_menu: bool,
}

/// The menu bar's effect on the state: clicking About shows the About
/// window; nothing else in the menus touches the state.
pub open spec fn menu_step(s: StateView, about_clicked: bool) -> StateView {
    StateView { show_about: s.show_about || about_clicked, ..s }
}

/// The actions a frame's menu clicks call for.
pub open spec fn actions_of(i: FrameInputView) -> FrameActions {
    FrameActions {
        print_new: i.new_clicked,
        request_exit: i.exit_clicked,
        close_menu: i.about_clicked,
    }
}

/// The pointer position, or the origin when the pointer hovers nowhere.
pub open spec fn hover_or_zero(hover: Option<PosView>) -> PosView {
    match hover {
        Some(p) => p,
        None => PosView { x: 0, y: 0 },
    }
}

/// A drag start: the dragging flag is raised and the pointer position is
/// recorded (the origin when the pointer hovers nowhere).
pub open spec fn drag_begin_step(s: StateView, drag_started: bool, hover: Option<PosView>) -> StateView {
    if drag_started {
        StateView { is_toolbar_dragging: true, last_mouse_pos: hover_or_zero(hover), ..s }
    } else {
        s
    }
}

/// A drag step: while a drag is in progress and the pointer hovers
/// somewhere, the toolbar moves by the pointer's offset from the last
/// recorded position, and that position is updated. Without a hover
/// position nothing moves.
pub open spec fn drag_move_step(s: StateView, dragged: bool, hover: Option<PosView>) -> StateView {
    match hover {
        Some(p) => if dragged && s.is_toolbar_dragging {
            StateView {
                toolbar_pos: pos_add_sat(s.toolbar_pos, pos_sub_sat(p, s.last_mouse_pos)),
                last_mouse_pos: p,
                ..s
            }
        } else {
            s
        },
        None => s,
    }
}

/// A drag release: the dragging flag is cleared.
pub open spec fn drag_end_step(s: StateView, drag_released: bool) -> StateView {
    if drag_released {
        StateView { is_toolbar_dragging: false, ..s }
    } else {
        s
    }
}

/// The toolbar's whole effect in one frame: begin, move, release, in the
/// order the widgets are queried.
pub open spec fn toolbar_step(
    s: StateView,
    drag_started: bool,
    dragged: bool,
    drag_released: bool,
    hover: Option<PosView>,
) -> StateView {
    drag_end_step(drag_move_step(drag_begin_step(s, drag_started, hover), dragged, hover), drag_released)
}

/// The navigation panel's effect: the last tab queried wins when several
/// report a click in one frame (Home, then Files, then Help).
pub open spec fn tabs_step(s: StateView, home_clicked: bool, files_clicked: bool, help_clicked: bool) -> StateView {
    StateView {
        current_tab: if help_clicked {
            TabPage::Help
        } else if files_clicked {
            TabPage::Files
        } else if home_clicked {
            TabPage::Home
        } else {
            s.current_tab
        },
        ..s
    }
}

/// The About window's effect: only its Close button hides it. The
/// window's own close control writes the flag too, but that write is
/// overwritten when the frame ends, so it has no effect.
pub open spec fn about_step(s: StateView, about_close_clicked: bool) -> StateView {
    StateView { show_about: s.show_about && !about_close_clicked, ..s }
}

/// One whole frame: menu, toolbar, navigation panel, About window, in the
/// order the panels are drawn.
pub open spec fn frame_step(s: StateView, i: FrameInputView) -> StateView {
    about_step(
        tabs_step(
            toolbar_step(
                menu_step(s, i.about_clicked),
                i.drag_started,
                i.dragged,
                i.drag_released,
                i.hover_pos,
            ),
            i.home_clicked,
            i.files_clicked,
            i.help_clicked,
        ),
        i.about_close_clicked,
    )
}

/// The dragging flag is raised only between a drag start and a drag
/// release: after any frame it holds exactly when a drag started or was
/// already in progress and the frame did not release it.
pub proof fn lemma_dragging_flag(s: StateView, i: FrameInputView)
    ensures
        frame_step(s, i).is_toolbar_dragging == ((s.is_toolbar_dragging || i.drag_started)
            && !i.drag_released),
{
}

/// The toolbar moves only while a drag is in progress and the pointer
/// hovers somewhere.
pub proof fn lemma_toolbar_moves_only_while_dragging(s: StateView, i: FrameInputView)
    ensures
        frame_step(s, i).toolbar_pos != s.toolbar_pos ==> ((s.is_toolbar_dragging
            || i.drag_started) && i.dragged && i.hover_pos is Some),
{
}

/// After any frame the About window is shown exactly when it was shown or
/// requested this frame, and its Close button was not clicked. The
/// window's own close control plays no part.
pub proof fn lemma_about_window_visibility(s: StateView, i: FrameInputView)
    ensures
        frame_step(s, i).show_about == ((s.show_about || i.about_clicked)
            && !i.about_close_clicked),
{
}

impl AppState {
    /// React to the menu bar's clicks: About shows the About window and
    /// closes the menu; New and Exit leave the state alone and become
    /// actions for the host.
    pub fn handle_menu(&mut self, new_clicked: bool, exit_clicked: bool, about_clicked: bool) -> (r: FrameActions)
        ensures
            final(self)@ == menu_step(old(self)@, about_clicked),
            r.print_new == new_clicked,
            r.request_exit == exit_clicked,
            r.close_menu == about_clicked,
    {
        let mut actions = FrameActions { print_new: false, request_exit: false, close_menu: false };
        if new_clicked {
            actions.print_new = true;
        }
        if exit_clicked {
            actions.request_exit = true;
        }
        if about_clicked {
            self.show_about = true;
            actions.close_menu = true;
        }
        actions
    }

    /// React to the toolbar's drag queries: record the pointer when a drag
    /// starts, accumulate the pointer's movement into the toolbar position
    /// while it lasts, and clear the flag when it is released. The
    /// accumulation saturates at the bounds of the coordinate type.
    pub fn handle_toolbar_drag(
        &mut self,
        drag_started: bool,
        dragged: bool,
        drag_released: bool,
        hover_pos: Option<Pos>,
    )
        ensures
            final(self)@ == toolbar_step(old(self)@, drag_started, dragged, drag_released, opt_pos_view(hover_pos)),
    {
        if drag_started {
            self.is_toolbar_dragging = true;
            self.last_mouse_pos = match hover_pos {
                Some(p) => p,
                None => Pos::zero(),
            };
        }
        if dragged && self.is_toolbar_dragging {
            match hover_pos {
                Some(current_pos) => {
                    let delta = current_pos.sub_sat(self.last_mouse_pos);
                    self.toolbar_pos = self.toolbar_pos.add_sat(delta);
                    self.last_mouse_pos = current_pos;
                }
                None => {}
            }
        }
        if drag_released {
            self.is_toolbar_dragging = false;
        }
    }

    /// React to the navigation panel's clicks: each tab queried in turn,
    /// so the last one clicked wins within a frame.
    pub fn handle_tabs(&mut self, home_clicked: bool, files_clicked: bool, help_clicked: bool)
        ensures
            final(self)@ == tabs_step(old(self)@, home_clicked, files_clicked, help_clicked),
    {
        if home_clicked {
            self.current_tab = TabPage::Home;
        }
        if files_clicked {
            self.current_tab = TabPage::Files;
        }
        if help_clicked {
            self.current_tab = TabPage::Help;
        }
    }

    /// React to the About window: its Close button hides it. The window's
    /// own close control writes the flag first, but the snapshot taken
    /// before the window is drawn is written back afterwards, so only the
    /// Close button has an effect.
    pub fn handle_about_window(&mut self, about_window_closed: bool, about_close_clicked: bool)
        ensures
            final(self)@ == about_step(old(self)@, about_close_clicked),
    {
        let mut show_snapshot = self.show_about;
        if self.show_about {
            if about_window_closed {
                self.show_about = false;
            }
            if about_close_clicked {
                show_snapshot = false;
            }
        }
        self.show_about = show_snapshot;
    }

    /// One whole frame: the menu bar, the draggable toolbar, the
    /// navigation panel and the About window, in the order the panels are
    /// drawn. Returns the actions the host must perform.
    pub fn frame_update(&mut self, input: &FrameInput) -> (r: FrameActions)
        ensures
            final(self)@ == frame_step(old(self)@, input@),
            r == actions_of(input@),
    {
        let actions = self.handle_menu(input.new_clicked, input.exit_clicked, input.about_clicked);
        self.handle_toolbar_drag(input.drag_started, input.dragged, input.drag_released, input.hover_pos);
        self.handle_tabs(input.home_clicked, input.files_clicked, input.help_clicked);
        self.handle_about_window(input.about_window_closed, input.about_close_clicked);
        actions
    }
}

} // verus!
