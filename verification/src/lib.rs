//! State model of a small desktop GUI shell: a window with a top menu bar,
//! a draggable floating toolbar, a left-side tab navigation panel, and a
//! central content area that switches between three pages.
//!
//! The GUI framework owns the event loop, layout and drawing; this crate
//! holds the per-frame decision logic. Each frame the host collects the
//! widget query results (which buttons were clicked, whether the toolbar is
//! being dragged, where the pointer is) into a [`frame::FrameInput`], calls
//! [`frame::AppState::frame_update`], and performs the returned
//! [`frame::FrameActions`] (printing, closing the window, closing a menu).

pub mod content;
pub mod frame;
pub mod geom;
pub mod state;
