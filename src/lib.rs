//! Application core of a terminal launcher for favourite streaming channels:
//! a stack-based state machine over the application's screens, with a cache of
//! screens by kind, key binding tables and the logic of each screen.

pub mod cache;
pub mod channel;
pub mod display;
pub mod event;
pub mod exit;
pub mod home;
pub mod input;
pub mod legend;
pub mod lists;
pub mod machine;
pub mod panel;
pub mod popup;
pub mod startup;
pub mod state;
pub mod text;
pub mod theme;
pub mod transition;
pub mod util;
