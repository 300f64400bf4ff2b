//! Application-level data: actions, events, dialogs, menus and the side
//! effects the runtime performs.

pub mod action;
pub mod app_state;
pub mod event;
pub mod events;
pub mod export;
pub mod guards;
pub mod inspect_actions;
pub mod input;
pub mod inspector;
pub mod log_events;
pub mod menus;
pub mod outcomes;
pub mod reducer;
pub mod side_effect;
pub mod state;
pub mod substates;
