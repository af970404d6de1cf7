//! State tracking for an on-screen keyboard.
//!
//! Two state machines make up the core.
//! The [`event_loop`] takes events and the time,
//! and keeps the visible state and the single scheduled wakeup in line with them.
//! The [`submission`] arbiter takes key presses and releases,
//! and decides whether they go out as text through the input method
//! or as keycodes through the virtual keyboard.
//!
//! Neither of them touches the outside world:
//! they answer with commands and calls as plain values,
//! and what they promise about those is stated in their contracts and proved.
//! The rest of the modules holds what the two work on:
//! the [`state`] of the application, the state of the [`imservice`],
//! and the [`data`] which turns the descriptions of buttons into actions.

pub mod action;
pub mod animation;
pub mod data;
pub mod event_loop;
pub mod imservice;
pub mod keyboard;
pub mod layout;
pub mod locale;
pub mod logging;
pub mod panel;
pub mod protocol;
pub mod state;
pub mod submission;
pub mod time;
pub mod util;
