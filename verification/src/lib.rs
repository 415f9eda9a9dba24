//! Core of a tray utility that keeps the display awake on command.
//!
//! The library holds the event-driven state coordinator: the activation
//! state store, the cancellable countdown timer bookkeeping, the single
//! dispatcher that serializes all state transitions, the menu projection
//! that derives a renderable snapshot from state, the translation table,
//! and the filter that turns an OS setting-change broadcast into an
//! appearance event. The surrounding process (tray icon, OS message pump,
//! thread spawning, file loading) lives outside and only exchanges plain
//! values with this crate.

pub mod darkmode;
pub mod dispatch;
pub mod i18n;
pub mod menu;
pub mod state;
pub mod timer;
