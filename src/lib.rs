//! A dead simple notification daemon: the verified core.
//!
//! The library owns the set of live notifications, decides what the display
//! must do for each incoming action, allocates notification ids and applies
//! the expiry policy. Transport, rendering and configuration I/O live in the
//! program around it.

/// Notifications, urgency levels, filters and actions.
pub mod notification;

/// The store of live notifications.
pub mod manager;

/// Configuration and the per-urgency policy.
pub mod config;

/// What the daemon does for each action, and when a notification expires.
pub mod dispatch;

/// The notification service's requests, turned into notifications and actions.
pub mod ipc;
