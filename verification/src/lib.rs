//! Logic of a launcher's mods settings page: a toggle for the mod-loading
//! feature and a choice of the folder where mods are stored.
//!
//! The page is a state machine over plain values. Every user event is a
//! [`panel::ModsSettingsPageMsg`]; applying one to a [`panel::ModsSettingsPage`]
//! yields the next page state together with a [`panel::PanelAction`] that the
//! surrounding shell performs (write the configuration back, or open the
//! asynchronous folder dialog). The shell feeds the dialog's outcome back in,
//! and a cancelled dialog changes nothing.

pub mod config;
pub mod panel;
