//! The slice of the shared configuration store that the mods settings page
//! reads and writes: whether mod loading is enabled, and the mods folder.
//!
//! The store itself (persistence, atomic replacement) is a collaborator owned
//! by the surrounding application; the page only ever receives a snapshot of
//! these two fields and hands back the snapshot it wants written.

use vstd::prelude::*;

verus! {

/// Mathematical value of a [`ConfigSnapshot`]: the path is its sequence of
/// characters.
pub struct ConfigView {
    pub enabled: bool,
    pub mods_folder: Seq<char>,
}

/// The two mods-related fields of a configuration snapshot. An empty
/// `mods_folder` means "use the collaborator-defined default location"; it is
/// never an error.
#[derive(Debug, Clone)]
pub struct ConfigSnapshot {
    pub enabled: bool,
    pub mods_folder: String,
}

impl View for ConfigSnapshot {
    type V = ConfigView;

    open spec fn view(&self) -> ConfigView {
        ConfigView { enabled: self.enabled, mods_folder: self.mods_folder@ }
    }
}

/// The snapshot that a `SetEnabled(enabled)` event asks the store to keep:
/// the toggle is replaced, the folder is untouched.
pub open spec fn config_with_enabled(c: ConfigView, enabled: bool) -> ConfigView {
    ConfigView { enabled, mods_folder: c.mods_folder }
}

/// The snapshot that a `ModsFolderSelected(path)` event asks the store to
/// keep: the folder is replaced, the toggle is untouched.
pub open spec fn config_with_folder(c: ConfigView, path: Seq<char>) -> ConfigView {
    ConfigView { enabled: c.enabled, mods_folder: path }
}

} // verus!
