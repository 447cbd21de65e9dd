//! The mods settings page itself: its state, the events it accepts, and the
//! actions it asks the surrounding shell to perform.

use vstd::prelude::*;

use crate::config::{config_with_enabled, config_with_folder, ConfigSnapshot, ConfigView};

verus! {

/// Whether the page is waiting for the asynchronous folder dialog.
///
/// `SelectModsFolder` moves the page from `Idle` to `AwaitingFolderSelection`;
/// the dialog's outcome — a picked folder as well as a cancellation — moves it
/// back to `Idle`.
#[derive(Debug, Clone, Copy, PartialEq, Eq, Structural)]
pub enum PanelMode {
    Idle,
    AwaitingFolderSelection,
}

/// Mathematical value of a [`ModsSettingsPage`]: both paths are their
/// sequences of characters.
pub struct PanelView {
    pub enabled: bool,
    pub mods_folder: Seq<char>,
    pub mods_folder_display: Seq<char>,
    pub mode: PanelMode,
}

impl PanelView {
    /// The page keeps its displayed folder text equal to the string form of
    /// the folder it holds. Every constructor establishes this and every
    /// event preserves it.
    pub open spec fn wf(self) -> bool {
        self.mods_folder_display == self.mods_folder
    }
}

/// State of the mods settings page: the locally displayed copy of the two
/// configuration fields, and whether a folder dialog is open.
pub struct ModsSettingsPage {
    enabled: bool,
    mods_folder: String,
    mods_folder_display: String,
    mode: PanelMode,
}

impl View for ModsSettingsPage {
    type V = PanelView;

    closed spec fn view(&self) -> PanelView {
        PanelView {
            enabled: self.enabled,
            mods_folder: self.mods_folder@,
            mods_folder_display: self.mods_folder_display@,
            mode: self.mode,
        }
    }
}

/// The page state created from the configuration read at start-up: the two
/// fields are copied when the read succeeded, and a failed read degrades to
/// the in-memory default (toggle off, no folder chosen) so that the page
/// still comes up.
pub open spec fn init_view(config: Option<ConfigView>) -> PanelView {
    match config {
        Some(c) => PanelView {
            enabled: c.enabled,
            mods_folder: c.mods_folder,
            mods_folder_display: c.mods_folder,
            mode: PanelMode::Idle,
        },
        None => PanelView {
            enabled: false,
            mods_folder: Seq::<char>::empty(),
            mods_folder_display: Seq::<char>::empty(),
            mode: PanelMode::Idle,
        },
    }
}

/// Page state after `SetEnabled(enabled)`: only the displayed toggle moves.
pub open spec fn set_enabled_transition(v: PanelView, enabled: bool) -> PanelView {
    PanelView {
        enabled,
        mods_folder: v.mods_folder,
        mods_folder_display: v.mods_folder_display,
        mode: v.mode,
    }
}

/// Page state after `SelectModsFolder`: the page is now waiting for the
/// folder dialog; nothing displayed changes.
pub open spec fn begin_pick_transition(v: PanelView) -> PanelView {
    PanelView {
        enabled: v.enabled,
        mods_folder: v.mods_folder,
        mods_folder_display: v.mods_folder_display,
        mode: PanelMode::AwaitingFolderSelection,
    }
}

/// Page state once the folder dialog has closed, picked or cancelled: the
/// page is idle again; nothing displayed changes.
pub open spec fn finish_pick_transition(v: PanelView) -> PanelView {
    PanelView {
        enabled: v.enabled,
        mods_folder: v.mods_folder,
        mods_folder_display: v.mods_folder_display,
        mode: PanelMode::Idle,
    }
}

/// Page state after `ModsFolderSelected(path)`: the folder and its displayed
/// text both become `path`; the toggle keeps its value.
pub open spec fn folder_selected_transition(v: PanelView, path: Seq<char>) -> PanelView {
    PanelView {
        enabled: v.enabled,
        mods_folder: path,
        mods_folder_display: path,
        mode: PanelMode::Idle,
    }
}

/// The fixed text shown in place of a folder when none has been chosen: it
/// names the collaborator's computed default location.
pub open spec fn default_location_text() -> Seq<char> {
    "Using default (~/.local/share/sleepy-launcher/zzmi/Mods)"@
}

/// The folder text the page renders: the chosen folder's string form, or the
/// fixed default-location text when none is chosen.
pub open spec fn display_text_of(v: PanelView) -> Seq<char> {
    if v.mods_folder_display.len() == 0 {
        default_location_text()
    } else {
        v.mods_folder_display
    }
}

/// Events accepted by the mods settings page.
#[derive(Debug, Clone)]
pub enum ModsSettingsPageMsg {
    /// The user flipped the mod-loading switch.
    SetEnabled(bool),
    /// The user asked to choose a mods folder.
    SelectModsFolder,
    /// The folder dialog came back with a path.
    ModsFolderSelected(String),
}

/// What the surrounding shell must do after an event has been applied.
#[derive(Debug)]
pub enum PanelAction {
    /// Hand this snapshot to the configuration store.
    UpdateConfig(ConfigSnapshot),
    /// Open the asynchronous folder dialog, starting at the given directory
    /// if there is one, and feed its outcome to
    /// [`ModsSettingsPage::finish_folder_pick`].
    OpenFolderDialog(Option<String>),
    /// Nothing to do.
    NoAction,
}

impl ModsSettingsPage {
    /// Builds the page from the result of reading the shared configuration
    /// store, `None` standing for a failed read.
    pub fn init_from_config(config: Option<&ConfigSnapshot>) -> (page: Self)
        ensures
            match config {
                Some(c) => page@ == init_view(Some(c@)),
                None => page@ == init_view(None::<ConfigView>),
            },
            page@.wf(),
    {
        match config {
            Some(c) => {
                let mods_folder = c.mods_folder.clone();
                let mods_folder_display = mods_folder.clone();
                ModsSettingsPage {
                    enabled: c.enabled,
                    mods_folder,
                    mods_folder_display,
                    mode: PanelMode::Idle,
                }
            },
            None => ModsSettingsPage {
                enabled: false,
                mods_folder: String::new(),
                mods_folder_display: String::new(),
                mode: PanelMode::Idle,
            },
        }
    }

    /// Applies one event.
    ///
    /// `config` is the store's answer to the read made for this event (`None`
    /// for a failed read: the event still applies locally, only the
    /// write-back is skipped — failures never block the page). `default_dir`
    /// is the default-path resolver's answer, consulted only by
    /// `SelectModsFolder` when no folder is configured (`None` when the
    /// resolver failed or was not asked: the dialog then opens without a
    /// preset directory).
    pub fn update(
        &mut self,
        msg: ModsSettingsPageMsg,
        config: Option<ConfigSnapshot>,
        default_dir: Option<String>,
    ) -> (action: PanelAction)
        ensures
            msg matches ModsSettingsPageMsg::SetEnabled(enabled) ==> {
                &&& final(self)@ == set_enabled_transition(old(self)@, enabled)
                &&& (config matches Some(c) ==> (action matches PanelAction::UpdateConfig(w)
                    && w@ == config_with_enabled(c@, enabled)))
                &&& (config is None ==> action is NoAction)
            },
            msg is SelectModsFolder ==> {
                &&& final(self)@ == begin_pick_transition(old(self)@)
                &&& action matches PanelAction::OpenFolderDialog(start)
                &&& (old(self)@.mods_folder.len() == 0 ==> start == default_dir)
                &&& (old(self)@.mods_folder.len() > 0 ==> (start matches Some(d)
                    && d@ == old(self)@.mods_folder))
            },
            msg matches ModsSettingsPageMsg::ModsFolderSelected(path) ==> {
                &&& final(self)@ == folder_selected_transition(old(self)@, path@)
                &&& (config matches Some(c) ==> (action matches PanelAction::UpdateConfig(w)
                    && w@ == config_with_folder(c@, path@)))
                &&& (config is None ==> action is NoAction)
            },
            old(self)@.wf() ==> final(self)@.wf(),
    {
        match msg {
            ModsSettingsPageMsg::SetEnabled(enabled) => {
                self.enabled = enabled;
                match config {
                    Some(mut c) => {
                        c.enabled = enabled;
                        PanelAction::UpdateConfig(c)
                    },
                    None => PanelAction::NoAction,
                }
            },
            ModsSettingsPageMsg::SelectModsFolder => {
                let start_dir = if self.mods_folder.as_str().is_empty() {
                    default_dir
                } else {
                    Some(self.mods_folder.clone())
                };
                self.mode = PanelMode::AwaitingFolderSelection;
                PanelAction::OpenFolderDialog(start_dir)
            },
            ModsSettingsPageMsg::ModsFolderSelected(path) => {
                self.mods_folder_display = path.clone();
                self.mods_folder = path.clone();
                self.mode = PanelMode::Idle;
                match config {
                    Some(mut c) => {
                        c.mods_folder = path;
                        PanelAction::UpdateConfig(c)
                    },
                    None => PanelAction::NoAction,
                }
            },
        }
    }

    /// Takes the folder dialog's outcome: a picked folder becomes the
    /// follow-up `ModsFolderSelected` event for the shell to feed back into
    /// [`Self::update`]; a cancelled dialog produces no event at all, so the
    /// displayed folder and the stored one both stay as they were.
    pub fn finish_folder_pick(&mut self, picked: Option<String>) -> (follow_up: Option<
        ModsSettingsPageMsg,
    >)
        ensures
            final(self)@ == finish_pick_transition(old(self)@),
            picked matches Some(path) ==> follow_up == Some(
                ModsSettingsPageMsg::ModsFolderSelected(path),
            ),
            picked is None ==> follow_up is None,
    {
        self.mode = PanelMode::Idle;
        match picked {
            Some(path) => Some(ModsSettingsPageMsg::ModsFolderSelected(path)),
            None => None,
        }
    }

    /// The folder text to render. It is never empty: an unset folder is shown
    /// as the fixed default-location text.
    pub fn folder_display_text(&self) -> (text: String)
        ensures
            text@ == display_text_of(self@),
            text@.len() > 0,
    {
        if self.mods_folder_display.as_str().is_empty() {
            proof {
                reveal_strlit("Using default (~/.local/share/sleepy-launcher/zzmi/Mods)");
            }
            "Using default (~/.local/share/sleepy-launcher/zzmi/Mods)".to_owned()
        } else {
            self.mods_folder_display.clone()
        }
    }

    /// Whether the switch is rendered on.
    pub fn is_enabled(&self) -> (enabled: bool)
        ensures
            enabled == self@.enabled,
    {
        self.enabled
    }

    /// Whether a mods folder has been chosen; an unset folder is the empty
    /// path.
    pub fn folder_is_set(&self) -> (set: bool)
        ensures
            set == (self@.mods_folder.len() > 0),
    {
        !self.mods_folder.as_str().is_empty()
    }

    /// The chosen mods folder; empty when unset.
    pub fn mods_folder(&self) -> (folder: &String)
        ensures
            folder@ == self@.mods_folder,
    {
        &self.mods_folder
    }

    /// Whether the page is waiting for the folder dialog.
    pub fn is_awaiting_folder_selection(&self) -> (waiting: bool)
        ensures
            waiting == (self@.mode is AwaitingFolderSelection),
    {
        self.mode == PanelMode::AwaitingFolderSelection
    }
}

/// For every boolean `enabled`: applying `SetEnabled(enabled)` leaves the
/// displayed toggle equal to `enabled` and asks the store to keep `enabled`,
/// while neither the page's folder fields nor the store's folder move.
pub proof fn lemma_set_enabled_takes_effect(v: PanelView, c: ConfigView, enabled: bool)
    ensures
        set_enabled_transition(v, enabled).enabled == enabled,
        config_with_enabled(c, enabled).enabled == enabled,
        set_enabled_transition(v, enabled).mods_folder == v.mods_folder,
        set_enabled_transition(v, enabled).mods_folder_display == v.mods_folder_display,
        config_with_enabled(c, enabled).mods_folder == c.mods_folder,
        v.wf() ==> set_enabled_transition(v, enabled).wf(),
{
}

/// Applying `SetEnabled` with the same value twice is the same as applying it
/// once, on the page as well as on the snapshot handed to the store.
pub proof fn lemma_set_enabled_idempotent(v: PanelView, c: ConfigView, enabled: bool)
    ensures
        set_enabled_transition(set_enabled_transition(v, enabled), enabled)
            == set_enabled_transition(v, enabled),
        config_with_enabled(config_with_enabled(c, enabled), enabled)
            == config_with_enabled(c, enabled),
{
}

/// For every path: applying `ModsFolderSelected(path)` sets the displayed
/// folder text to `path`'s string form and asks the store to keep `path` as
/// its mods folder, while the toggle keeps its value on both sides.
pub proof fn lemma_folder_selected_takes_effect(v: PanelView, c: ConfigView, path: Seq<char>)
    ensures
        folder_selected_transition(v, path).mods_folder_display == path,
        folder_selected_transition(v, path).mods_folder == path,
        config_with_folder(c, path).mods_folder == path,
        folder_selected_transition(v, path).enabled == v.enabled,
        config_with_folder(c, path).enabled == c.enabled,
        folder_selected_transition(v, path).wf(),
{
}

/// When no mods folder is chosen on a well-formed page, the rendered folder
/// text is exactly the fixed default-location text — never the empty string.
pub proof fn lemma_unset_folder_shows_default(v: PanelView)
    requires
        v.wf(),
        v.mods_folder.len() == 0,
    ensures
        display_text_of(v) == default_location_text(),
        display_text_of(v).len() > 0,
{
    reveal_strlit("Using default (~/.local/share/sleepy-launcher/zzmi/Mods)");
}

/// A cancelled folder pick leaves every displayed field as it was — only the
/// dialog-waiting flag clears. Since a cancellation produces no follow-up
/// event, it asks the store for no change either.
pub proof fn lemma_cancelled_pick_changes_nothing(v: PanelView)
    ensures
        finish_pick_transition(v).mods_folder == v.mods_folder,
        finish_pick_transition(v).mods_folder_display == v.mods_folder_display,
        finish_pick_transition(v).enabled == v.enabled,
        finish_pick_transition(v).mode is Idle,
        v.wf() ==> finish_pick_transition(v).wf(),
{
}

} // verus!
