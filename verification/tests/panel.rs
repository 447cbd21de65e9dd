use mods_settings::config::ConfigSnapshot;
use mods_settings::panel::{ModsSettingsPage, ModsSettingsPageMsg, PanelAction};

const DEFAULT_TEXT: &str = "Using default (~/.local/share/sleepy-launcher/zzmi/Mods)";

fn snapshot(enabled: bool, mods_folder: &str) -> ConfigSnapshot {
    ConfigSnapshot { enabled, mods_folder: mods_folder.to_string() }
}

fn expect_update(action: PanelAction) -> ConfigSnapshot {
    match action {
        PanelAction::UpdateConfig(written) => written,
        other => panic!("expected a config write, got {:?}", other),
    }
}

fn expect_dialog(action: PanelAction) -> Option<String> {
    match action {
        PanelAction::OpenFolderDialog(start) => start,
        other => panic!("expected the folder dialog to open, got {:?}", other),
    }
}

#[test]
fn set_enabled_updates_page_and_store() {
    for &enabled in &[true, false] {
        let mut page = ModsSettingsPage::init_from_config(Some(&snapshot(!enabled, "/m")));
        let action = page.update(
            ModsSettingsPageMsg::SetEnabled(enabled),
            Some(snapshot(!enabled, "/m")),
            None,
        );
        assert_eq!(page.is_enabled(), enabled);
        let written = expect_update(action);
        assert_eq!(written.enabled, enabled);
        assert_eq!(written.mods_folder, "/m");
        assert_eq!(page.mods_folder().as_str(), "/m");
    }
}

#[test]
fn set_enabled_without_config_keeps_local_state() {
    let mut page = ModsSettingsPage::init_from_config(Some(&snapshot(false, "")));
    let action = page.update(ModsSettingsPageMsg::SetEnabled(true), None, None);
    assert!(matches!(action, PanelAction::NoAction));
    assert!(page.is_enabled());
}

#[test]
fn folder_selected_updates_display_and_store() {
    let mut page = ModsSettingsPage::init_from_config(Some(&snapshot(true, "")));
    let action = page.update(
        ModsSettingsPageMsg::ModsFolderSelected("/data/mods".to_string()),
        Some(snapshot(true, "")),
        None,
    );
    assert_eq!(page.folder_display_text(), "/data/mods");
    assert_eq!(page.mods_folder().as_str(), "/data/mods");
    let written = expect_update(action);
    assert_eq!(written.mods_folder, "/data/mods");
    assert!(written.enabled);
}

#[test]
fn folder_selected_without_config_keeps_store_untouched() {
    let mut page = ModsSettingsPage::init_from_config(Some(&snapshot(false, "/old")));
    let action = page.update(
        ModsSettingsPageMsg::ModsFolderSelected("/new".to_string()),
        None,
        None,
    );
    assert!(matches!(action, PanelAction::NoAction));
    assert_eq!(page.folder_display_text(), "/new");
}

#[test]
fn unset_folder_shows_default_location_text() {
    let page = ModsSettingsPage::init_from_config(Some(&snapshot(false, "")));
    assert!(!page.folder_is_set());
    assert_eq!(page.folder_display_text(), DEFAULT_TEXT);
    assert!(!page.folder_display_text().is_empty());
}

#[test]
fn set_folder_shows_its_own_text() {
    let page = ModsSettingsPage::init_from_config(Some(&snapshot(false, "/home/u/Mods")));
    assert!(page.folder_is_set());
    assert_eq!(page.folder_display_text(), "/home/u/Mods");
}

#[test]
fn pick_starts_at_configured_folder() {
    let mut page = ModsSettingsPage::init_from_config(Some(&snapshot(true, "/home/u/Mods")));
    let start = expect_dialog(page.update(
        ModsSettingsPageMsg::SelectModsFolder,
        None,
        Some("/ignored/default".to_string()),
    ));
    assert_eq!(start.as_deref(), Some("/home/u/Mods"));
    assert!(page.is_awaiting_folder_selection());
}

#[test]
fn pick_starts_at_default_when_folder_unset() {
    let mut page = ModsSettingsPage::init_from_config(Some(&snapshot(true, "")));
    let start = expect_dialog(page.update(
        ModsSettingsPageMsg::SelectModsFolder,
        None,
        Some("/resolved/default".to_string()),
    ));
    assert_eq!(start.as_deref(), Some("/resolved/default"));
}

#[test]
fn pick_starts_nowhere_when_resolver_fails() {
    let mut page = ModsSettingsPage::init_from_config(Some(&snapshot(true, "")));
    let start = expect_dialog(page.update(ModsSettingsPageMsg::SelectModsFolder, None, None));
    assert!(start.is_none());
}

#[test]
fn picked_folder_becomes_follow_up_event() {
    let mut page = ModsSettingsPage::init_from_config(Some(&snapshot(true, "")));
    expect_dialog(page.update(ModsSettingsPageMsg::SelectModsFolder, None, None));
    let follow_up = page.finish_folder_pick(Some("/picked".to_string()));
    match follow_up {
        Some(ModsSettingsPageMsg::ModsFolderSelected(path)) => assert_eq!(path, "/picked"),
        other => panic!("expected a folder-selected event, got {:?}", other),
    }
    assert!(!page.is_awaiting_folder_selection());
}

#[test]
fn cancelled_pick_changes_nothing() {
    let mut page = ModsSettingsPage::init_from_config(Some(&snapshot(true, "/keep")));
    expect_dialog(page.update(ModsSettingsPageMsg::SelectModsFolder, None, None));
    let follow_up = page.finish_folder_pick(None);
    assert!(follow_up.is_none());
    assert!(!page.is_awaiting_folder_selection());
    assert_eq!(page.mods_folder().as_str(), "/keep");
    assert_eq!(page.folder_display_text(), "/keep");
    assert!(page.is_enabled());
}

#[test]
fn toggle_then_pick_scenario() {
    let mut page = ModsSettingsPage::init_from_config(Some(&snapshot(false, "")));
    assert!(!page.is_enabled());
    assert_eq!(page.folder_display_text(), DEFAULT_TEXT);

    let written = expect_update(page.update(
        ModsSettingsPageMsg::SetEnabled(true),
        Some(snapshot(false, "")),
        None,
    ));
    assert!(written.enabled);
    assert_eq!(written.mods_folder, "");

    expect_dialog(page.update(ModsSettingsPageMsg::SelectModsFolder, None, None));
    let follow_up = page.finish_folder_pick(Some("/home/u/Mods".to_string())).unwrap();
    let written = expect_update(page.update(follow_up, Some(written), None));
    assert!(written.enabled);
    assert_eq!(written.mods_folder, "/home/u/Mods");
    assert_eq!(page.folder_display_text(), "/home/u/Mods");
}

#[test]
fn failed_config_read_still_renders() {
    let page = ModsSettingsPage::init_from_config(None);
    assert!(!page.is_enabled());
    assert!(!page.folder_is_set());
    assert!(!page.is_awaiting_folder_selection());
    assert_eq!(page.folder_display_text(), DEFAULT_TEXT);
}
