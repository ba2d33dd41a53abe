use std::cell::RefCell;
use std::rc::Rc;

use explora::filesystem::ExplorerError;
use explora::preferences::{
    apply_preferences_patch, canonical_favorite_roles, canonical_hidden_ssh_target_ids, default_favorite_roles,
    load_preferences, validate_terminal_preferences, FavoriteRole, LayoutPreferencesDto, LayoutPreferencesPatchDto,
    LayoutPreferencesV1, LayoutPreferencesV2, PreferencesStorage, PreferencesStore, SortColumn, SortDescriptorDto,
    SortDirection, StoredPreferences, TerminalPreferencesDto, TerminalPreferencesPatchDto, UserPreferencesDto,
    UserPreferencesPatchDto, ViewMode,
};

#[derive(Clone, Default)]
struct MemoryStorage {
    saved: Rc<RefCell<Option<UserPreferencesDto>>>,
    fail: bool,
}

impl PreferencesStorage for MemoryStorage {
    fn persist(&self, preferences: &UserPreferencesDto) -> Result<(), ExplorerError> {
        if self.fail {
            return Err(ExplorerError::Unexpected("disk full".to_owned()));
        }
        *self.saved.borrow_mut() = Some(preferences.clone());
        Ok(())
    }
}

impl MemoryStorage {
    fn stored(&self) -> StoredPreferences {
        match self.saved.borrow().clone() {
            Some(saved) => StoredPreferences::Version4(saved.layout, saved.terminal),
            None => StoredPreferences::Missing,
        }
    }

    fn reload(&self) -> PreferencesStore<MemoryStorage> {
        PreferencesStore::new(self.clone(), self.stored())
    }
}

fn empty_store() -> (MemoryStorage, PreferencesStore<MemoryStorage>) {
    let storage = MemoryStorage::default();
    let store = PreferencesStore::new(storage.clone(), StoredPreferences::Missing);
    (storage, store)
}

fn patch(sidebar_collapsed: Option<bool>, view_mode: Option<ViewMode>, sort: Option<SortDescriptorDto>) -> UserPreferencesPatchDto {
    UserPreferencesPatchDto {
        layout: LayoutPreferencesPatchDto {
            sidebar_collapsed,
            view_mode,
            sort,
            favorite_roles: None,
            hidden_ssh_target_ids: None,
        },
        terminal: None,
    }
}

fn favorite_patch(favorite_roles: Vec<FavoriteRole>) -> UserPreferencesPatchDto {
    UserPreferencesPatchDto {
        layout: LayoutPreferencesPatchDto {
            sidebar_collapsed: None,
            view_mode: None,
            sort: None,
            favorite_roles: Some(favorite_roles),
            hidden_ssh_target_ids: None,
        },
        terminal: None,
    }
}

fn hidden_ssh_patch(hidden_ssh_target_ids: Vec<&str>) -> UserPreferencesPatchDto {
    UserPreferencesPatchDto {
        layout: LayoutPreferencesPatchDto {
            sidebar_collapsed: None,
            view_mode: None,
            sort: None,
            favorite_roles: None,
            hidden_ssh_target_ids: Some(hidden_ssh_target_ids.into_iter().map(str::to_owned).collect()),
        },
        terminal: None,
    }
}

fn terminal_patch(
    visible: Option<bool>,
    pane_height_percent: Option<u16>,
    font_size: Option<u16>,
    scrollback: Option<u32>,
    screen_reader_mode: Option<bool>,
) -> UserPreferencesPatchDto {
    UserPreferencesPatchDto {
        layout: LayoutPreferencesPatchDto {
            sidebar_collapsed: None,
            view_mode: None,
            sort: None,
            favorite_roles: None,
            hidden_ssh_target_ids: None,
        },
        terminal: Some(TerminalPreferencesPatchDto {
            visible,
            pane_height_percent,
            font_size,
            scrollback,
            screen_reader_mode,
        }),
    }
}

#[test]
fn missing_file_uses_layout_defaults() {
    let (_storage, store) = empty_store();
    let snapshot = store.snapshot().expect("preference snapshot");
    assert_eq!(snapshot.preferences, UserPreferencesDto::default());
    assert_eq!(snapshot.warning, None);
}

#[test]
fn partial_updates_round_trip_without_resetting_other_fields() {
    let (storage, mut store) = empty_store();
    store.update(patch(None, Some(ViewMode::Grid), None)).expect("update view mode");
    store
        .update(patch(
            Some(true),
            None,
            Some(SortDescriptorDto { column: SortColumn::Size, direction: SortDirection::Descending }),
        ))
        .expect("update remaining layout");

    let reloaded = storage.reload().snapshot().expect("reloaded preferences");
    assert!(reloaded.preferences.layout.sidebar_collapsed);
    assert_eq!(reloaded.preferences.layout.view_mode, ViewMode::Grid);
    assert_eq!(reloaded.preferences.layout.sort.column, SortColumn::Size);
    assert_eq!(reloaded.preferences.layout.sort.direction, SortDirection::Descending);
    assert_eq!(reloaded.preferences.layout.favorite_roles, default_favorite_roles());
    assert!(reloaded.preferences.layout.hidden_ssh_target_ids.is_empty());
}

#[test]
fn migrates_version_one_layout_preferences_with_default_favorites() {
    let stored = StoredPreferences::Version1(LayoutPreferencesV1 {
        sidebar_collapsed: true,
        view_mode: ViewMode::Grid,
        sort: SortDescriptorDto { column: SortColumn::Size, direction: SortDirection::Descending },
    });
    let snapshot = PreferencesStore::new(MemoryStorage::default(), stored).snapshot().expect("migrated preferences");
    assert!(snapshot.preferences.layout.sidebar_collapsed);
    assert_eq!(snapshot.preferences.layout.view_mode, ViewMode::Grid);
    assert_eq!(snapshot.preferences.layout.sort.column, SortColumn::Size);
    assert_eq!(snapshot.preferences.layout.favorite_roles, default_favorite_roles());
    assert!(snapshot.preferences.layout.hidden_ssh_target_ids.is_empty());
    assert_eq!(snapshot.warning, None);
}

#[test]
fn migrates_version_two_favorites_with_no_hidden_ssh_targets() {
    let stored = StoredPreferences::Version2(LayoutPreferencesV2 {
        sidebar_collapsed: false,
        view_mode: ViewMode::List,
        sort: SortDescriptorDto { column: SortColumn::Name, direction: SortDirection::Ascending },
        favorite_roles: vec![FavoriteRole::Home, FavoriteRole::Documents],
    });
    let snapshot = PreferencesStore::new(MemoryStorage::default(), stored).snapshot().expect("migrated preferences");
    assert_eq!(snapshot.preferences.layout.favorite_roles, vec![FavoriteRole::Home, FavoriteRole::Documents]);
    assert!(snapshot.preferences.layout.hidden_ssh_target_ids.is_empty());
    assert_eq!(snapshot.warning, None);
}

#[test]
fn migrates_version_three_layout_with_terminal_defaults() {
    let stored = StoredPreferences::Version3(LayoutPreferencesDto {
        sidebar_collapsed: false,
        view_mode: ViewMode::List,
        sort: SortDescriptorDto { column: SortColumn::Name, direction: SortDirection::Ascending },
        favorite_roles: vec![FavoriteRole::Home, FavoriteRole::Documents],
        hidden_ssh_target_ids: vec!["manual:target-1".to_owned()],
    });
    let snapshot = PreferencesStore::new(MemoryStorage::default(), stored).snapshot().expect("migrated preferences");
    assert_eq!(snapshot.preferences.layout.hidden_ssh_target_ids, vec!["manual:target-1"]);
    assert_eq!(snapshot.preferences.terminal, TerminalPreferencesDto::default());
    assert_eq!(snapshot.warning, None);
}

#[test]
fn terminal_preferences_round_trip_and_reject_invalid_ranges() {
    let (storage, mut store) = empty_store();
    store
        .update(terminal_patch(Some(true), Some(40), Some(16), Some(10_000), Some(false)))
        .expect("terminal preference update");
    let reloaded = storage.reload().snapshot().expect("reloaded preferences");
    assert_eq!(
        reloaded.preferences.terminal,
        TerminalPreferencesDto {
            visible: true,
            pane_height_percent: 40,
            font_size: 16,
            scrollback: 10_000,
            screen_reader_mode: false,
        }
    );

    let result = store.update(terminal_patch(None, Some(90), None, None, None));
    assert!(matches!(result, Err(ExplorerError::InvalidConfiguration(_))));
    assert_eq!(store.snapshot().expect("unchanged preferences").preferences.terminal.pane_height_percent, 40);
}

#[test]
fn favorite_updates_are_deduplicated_in_canonical_order() {
    let (storage, mut store) = empty_store();
    store
        .update(favorite_patch(vec![FavoriteRole::Music, FavoriteRole::Home, FavoriteRole::Music]))
        .expect("favorite update");
    let reloaded = storage.reload().snapshot().expect("reloaded favorites");
    assert_eq!(reloaded.preferences.layout.favorite_roles, vec![FavoriteRole::Home, FavoriteRole::Music]);
}

#[test]
fn hidden_ssh_targets_are_deduplicated_and_sorted() {
    let (storage, mut store) = empty_store();
    store
        .update(hidden_ssh_patch(vec!["manual:target-b", "config:staging", "manual:target-b"]))
        .expect("hidden SSH update");
    let reloaded = storage.reload().snapshot().expect("reloaded hidden SSH targets");
    assert_eq!(reloaded.preferences.layout.hidden_ssh_target_ids, vec!["config:staging", "manual:target-b"]);
}

#[test]
fn hidden_ssh_targets_reject_untrusted_identifiers() {
    let (_storage, mut store) = empty_store();
    let result = store.update(hidden_ssh_patch(vec!["unknown:target"]));
    assert!(matches!(result, Err(ExplorerError::InvalidConfiguration(_))));
    assert!(store.snapshot().expect("unchanged preferences").preferences.layout.hidden_ssh_target_ids.is_empty());
}

#[test]
fn malformed_and_unsupported_documents_recover_non_fatally() {
    let malformed = PreferencesStore::new(MemoryStorage::default(), StoredPreferences::Malformed)
        .snapshot()
        .expect("malformed snapshot");
    assert_eq!(malformed.warning.as_ref().map(|warning| warning.code.as_str()), Some("malformed"));
    assert_eq!(malformed.preferences, UserPreferencesDto::default());

    let unsupported = PreferencesStore::new(MemoryStorage::default(), StoredPreferences::UnsupportedVersion)
        .snapshot()
        .expect("unsupported snapshot");
    assert_eq!(unsupported.warning.as_ref().map(|warning| warning.code.as_str()), Some("unsupportedVersion"));
}

#[test]
fn unreadable_documents_recover_with_a_read_warning() {
    let (preferences, warning) = load_preferences(StoredPreferences::ReadFailed);
    assert_eq!(preferences, UserPreferencesDto::default());
    assert!(warning.is_some());
    assert_ne!(warning.unwrap().code, "malformed");
}

#[test]
fn a_failed_save_keeps_the_previous_preferences() {
    let storage = MemoryStorage { saved: Rc::new(RefCell::new(None)), fail: true };
    let mut store = PreferencesStore::new(storage, StoredPreferences::Malformed);
    let result = store.update(patch(Some(true), None, None));
    assert!(matches!(result, Err(ExplorerError::Unexpected(_))));
    let snapshot = store.snapshot().expect("snapshot");
    assert!(!snapshot.preferences.layout.sidebar_collapsed);
    assert_eq!(snapshot.warning.map(|w| w.code), Some("malformed".to_owned()));
}

#[test]
fn a_saved_update_clears_the_load_warning() {
    let mut store = PreferencesStore::new(MemoryStorage::default(), StoredPreferences::Malformed);
    store.update(patch(Some(true), None, None)).expect("update");
    let snapshot = store.snapshot().expect("snapshot");
    assert!(snapshot.preferences.layout.sidebar_collapsed);
    assert_eq!(snapshot.warning, None);
}

#[test]
fn an_empty_patch_changes_nothing() {
    let current = UserPreferencesDto::default();
    let updated = apply_preferences_patch(&current, &patch(None, None, None)).expect("empty patch");
    assert_eq!(updated, current);
}

#[test]
fn canonical_favorites_are_idempotent() {
    let once = canonical_favorite_roles(&vec![FavoriteRole::Videos, FavoriteRole::Desktop, FavoriteRole::Videos]);
    assert_eq!(once, vec![FavoriteRole::Desktop, FavoriteRole::Videos]);
    assert_eq!(canonical_favorite_roles(&once), once);
}

#[test]
fn canonical_hidden_ids_are_idempotent_and_bounded() {
    let ids = vec!["manual:b".to_owned(), "config:a".to_owned(), "manual:b".to_owned()];
    let once = canonical_hidden_ssh_target_ids(&ids).expect("valid ids");
    assert_eq!(once, vec!["config:a", "manual:b"]);
    assert_eq!(canonical_hidden_ssh_target_ids(&once).expect("still valid"), once);
    assert!(canonical_hidden_ssh_target_ids(&vec!["remote:a".to_owned()]).is_err());
    assert!(canonical_hidden_ssh_target_ids(&vec!["manual:\u{7}".to_owned()]).is_err());
    assert!(canonical_hidden_ssh_target_ids(&vec![format!("manual:{}", "x".repeat(600))]).is_err());
}

#[test]
fn terminal_ranges_are_inclusive() {
    let mut terminal = TerminalPreferencesDto::default();
    terminal.pane_height_percent = 20;
    terminal.font_size = 24;
    terminal.scrollback = 1000;
    assert!(validate_terminal_preferences(&terminal).is_ok());
    terminal.pane_height_percent = 71;
    assert!(matches!(validate_terminal_preferences(&terminal), Err(ExplorerError::InvalidConfiguration(_))));
    terminal.pane_height_percent = 70;
    terminal.font_size = 9;
    assert!(validate_terminal_preferences(&terminal).is_err());
    terminal.font_size = 10;
    terminal.scrollback = 50_001;
    assert!(validate_terminal_preferences(&terminal).is_err());
}

#[test]
fn a_failed_save_is_reported_and_a_saved_update_is_used() {
    let (_storage, mut store) = empty_store();
    let before = store.snapshot().expect("snapshot").preferences;
    let mut updated = before.clone();
    updated.layout.sidebar_collapsed = !before.layout.sidebar_collapsed;
    let failure = ExplorerError::Unexpected("disk full".to_owned());
    assert_eq!(store.commit(updated.clone(), Err(failure.clone())), Err(failure));
    assert_eq!(store.snapshot().expect("unchanged").preferences, before);
    assert_eq!(store.commit(updated.clone(), Ok(())), Ok(updated.clone()));
    assert_eq!(store.snapshot().expect("updated").preferences, updated);
}

#[test]
fn the_prepared_update_is_the_document_that_is_saved() {
    let (storage, mut store) = empty_store();
    let prepared = store.prepare_update(&patch(Some(true), Some(ViewMode::Grid), None)).expect("accepted");
    assert!(prepared.layout.sidebar_collapsed);
    assert_eq!(prepared.layout.view_mode, ViewMode::Grid);
    let returned = store.update(patch(Some(true), Some(ViewMode::Grid), None)).expect("updated");
    assert_eq!(returned, prepared);
    assert_eq!(storage.saved.borrow().clone(), Some(prepared.clone()));
    assert_eq!(storage.reload().snapshot().expect("reloaded").preferences, prepared);
}
