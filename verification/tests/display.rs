use mcmd::display::{ApplicationMode, Command, Display, KeyAction, SearchKey};
use mcmd::download::DownloadStatus;
use mcmd::mc_mod::{MinecraftMod, ModDirectory, ModLoader, ModRepository, ModStatus};
use mcmd::panel_entry::PanelEntry;

fn entry(id: &str, status: ModStatus) -> MinecraftMod {
    MinecraftMod {
        status,
        corresponding_file: None,
        mod_identifier: id.to_string(),
        name: id.to_uppercase(),
    }
}

fn directory(mods: Vec<MinecraftMod>) -> ModDirectory {
    ModDirectory {
        game_version: "1.20.1".to_string(),
        mod_loader: ModLoader::Forge,
        mod_repository: ModRepository::Modrinth,
        mods,
    }
}

fn session(installed: Vec<MinecraftMod>) -> Display {
    Display::new(directory(installed), 80, 24)
}

#[test]
fn new_fills_installed_pane_from_manifest() {
    let d = session(vec![entry("a", ModStatus::Okay), entry("b", ModStatus::Normal)]);
    assert_eq!(d.left.panel_entries.len(), 0);
    assert_eq!(d.right.panel_entries.len(), 2);
    assert_eq!(d.right.panel_entries[0].data.mod_identifier, "a");
    assert_eq!(d.mod_directory.mods.len(), 0);
    assert_eq!(d.focused_col, 0);
    assert!(matches!(d.mode, ApplicationMode::Normal));
    assert!(!d.should_close);
}

#[test]
fn handle_key_decodes_the_key_table() {
    let d = session(vec![]);
    assert_eq!(d.handle_key('q'), KeyAction::Quit);
    assert_eq!(d.handle_key('j'), KeyAction::FocusDown);
    assert_eq!(d.handle_key('k'), KeyAction::FocusUp);
    assert_eq!(d.handle_key('h'), KeyAction::MoveLeft);
    assert_eq!(d.handle_key('l'), KeyAction::MoveRight);
    assert_eq!(d.handle_key('g'), KeyAction::FocusFirst);
    assert_eq!(d.handle_key('G'), KeyAction::FocusLast);
    assert_eq!(d.handle_key('f'), KeyAction::StartSearchMode);
    assert_eq!(d.handle_key('/'), KeyAction::StartSearchMode);
    assert_eq!(d.handle_key('o'), KeyAction::Open);
    assert_eq!(d.handle_key('c'), KeyAction::Clear);
    assert_eq!(d.handle_key('x'), KeyAction::Delete);
    assert_eq!(d.handle_key('d'), KeyAction::Download);
    assert_eq!(d.handle_key('z'), KeyAction::NoOp);
}

// Scenario: staging pane [A(Normal)], installed pane empty; moving the
// entry into the installed pane and downloading with a backend that
// reports the file as already present ends with [A(Okay, "a.jar")].
#[test]
fn stage_move_and_download_scenario() {
    let mut d = session(vec![]);
    d.left.panel_entries.push(PanelEntry::new(entry("a", ModStatus::Normal)));

    let r = d.handle_key_normal_mode(KeyAction::MoveRight);
    assert!(matches!(r, Command::Done));
    assert_eq!(d.left.panel_entries.len(), 0);
    assert_eq!(d.right.panel_entries.len(), 1);
    assert_eq!(d.right.panel_entries[0].data.status, ModStatus::Normal);

    let r = d.handle_key_normal_mode(KeyAction::Download);
    assert!(matches!(r, Command::Download));
    d.right.apply_download_result(0, DownloadStatus::FileExists("a.jar".to_string()));
    assert_eq!(d.right.panel_entries[0].data.status, ModStatus::Okay);
    assert_eq!(
        d.right.panel_entries[0].data.corresponding_file,
        Some("a.jar".to_string())
    );
}

// Scenario: installed pane [B(Missing)]; a delete leaves the pane
// exactly as it was.
#[test]
fn delete_on_missing_entry_is_rejected() {
    let mut d = session(vec![entry("b", ModStatus::Missing)]);
    d.swap_column();
    assert_eq!(d.focused_col, 1);
    let r = d.handle_key_normal_mode(KeyAction::Delete);
    assert!(matches!(r, Command::Done));
    assert_eq!(d.right.panel_entries.len(), 1);
    assert_eq!(d.right.panel_entries[0].data.mod_identifier, "b");
    assert_eq!(d.right.panel_entries[0].data.status, ModStatus::Missing);
}

// Status gating for the cross-panel move: a tracked installed entry
// stays where it is.
#[test]
fn move_of_tracked_entry_is_rejected() {
    for status in [ModStatus::Okay, ModStatus::Missing, ModStatus::Bad, ModStatus::CanUpdate] {
        let mut d = session(vec![entry("b", status)]);
        d.swap_column();
        d.handle_key_normal_mode(KeyAction::MoveLeft);
        assert_eq!(d.left.panel_entries.len(), 0);
        assert_eq!(d.right.panel_entries.len(), 1);
    }
}

#[test]
fn move_of_normal_installed_entry_returns_to_staging() {
    let mut d = session(vec![entry("b", ModStatus::Normal)]);
    d.swap_column();
    d.handle_key_normal_mode(KeyAction::MoveLeft);
    assert_eq!(d.left.panel_entries.len(), 1);
    assert_eq!(d.right.panel_entries.len(), 0);
}

// Scenario: a search for "foo" returns [X, Y] while X is already
// installed; only Y is staged.
#[test]
fn search_results_are_deduplicated_against_both_panes() {
    let mut d = session(vec![entry("x", ModStatus::Okay)]);
    let mut r = d.handle_key_normal_mode(KeyAction::StartSearchMode);
    assert!(matches!(r, Command::Done));
    assert!(matches!(d.mode, ApplicationMode::Search));
    for c in ['f', 'o', 'o'] {
        r = d.handle_key_search_mode(SearchKey::Char(c));
        assert!(matches!(r, Command::Done));
    }
    let query = match d.handle_key_search_mode(SearchKey::Enter) {
        Command::Search(q) => q,
        _ => panic!("enter should commit the query"),
    };
    assert_eq!(query, "foo");
    d.apply_search_results(vec![entry("x", ModStatus::Normal), entry("y", ModStatus::Normal)]);
    assert_eq!(d.left.panel_entries.len(), 1);
    assert_eq!(d.left.panel_entries[0].data.mod_identifier, "y");
    assert!(matches!(d.mode, ApplicationMode::Normal));
    assert_eq!(d.focused_col, 0);
    assert_eq!(d.search_string.get_text(), "");
}

// De-duplication over two searches with overlapping results.
#[test]
fn searching_twice_never_duplicates_identifiers() {
    let mut d = session(vec![entry("x", ModStatus::Okay)]);
    d.apply_search_results(vec![entry("x", ModStatus::Normal), entry("y", ModStatus::Normal)]);
    d.apply_search_results(vec![
        entry("y", ModStatus::Normal),
        entry("z", ModStatus::Normal),
        entry("z", ModStatus::Normal),
    ]);
    let mut ids: Vec<String> = d
        .left
        .panel_entries
        .iter()
        .chain(d.right.panel_entries.iter())
        .map(|e| e.data.mod_identifier.clone())
        .collect();
    ids.sort();
    assert_eq!(ids, vec!["x".to_string(), "y".to_string(), "z".to_string()]);
}

#[test]
fn escape_discards_the_query_and_returns_to_normal_mode() {
    let mut d = session(vec![]);
    d.handle_key_normal_mode(KeyAction::StartSearchMode);
    d.handle_key_search_mode(SearchKey::Char('a'));
    d.handle_key_search_mode(SearchKey::Backspace);
    d.handle_key_search_mode(SearchKey::Char('b'));
    let r = d.handle_key_search_mode(SearchKey::Esc);
    assert!(matches!(r, Command::Done));
    assert!(matches!(d.mode, ApplicationMode::Normal));
    assert_eq!(d.search_string.get_text(), "");
}

#[test]
fn quit_merges_installed_entries_into_the_manifest() {
    let mut d = session(vec![entry("a", ModStatus::Okay), entry("b", ModStatus::Normal)]);
    assert_eq!(d.mod_directory.mods.len(), 0);
    let r = d.handle_key_normal_mode(KeyAction::Quit);
    assert!(matches!(r, Command::Save));
    assert!(d.should_close);
    assert_eq!(d.mod_directory.mods.len(), 2);
    assert_eq!(d.mod_directory.mods[0].mod_identifier, "a");
    assert_eq!(d.mod_directory.mods[1].mod_identifier, "b");
}

#[test]
fn open_names_the_focused_entry() {
    let mut d = session(vec![entry("a", ModStatus::Okay)]);
    d.swap_column();
    match d.handle_key_normal_mode(KeyAction::Open) {
        Command::Open(id) => assert_eq!(id, "a"),
        _ => panic!("open should name the focused entry"),
    }
}

#[test]
fn open_on_empty_pane_does_nothing() {
    let mut d = session(vec![]);
    let r = d.handle_key_normal_mode(KeyAction::Open);
    assert!(matches!(r, Command::Done));
}

#[test]
fn clear_discards_the_staging_pane() {
    let mut d = session(vec![]);
    d.apply_search_results(vec![entry("x", ModStatus::Normal), entry("y", ModStatus::Normal)]);
    assert_eq!(d.left.panel_entries.len(), 2);
    d.handle_key_normal_mode(KeyAction::Clear);
    assert_eq!(d.left.panel_entries.len(), 0);
}

#[test]
fn focus_moves_within_the_focused_pane() {
    let mut d = session(vec![entry("a", ModStatus::Okay), entry("b", ModStatus::Okay)]);
    d.swap_column();
    d.handle_key_normal_mode(KeyAction::FocusDown);
    assert_eq!(d.right.selection, 1);
    d.handle_key_normal_mode(KeyAction::FocusUp);
    assert_eq!(d.right.selection, 0);
    d.handle_key_normal_mode(KeyAction::FocusLast);
    assert_eq!(d.right.selection, 1);
    d.handle_key_normal_mode(KeyAction::FocusFirst);
    assert_eq!(d.right.selection, 0);
}

#[test]
fn update_size_resizes_both_panes() {
    let mut d = session(vec![]);
    d.update_size(100, 30);
    assert_eq!(d.width, 100);
    assert_eq!(d.height, 30);
    assert_eq!(d.left.width, 50);
    assert_eq!(d.left.height, 30);
    assert_eq!(d.right.width, 50);
    assert_eq!(d.right.height, 30);
}
