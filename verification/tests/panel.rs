use mcmd::download::DownloadStatus;
use mcmd::mc_mod::{MinecraftMod, ModStatus};
use mcmd::panel::{FrameCell, Panel};
use mcmd::panel_entry::PanelEntry;

fn entry(id: &str, name: &str, status: ModStatus) -> PanelEntry {
    PanelEntry::new(MinecraftMod {
        status,
        corresponding_file: None,
        mod_identifier: id.to_string(),
        name: name.to_string(),
    })
}

fn panel_with(entries: Vec<PanelEntry>) -> Panel {
    let mut p = Panel::new(40, 10);
    for e in entries {
        p.panel_entries.push(e);
    }
    p
}

#[test]
fn delete_removes_normal_entry() {
    let mut p = panel_with(vec![entry("a", "A", ModStatus::Normal)]);
    p.delete_selection();
    assert_eq!(p.panel_entries.len(), 0);
    assert_eq!(p.selection, 0);
    assert_eq!(p.scroll, 0);
}

// Status gating: a delete on an entry whose status is not Normal
// changes nothing.
#[test]
fn delete_keeps_tracked_entries() {
    for status in [ModStatus::Okay, ModStatus::Missing, ModStatus::CanUpdate, ModStatus::Bad] {
        let mut p = panel_with(vec![entry("b", "B", status)]);
        p.delete_selection();
        assert_eq!(p.panel_entries.len(), 1);
        assert_eq!(p.panel_entries[0].data.status, status);
    }
}

#[test]
fn selection_stays_in_bounds_under_mixed_operations() {
    let mut p = panel_with(vec![
        entry("a", "A", ModStatus::Normal),
        entry("b", "B", ModStatus::Normal),
        entry("c", "C", ModStatus::Normal),
    ]);
    p.increase_selection();
    p.increase_selection();
    p.increase_selection();
    assert_eq!(p.selection, 2);
    p.delete_selection();
    assert_eq!(p.selection, 1);
    p.delete_selection();
    p.delete_selection();
    assert_eq!(p.selection, 0);
    p.decrease_selection();
    assert_eq!(p.selection, 0);
    assert_eq!(p.panel_entries.len(), 0);
}

#[test]
fn increase_selection_scrolls_to_keep_selection_visible() {
    // height 5 leaves a viewport of 3 rows
    let mut p = Panel::new(20, 5);
    for i in 0..6 {
        p.panel_entries.push(entry(&format!("m{i}"), "M", ModStatus::Normal));
    }
    for _ in 0..4 {
        p.increase_selection();
    }
    assert_eq!(p.selection, 4);
    assert_eq!(p.scroll, 2);
    assert!(p.scroll <= p.selection);
    assert!(p.selection < p.scroll + 3);
}

#[test]
fn decrease_selection_scrolls_up() {
    let mut p = Panel::new(20, 5);
    for i in 0..6 {
        p.panel_entries.push(entry(&format!("m{i}"), "M", ModStatus::Normal));
    }
    p.focus_last();
    assert_eq!(p.selection, 5);
    assert_eq!(p.scroll, 3);
    for _ in 0..4 {
        p.decrease_selection();
    }
    assert_eq!(p.selection, 1);
    assert_eq!(p.scroll, 1);
}

#[test]
fn focus_first_and_last() {
    let mut p = panel_with(vec![
        entry("a", "A", ModStatus::Normal),
        entry("b", "B", ModStatus::Normal),
    ]);
    p.focus_last();
    assert_eq!(p.selection, 1);
    p.focus_first();
    assert_eq!(p.selection, 0);
    assert_eq!(p.scroll, 0);
}

#[test]
fn move_to_panel_transfers_ownership() {
    let mut src = panel_with(vec![
        entry("a", "A", ModStatus::Normal),
        entry("b", "B", ModStatus::Normal),
    ]);
    let mut dst = Panel::new(40, 10);
    src.move_to_panel(&mut dst);
    assert_eq!(src.panel_entries.len(), 1);
    assert_eq!(dst.panel_entries.len(), 1);
    assert_eq!(dst.panel_entries[0].data.mod_identifier, "a");
    assert_eq!(src.panel_entries[0].data.mod_identifier, "b");
}

#[test]
fn move_to_panel_on_empty_is_noop() {
    let mut src = Panel::new(40, 10);
    let mut dst = Panel::new(40, 10);
    src.move_to_panel(&mut dst);
    assert_eq!(src.panel_entries.len(), 0);
    assert_eq!(dst.panel_entries.len(), 0);
}

#[test]
fn clear_entries_resets_panel() {
    let mut p = panel_with(vec![
        entry("a", "A", ModStatus::Normal),
        entry("b", "B", ModStatus::Normal),
    ]);
    p.increase_selection();
    p.clear_entries();
    assert_eq!(p.panel_entries.len(), 0);
    assert_eq!(p.selection, 0);
    assert_eq!(p.scroll, 0);
}

#[test]
fn get_focused_names_selected_entry() {
    let mut p = panel_with(vec![
        entry("a", "A", ModStatus::Normal),
        entry("b", "B", ModStatus::Normal),
    ]);
    p.increase_selection();
    assert_eq!(p.get_focused().unwrap().data.mod_identifier, "b");
    p.clear_entries();
    assert!(p.get_focused().is_none());
}

#[test]
fn apply_download_result_maps_outcomes_to_statuses() {
    let mut p = panel_with(vec![
        entry("a", "A", ModStatus::Normal),
        entry("b", "B", ModStatus::Normal),
        entry("c", "C", ModStatus::Normal),
    ]);
    p.apply_download_result(0, DownloadStatus::Success("a.jar".to_string()));
    p.apply_download_result(1, DownloadStatus::FileExists("b.jar".to_string()));
    p.apply_download_result(2, DownloadStatus::Error);
    assert_eq!(p.panel_entries[0].data.status, ModStatus::Okay);
    assert_eq!(p.panel_entries[0].data.corresponding_file, Some("a.jar".to_string()));
    assert_eq!(p.panel_entries[1].data.status, ModStatus::Okay);
    assert_eq!(p.panel_entries[1].data.corresponding_file, Some("b.jar".to_string()));
    assert_eq!(p.panel_entries[2].data.status, ModStatus::Bad);
    assert_eq!(p.panel_entries[2].data.corresponding_file, None);
}

#[test]
fn visible_range_tracks_scroll_and_viewport() {
    let mut p = Panel::new(20, 5);
    for i in 0..6 {
        p.panel_entries.push(entry(&format!("m{i}"), "M", ModStatus::Normal));
    }
    assert_eq!(p.visible_range(), (0, 3));
    p.focus_last();
    assert_eq!(p.visible_range(), (3, 6));
}

#[test]
fn draw_frame_lays_out_corners_and_edges() {
    let p = Panel::new(3, 3);
    let grid = p.draw_frame();
    assert_eq!(grid.len(), 3);
    assert_eq!(grid[0], vec![FrameCell::TopLeft, FrameCell::Horizontal, FrameCell::TopRight]);
    assert_eq!(grid[1], vec![FrameCell::Vertical, FrameCell::Interior, FrameCell::Vertical]);
    assert_eq!(
        grid[2],
        vec![FrameCell::BottomLeft, FrameCell::Horizontal, FrameCell::BottomRight]
    );
}

#[test]
fn resize_keeps_selection_visible() {
    let mut p = Panel::new(20, 10);
    for i in 0..8 {
        p.panel_entries.push(entry(&format!("m{i}"), "M", ModStatus::Normal));
    }
    for _ in 0..7 {
        p.increase_selection();
    }
    assert_eq!(p.selection, 7);
    p.resize(20, 5);
    assert!(p.scroll <= p.selection);
    assert!(p.selection < p.scroll + 3);
    assert_eq!(p.scroll, 5);
}

#[test]
fn fix_selection_clamps_after_external_removal() {
    let mut p = panel_with(vec![
        entry("a", "A", ModStatus::Normal),
        entry("b", "B", ModStatus::Normal),
    ]);
    p.increase_selection();
    p.panel_entries.pop();
    p.fix_selection();
    assert_eq!(p.selection, 0);
}
