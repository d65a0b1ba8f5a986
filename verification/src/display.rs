//! The reconciliation controller: both panels, the manifest and the
//! session state, with one function per decoded user intent.
//!
//! Network work never happens here.  An intent that needs the catalog
//! service comes back as a [`Command`]; the application shell performs
//! the request and hands the plain result to `apply_search_results` or
//! `Panel::apply_download_result`.  Every handler keeps both panels
//! well formed.

use crate::mc_mod::{MinecraftMod, ModDirectory, ModStatus};
use crate::panel::{
    cleared, decreased_selection, deleted_selection, focused_first, focused_last,
    increased_selection, moved_entry, resized, Panel,
};
use crate::panel_entry::PanelEntry;
use crate::search_field::SearchField;
use vstd::prelude::*;

verus! {

/// A decoded key intent in normal mode.
#[derive(Clone, Copy, Debug, PartialEq, Eq, Structural)]
pub enum KeyAction {
    Quit,
    FocusUp,
    FocusDown,
    MoveLeft,
    MoveRight,
    FocusFirst,
    FocusLast,
    Delete,
    StartSearchMode,
    Download,
    Open,
    Clear,
    NoOp,
}

/// A decoded key intent in search mode.
#[derive(Clone, Copy, Debug, PartialEq, Eq, Structural)]
pub enum SearchKey {
    Char(char),
    Backspace,
    Enter,
    Esc,
}

/// Which input discipline is active.
#[derive(Clone, Copy, Debug, PartialEq, Eq, Structural)]
pub enum ApplicationMode {
    Search,
    Normal,
}

/// The outside work a handled intent asks of the application shell:
/// nothing, opening an entry's catalog page, downloading every entry of
/// the installed pane, running a catalog search, or persisting the
/// manifest before the session ends.
#[derive(Debug)]
pub enum Command {
    Done,
    Open(String),
    Download,
    Search(String),
    Save,
}

/// The key-to-intent table of normal mode.
pub open spec fn key_action_spec(key: char) -> KeyAction {
    if key == 'q' {
        KeyAction::Quit
    } else if key == 'j' {
        KeyAction::FocusDown
    } else if key == 'k' {
        KeyAction::FocusUp
    } else if key == 'h' {
        KeyAction::MoveLeft
    } else if key == 'l' {
        KeyAction::MoveRight
    } else if key == 'g' {
        KeyAction::FocusFirst
    } else if key == 'G' {
        KeyAction::FocusLast
    } else if key == 'f' || key == '/' {
        KeyAction::StartSearchMode
    } else if key == 'o' {
        KeyAction::Open
    } else if key == 'c' {
        KeyAction::Clear
    } else if key == 'x' {
        KeyAction::Delete
    } else if key == 'd' {
        KeyAction::Download
    } else {
        KeyAction::NoOp
    }
}

/// The two-pane display: search/staging pane on the left, installed
/// pane on the right.
#[derive(Debug)]
pub struct Display {
    pub width: u16,
    pub height: u16,
    pub left: Panel,
    pub right: Panel,
    pub focused_col: u8,
    pub mode: ApplicationMode,
    pub search_string: SearchField,
    pub mod_directory: ModDirectory,
    pub should_close: bool,
}

/// Everything outside the two panels is unchanged.
pub open spec fn same_outside_panels(pre: Display, post: Display) -> bool {
    &&& post.width == pre.width
    &&& post.height == pre.height
    &&& post.focused_col == pre.focused_col
    &&& post.mode == pre.mode
    &&& post.search_string == pre.search_string
    &&& post.mod_directory == pre.mod_directory
    &&& post.should_close == pre.should_close
}

/// Everything outside the search text is unchanged.
pub open spec fn same_outside_search_text(pre: Display, post: Display) -> bool {
    &&& post.width == pre.width
    &&& post.height == pre.height
    &&& post.left == pre.left
    &&& post.right == pre.right
    &&& post.focused_col == pre.focused_col
    &&& post.mode == pre.mode
    &&& post.mod_directory == pre.mod_directory
    &&& post.should_close == pre.should_close
}

/// The effect of moving the focus one entry down in the focused pane.
pub open spec fn focus_next_rel(pre: Display, post: Display) -> bool {
    &&& same_outside_panels(pre, post)
    &&& pre.focused_col == 0 ==> increased_selection(pre.left, post.left) && post.right
        == pre.right
    &&& pre.focused_col != 0 ==> increased_selection(pre.right, post.right) && post.left
        == pre.left
}

/// The effect of moving the focus one entry up in the focused pane.
pub open spec fn focus_prev_rel(pre: Display, post: Display) -> bool {
    &&& same_outside_panels(pre, post)
    &&& pre.focused_col == 0 ==> decreased_selection(pre.left, post.left) && post.right
        == pre.right
    &&& pre.focused_col != 0 ==> decreased_selection(pre.right, post.right) && post.left
        == pre.left
}

/// The effect of focusing the first entry of the focused pane.
pub open spec fn focus_first_rel(pre: Display, post: Display) -> bool {
    &&& same_outside_panels(pre, post)
    &&& pre.focused_col == 0 ==> focused_first(pre.left, post.left) && post.right == pre.right
    &&& pre.focused_col != 0 ==> focused_first(pre.right, post.right) && post.left == pre.left
}

/// The effect of focusing the last entry of the focused pane.
pub open spec fn focus_last_rel(pre: Display, post: Display) -> bool {
    &&& same_outside_panels(pre, post)
    &&& pre.focused_col == 0 ==> focused_last(pre.left, post.left) && post.right == pre.right
    &&& pre.focused_col != 0 ==> focused_last(pre.right, post.right) && post.left == pre.left
}

/// The effect of moving the selected staging entry into the installed
/// pane: only when the staging pane has focus; staging entries are
/// always free to move.
pub open spec fn move_entry_left_rel(pre: Display, post: Display) -> bool {
    &&& same_outside_panels(pre, post)
    &&& pre.focused_col == 0 ==> moved_entry(pre.left, pre.right, post.left, post.right)
    &&& pre.focused_col != 0 ==> post == pre
}

/// The effect of moving the selected installed entry back to the
/// staging pane: only when the installed pane has focus and the entry's
/// status is `Normal`.  An entry whose status records a tracked
/// artifact stays where it is and nothing changes.
pub open spec fn move_entry_right_rel(pre: Display, post: Display) -> bool {
    &&& same_outside_panels(pre, post)
    &&& if pre.focused_col == 1 && pre.right.panel_entries@.len() > 0
        && pre.right.panel_entries@[pre.right.selection as int].data.status == ModStatus::Normal {
        moved_entry(pre.right, pre.left, post.right, post.left)
    } else {
        post == pre
    }
}

/// The effect of a delete in the focused pane; entries whose status is
/// not `Normal` are never removed.
pub open spec fn delete_rel(pre: Display, post: Display) -> bool {
    &&& same_outside_panels(pre, post)
    &&& pre.focused_col == 0 ==> deleted_selection(pre.left, post.left) && post.right == pre.right
    &&& pre.focused_col != 0 ==> deleted_selection(pre.right, post.right) && post.left == pre.left
}

/// The effect of discarding the staging pane's entries.
pub open spec fn clear_left_rel(pre: Display, post: Display) -> bool {
    &&& same_outside_panels(pre, post)
    &&& cleared(pre.left, post.left)
    &&& post.right == pre.right
}

/// The effect of ending the session: the installed pane's entries are
/// appended, in order, to the manifest's entry list, and the event loop
/// is told to stop.  Nothing else changes.
pub open spec fn exit_rel(pre: Display, post: Display) -> bool {
    &&& post.width == pre.width
    &&& post.height == pre.height
    &&& post.left == pre.left
    &&& post.right == pre.right
    &&& post.focused_col == pre.focused_col
    &&& post.mode == pre.mode
    &&& post.search_string == pre.search_string
    &&& post.should_close == true
    &&& post.mod_directory.game_version == pre.mod_directory.game_version
    &&& post.mod_directory.mod_loader == pre.mod_directory.mod_loader
    &&& post.mod_directory.mod_repository == pre.mod_directory.mod_repository
    &&& post.mod_directory.mods@.len() == pre.mod_directory.mods@.len()
        + pre.right.panel_entries@.len()
    &&& forall|j: int|
        0 <= j < pre.mod_directory.mods@.len() ==> post.mod_directory.mods@[j]
            == #[trigger] pre.mod_directory.mods@[j]
    &&& forall|j: int|
        0 <= j < pre.right.panel_entries@.len() ==> post.mod_directory.mods@[
            pre.mod_directory.mods@.len() + j] == (#[trigger] pre.right.panel_entries@[j]).data
}

/// Whether some entry of the panel carries the given catalog
/// identifier.
pub open spec fn has_identifier(entries: Seq<PanelEntry>, id: Seq<char>) -> bool {
    exists|i: int| 0 <= i < entries.len() && entries[i].data.mod_identifier@ == id
}

/// The staging pane after integrating a sequence of search results,
/// front to back: a result whose identifier is not yet present in
/// either pane is appended; any other result is dropped.  Later
/// results are also checked against the results appended before them.
pub open spec fn merged_results(
    left: Seq<PanelEntry>,
    right: Seq<PanelEntry>,
    results: Seq<MinecraftMod>,
) -> Seq<PanelEntry>
    decreases results.len(),
{
    if results.len() == 0 {
        left
    } else {
        let m = results[0];
        let appended = if !has_identifier(left, m.mod_identifier@) && !has_identifier(
            right,
            m.mod_identifier@,
        ) {
            left.push(PanelEntry { data: m })
        } else {
            left
        };
        merged_results(appended, right, results.drop_first())
    }
}

/// No two entries of the panel share an identifier.
pub open spec fn unique_identifiers(entries: Seq<PanelEntry>) -> bool {
    forall|i: int, j: int|
        0 <= i < j < entries.len() ==> entries[i].data.mod_identifier@
            != entries[j].data.mod_identifier@
}

/// No identifier occurs twice across the two panes together.
pub open spec fn cross_unique(left: Seq<PanelEntry>, right: Seq<PanelEntry>) -> bool {
    &&& unique_identifiers(left)
    &&& unique_identifiers(right)
    &&& forall|i: int, j: int|
        0 <= i < left.len() && 0 <= j < right.len() ==> left[i].data.mod_identifier@
            != right[j].data.mod_identifier@
}

/// De-duplication: when no identifier occurs twice across the two
/// panes, integrating any sequence of search results — overlapping,
/// repeated, or already present — keeps it that way.  Searching twice
/// therefore never produces two entries with the same identifier
/// across the combined staging and installed set.
pub proof fn lemma_search_deduplicates(
    left: Seq<PanelEntry>,
    right: Seq<PanelEntry>,
    results: Seq<MinecraftMod>,
)
    requires
        cross_unique(left, right),
    ensures
        cross_unique(merged_results(left, right, results), right),
    decreases results.len(),
{
    if results.len() == 0 {
    } else {
        let m = results[0];
        let fresh = !has_identifier(left, m.mod_identifier@) && !has_identifier(
            right,
            m.mod_identifier@,
        );
        let appended = if fresh {
            left.push(PanelEntry { data: m })
        } else {
            left
        };
        assert(cross_unique(appended, right)) by {
            if fresh {
                assert forall|i: int, j: int| 0 <= i < j < appended.len() implies appended[i].data.mod_identifier@
                    != appended[j].data.mod_identifier@ by {
                    if j == appended.len() - 1 {
                        assert(appended[j] == PanelEntry { data: m });
                        assert(!has_identifier(left, m.mod_identifier@));
                    }
                }
            }
        }
        lemma_search_deduplicates(appended, right, results.drop_first());
    }
}

impl Display {
    /// Both panes are well formed and the focus marker names one of
    /// them.
    pub open spec fn inv(&self) -> bool {
        &&& self.left.inv()
        &&& self.right.inv()
        &&& self.focused_col <= 1
    }

    /// A fresh session over a loaded manifest: the installed pane is
    /// filled with the manifest's entries, the staging pane is empty,
    /// and the manifest's own entry list is emptied — it is rebuilt
    /// from the installed pane when the session ends.
    pub fn new(mod_directory: ModDirectory, width: u16, height: u16) -> (r: Self)
        ensures
            r.inv(),
            r.width == width,
            r.height == height,
            r.focused_col == 0,
            r.mode == ApplicationMode::Normal,
            r.should_close == false,
            r.search_string@ == Seq::<char>::empty(),
            r.left.width == width / 2 && r.left.height == height,
            r.right.width == width / 2 && r.right.height == height,
            r.left.panel_entries@.len() == 0,
            r.right.selection == 0 && r.right.scroll == 0,
            r.right.panel_entries@.len() == mod_directory.mods@.len(),
            forall|j: int|
                0 <= j < mod_directory.mods@.len() ==> (#[trigger] r.right.panel_entries@[j]).data
                    == mod_directory.mods@[j],
            r.mod_directory.game_version == mod_directory.game_version,
            r.mod_directory.mod_loader == mod_directory.mod_loader,
            r.mod_directory.mod_repository == mod_directory.mod_repository,
            r.mod_directory.mods@.len() == 0,
    {
        let mut right = Panel::new(width / 2, height);
        let n = mod_directory.mods.len();
        let mut i: usize = 0;
        while i < n
            invariant
                i <= n,
                n == mod_directory.mods@.len(),
                right.width == width / 2 && right.height == height,
                right.selection == 0 && right.scroll == 0,
                right.panel_entries@.len() == i,
                forall|j: int|
                    0 <= j < i ==> (#[trigger] right.panel_entries@[j]).data
                        == mod_directory.mods@[j],
            decreases n - i,
        {
            right.panel_entries.push(PanelEntry::new(mod_directory.mods[i].clone()));
            i = i + 1;
        }
        Display {
            width,
            height,
            left: Panel::new(width / 2, height),
            right,
            focused_col: 0,
            mode: ApplicationMode::Normal,
            search_string: SearchField::new(),
            mod_directory: ModDirectory {
                game_version: mod_directory.game_version,
                mod_loader: mod_directory.mod_loader,
                mod_repository: mod_directory.mod_repository,
                mods: Vec::new(),
            },
            should_close: false,
        }
    }

    /// Focus one entry down in the focused pane.
    pub fn focus_next(&mut self)
        requires
            old(self).inv(),
        ensures
            final(self).inv(),
            focus_next_rel(*old(self), *final(self)),
    {
        if self.focused_col == 0 {
            self.left.increase_selection();
        } else {
            self.right.increase_selection();
        }
    }

    /// Focus one entry up in the focused pane.
    pub fn focus_prev(&mut self)
        requires
            old(self).inv(),
        ensures
            final(self).inv(),
            focus_prev_rel(*old(self), *final(self)),
    {
        if self.focused_col == 0 {
            self.left.decrease_selection();
        } else {
            self.right.decrease_selection();
        }
    }

    /// Focus the first entry of the focused pane.
    pub fn focus_first(&mut self)
        requires
            old(self).inv(),
        ensures
            final(self).inv(),
            focus_first_rel(*old(self), *final(self)),
    {
        if self.focused_col == 0 {
            self.left.focus_first();
        } else {
            self.right.focus_first();
        }
    }

    /// Focus the last entry of the focused pane.
    pub fn focus_last(&mut self)
        requires
            old(self).inv(),
        ensures
            final(self).inv(),
            focus_last_rel(*old(self), *final(self)),
    {
        if self.focused_col == 0 {
            self.left.focus_last();
        } else {
            self.right.focus_last();
        }
    }

    /// Move the selected staging entry into the installed pane.
    pub fn move_entry_left(&mut self)
        requires
            old(self).inv(),
        ensures
            final(self).inv(),
            move_entry_left_rel(*old(self), *final(self)),
    {
        if self.focused_col == 0 {
            self.left.move_to_panel(&mut self.right);
        }
    }

    /// Move the selected installed entry back into the staging pane,
    /// but only when its status is `Normal`: a tracked artifact is
    /// never discarded by a pane move.
    pub fn move_entry_right(&mut self)
        requires
            old(self).inv(),
        ensures
            final(self).inv(),
            move_entry_right_rel(*old(self), *final(self)),
    {
        if self.focused_col == 1 {
            let can_move = match self.right.get_focused() {
                Some(entry) => match entry.data.status {
                    ModStatus::Normal => true,
                    _ => false,
                },
                None => false,
            };
            if can_move {
                self.right.move_to_panel(&mut self.left);
            }
        }
    }

    /// Delete the selected entry of the focused pane, subject to the
    /// `Normal`-status gate.
    pub fn delete(&mut self)
        requires
            old(self).inv(),
        ensures
            final(self).inv(),
            delete_rel(*old(self), *final(self)),
    {
        if self.focused_col == 0 {
            self.left.delete_selection();
        } else {
            self.right.delete_selection();
        }
    }

    /// Discard the staging pane's entries.
    pub fn clear_left(&mut self)
        requires
            old(self).inv(),
        ensures
            final(self).inv(),
            clear_left_rel(*old(self), *final(self)),
    {
        self.left.clear_entries();
    }

    /// Toggle which pane has keyboard focus.
    pub fn swap_column(&mut self)
        requires
            old(self).inv(),
        ensures
            final(self).inv(),
            final(self).focused_col == if old(self).focused_col == 0 {
                1u8
            } else {
                0u8
            },
            final(self).left == old(self).left,
            final(self).right == old(self).right,
            final(self).width == old(self).width,
            final(self).height == old(self).height,
            final(self).mode == old(self).mode,
            final(self).search_string == old(self).search_string,
            final(self).mod_directory == old(self).mod_directory,
            final(self).should_close == old(self).should_close,
    {
        if self.focused_col == 0 {
            self.focused_col = 1;
        } else {
            self.focused_col = 0;
        }
    }

    /// Switch to search mode; nothing else changes.
    pub fn enter_search_mode(&mut self)
        requires
            old(self).inv(),
        ensures
            final(self).inv(),
            final(self).mode == ApplicationMode::Search,
            final(self).left == old(self).left,
            final(self).right == old(self).right,
            final(self).width == old(self).width,
            final(self).height == old(self).height,
            final(self).focused_col == old(self).focused_col,
            final(self).search_string == old(self).search_string,
            final(self).mod_directory == old(self).mod_directory,
            final(self).should_close == old(self).should_close,
    {
        self.mode = ApplicationMode::Search;
    }

    /// Switch back to normal mode; nothing else changes.
    pub fn enter_normal_mode(&mut self)
        requires
            old(self).inv(),
        ensures
            final(self).inv(),
            final(self).mode == ApplicationMode::Normal,
            final(self).left == old(self).left,
            final(self).right == old(self).right,
            final(self).width == old(self).width,
            final(self).height == old(self).height,
            final(self).focused_col == old(self).focused_col,
            final(self).search_string == old(self).search_string,
            final(self).mod_directory == old(self).mod_directory,
            final(self).should_close == old(self).should_close,
    {
        self.mode = ApplicationMode::Normal;
    }

    /// Adopt a new terminal size: each pane takes half the width and
    /// the full height, scrolled just far enough to keep its selection
    /// visible.
    pub fn update_size(&mut self, x: u16, y: u16)
        requires
            old(self).inv(),
        ensures
            final(self).inv(),
            final(self).width == x,
            final(self).height == y,
            resized(old(self).left, final(self).left, x / 2, y),
            resized(old(self).right, final(self).right, x / 2, y),
            final(self).focused_col == old(self).focused_col,
            final(self).mode == old(self).mode,
            final(self).search_string == old(self).search_string,
            final(self).mod_directory == old(self).mod_directory,
            final(self).should_close == old(self).should_close,
    {
        self.width = x;
        self.height = y;
        self.left.resize(x / 2, y);
        self.right.resize(x / 2, y);
    }

    /// End the session: copy every installed-pane entry back into the
    /// manifest's entry list and tell the event loop to stop.  The
    /// caller then persists `self.mod_directory.save()`.
    pub fn exit(&mut self)
        requires
            old(self).inv(),
        ensures
            final(self).inv(),
            exit_rel(*old(self), *final(self)),
    {
        self.should_close = true;
        let n = self.right.panel_entries.len();
        let mut i: usize = 0;
        while i < n
            invariant
                i <= n,
                n == self.right.panel_entries@.len(),
                self.width == old(self).width,
                self.height == old(self).height,
                self.left == old(self).left,
                self.right == old(self).right,
                self.focused_col == old(self).focused_col,
                self.mode == old(self).mode,
                self.search_string == old(self).search_string,
                self.should_close == true,
                self.mod_directory.game_version == old(self).mod_directory.game_version,
                self.mod_directory.mod_loader == old(self).mod_directory.mod_loader,
                self.mod_directory.mod_repository == old(self).mod_directory.mod_repository,
                self.mod_directory.mods@.len() == old(self).mod_directory.mods@.len() + i,
                forall|j: int|
                    0 <= j < old(self).mod_directory.mods@.len() ==> self.mod_directory.mods@[j]
                        == #[trigger] old(self).mod_directory.mods@[j],
                forall|j: int|
                    0 <= j < i ==> self.mod_directory.mods@[old(self).mod_directory.mods@.len() + j]
                        == (#[trigger] self.right.panel_entries@[j]).data,
            decreases n - i,
        {
            let entry_data = self.right.panel_entries[i].data.clone();
            self.mod_directory.mods.push(entry_data);
            i = i + 1;
        }
    }

    /// Decode one normal-mode character into its intent.
    pub fn handle_key(&self, key: char) -> (r: KeyAction)
        ensures
            r == key_action_spec(key),
    {
        match key {
            'q' => KeyAction::Quit,
            'j' => KeyAction::FocusDown,
            'k' => KeyAction::FocusUp,
            'h' => KeyAction::MoveLeft,
            'l' => KeyAction::MoveRight,
            'g' => KeyAction::FocusFirst,
            'G' => KeyAction::FocusLast,
            'f' | '/' => KeyAction::StartSearchMode,
            'o' => KeyAction::Open,
            'c' => KeyAction::Clear,
            'x' => KeyAction::Delete,
            'd' => KeyAction::Download,
            _ => KeyAction::NoOp,
        }
    }

    /// Handle one normal-mode intent.  Pane and session operations are
    /// carried out here; work that needs the catalog service or the
    /// filesystem comes back as the matching [`Command`] for the shell.
    /// The `MoveLeft` and `MoveRight` intents name the direction the
    /// entry travels on screen, so `MoveLeft` moves an entry out of the
    /// installed pane and `MoveRight` moves one out of the staging
    /// pane.
    pub fn handle_key_normal_mode(&mut self, action: KeyAction) -> (r: Command)
        requires
            old(self).inv(),
        ensures
            final(self).inv(),
            match action {
                KeyAction::Quit => exit_rel(*old(self), *final(self)) && r is Save,
                KeyAction::FocusUp => focus_prev_rel(*old(self), *final(self)) && r is Done,
                KeyAction::FocusDown => focus_next_rel(*old(self), *final(self)) && r is Done,
                KeyAction::MoveLeft => move_entry_right_rel(*old(self), *final(self)) && r is Done,
                KeyAction::MoveRight => move_entry_left_rel(*old(self), *final(self)) && r is Done,
                KeyAction::FocusFirst => focus_first_rel(*old(self), *final(self)) && r is Done,
                KeyAction::FocusLast => focus_last_rel(*old(self), *final(self)) && r is Done,
                KeyAction::Delete => delete_rel(*old(self), *final(self)) && r is Done,
                KeyAction::StartSearchMode => *final(self) == Display {
                    mode: ApplicationMode::Search,
                    ..*old(self)
                } && r is Done,
                KeyAction::Download => *final(self) == *old(self) && r is Download,
                KeyAction::Open => *final(self) == *old(self) && ({
                    let pane = if old(self).focused_col == 0 {
                        old(self).left
                    } else {
                        old(self).right
                    };
                    if pane.panel_entries@.len() > 0 {
                        r matches Command::Open(id) && id == pane.panel_entries@[
                            pane.selection as int].data.mod_identifier
                    } else {
                        r is Done
                    }
                }),
                KeyAction::Clear => clear_left_rel(*old(self), *final(self)) && r is Done,
                KeyAction::NoOp => *final(self) == *old(self) && r is Done,
            },
    {
        match action {
            KeyAction::Quit => {
                self.exit();
                Command::Save
            },
            KeyAction::FocusUp => {
                self.focus_prev();
                Command::Done
            },
            KeyAction::FocusDown => {
                self.focus_next();
                Command::Done
            },
            KeyAction::MoveLeft => {
                self.move_entry_right();
                Command::Done
            },
            KeyAction::MoveRight => {
                self.move_entry_left();
                Command::Done
            },
            KeyAction::FocusFirst => {
                self.focus_first();
                Command::Done
            },
            KeyAction::FocusLast => {
                self.focus_last();
                Command::Done
            },
            KeyAction::Delete => {
                self.delete();
                Command::Done
            },
            KeyAction::StartSearchMode => {
                self.enter_search_mode();
                Command::Done
            },
            KeyAction::Download => Command::Download,
            KeyAction::Open => {
                let pane = if self.focused_col == 0 {
                    &self.left
                } else {
                    &self.right
                };
                match pane.get_focused() {
                    Some(entry) => Command::Open(entry.data.mod_identifier.clone()),
                    None => Command::Done,
                }
            },
            KeyAction::Clear => {
                self.clear_left();
                Command::Done
            },
            KeyAction::NoOp => Command::Done,
        }
    }

    /// Handle one search-mode key: characters and backspace edit the
    /// query; `Enter` hands the query to the shell as a search command
    /// (the pane state changes only once the results come back through
    /// `apply_search_results`); `Esc` discards the in-progress query
    /// and returns to normal mode without searching.
    pub fn handle_key_search_mode(&mut self, key: SearchKey) -> (r: Command)
        requires
            old(self).inv(),
        ensures
            final(self).inv(),
            match key {
                SearchKey::Char(c) => same_outside_search_text(*old(self), *final(self))
                    && final(self).search_string@ == old(self).search_string@.push(c) && r is Done,
                SearchKey::Backspace => same_outside_search_text(*old(self), *final(self)) && (
                if old(self).search_string@.len() > 0 {
                    final(self).search_string@ == old(self).search_string@.drop_last()
                } else {
                    final(self).search_string@ == old(self).search_string@
                }) && r is Done,
                SearchKey::Enter => *final(self) == *old(self) && (r matches Command::Search(q)
                    && q@ == old(self).search_string@),
                SearchKey::Esc => ({
                    &&& final(self).mode == ApplicationMode::Normal
                    &&& final(self).search_string@ == Seq::<char>::empty()
                    &&& final(self).left == old(self).left
                    &&& final(self).right == old(self).right
                    &&& final(self).width == old(self).width
                    &&& final(self).height == old(self).height
                    &&& final(self).focused_col == old(self).focused_col
                    &&& final(self).mod_directory == old(self).mod_directory
                    &&& final(self).should_close == old(self).should_close
                    &&& r is Done
                }),
            },
    {
        match key {
            SearchKey::Char(c) => {
                self.search_string.push_char(c);
                Command::Done
            },
            SearchKey::Backspace => {
                self.search_string.delete_last();
                Command::Done
            },
            SearchKey::Enter => Command::Search(self.search_string.get_text()),
            SearchKey::Esc => {
                self.search_string.clear();
                self.mode = ApplicationMode::Normal;
                Command::Done
            },
        }
    }

    /// Integrate the results of a committed search: every result whose
    /// identifier is not yet present in either pane is appended to the
    /// staging pane, duplicates are dropped, the query is cleared, and
    /// the session returns to normal mode with the staging pane
    /// focused.  A failed search hands in an empty sequence and only
    /// the mode and focus change.
    pub fn apply_search_results(&mut self, results: Vec<MinecraftMod>)
        requires
            old(self).inv(),
        ensures
            final(self).inv(),
            final(self).left.panel_entries@ == merged_results(
                old(self).left.panel_entries@,
                old(self).right.panel_entries@,
                results@,
            ),
            final(self).left.selection == old(self).left.selection,
            final(self).left.scroll == old(self).left.scroll,
            final(self).left.width == old(self).left.width,
            final(self).left.height == old(self).left.height,
            final(self).right == old(self).right,
            final(self).mode == ApplicationMode::Normal,
            final(self).focused_col == 0,
            final(self).search_string@ == Seq::<char>::empty(),
            final(self).width == old(self).width,
            final(self).height == old(self).height,
            final(self).mod_directory == old(self).mod_directory,
            final(self).should_close == old(self).should_close,
    {
        let n = results.len();
        let mut i: usize = 0;
        proof {
            assert(results@.skip(0) =~= results@);
        }
        while i < n
            invariant
                i <= n,
                n == results@.len(),
                self.left.selection == old(self).left.selection,
                self.left.scroll == old(self).left.scroll,
                self.left.width == old(self).left.width,
                self.left.height == old(self).left.height,
                self.left.panel_entries@.len() >= old(self).left.panel_entries@.len(),
                old(self).left.inv(),
                self.left.inv(),
                self.right == old(self).right,
                self.mode == old(self).mode,
                self.focused_col == old(self).focused_col,
                self.search_string == old(self).search_string,
                self.width == old(self).width,
                self.height == old(self).height,
                self.mod_directory == old(self).mod_directory,
                self.should_close == old(self).should_close,
                merged_results(
                    old(self).left.panel_entries@,
                    old(self).right.panel_entries@,
                    results@,
                ) == merged_results(
                    self.left.panel_entries@,
                    self.right.panel_entries@,
                    results@.skip(i as int),
                ),
            decreases n - i,
        {
            let m = results[i].clone();
            let dup_left = panel_has_identifier(&self.left, &m.mod_identifier);
            let dup_right = panel_has_identifier(&self.right, &m.mod_identifier);
            proof {
                assert(results@.skip(i as int)[0] == results@[i as int]);
                assert(results@.skip(i as int).drop_first() =~= results@.skip(i as int + 1));
            }
            if !dup_left && !dup_right {
                self.left.panel_entries.push(PanelEntry::new(m));
            }
            i = i + 1;
        }
        proof {
            assert(results@.skip(n as int) =~= Seq::<MinecraftMod>::empty());
        }
        self.search_string.clear();
        self.mode = ApplicationMode::Normal;
        self.focused_col = 0;
    }
}

/// Whether some entry of the panel carries the identifier `id`.
pub fn panel_has_identifier(panel: &Panel, id: &String) -> (r: bool)
    ensures
        r == has_identifier(panel.panel_entries@, id@),
{
    let n = panel.panel_entries.len();
    let mut i: usize = 0;
    while i < n
        invariant
            i <= n,
            n == panel.panel_entries@.len(),
            forall|k: int| 0 <= k < i ==> (#[trigger] panel.panel_entries@[k]).data.mod_identifier@
                != id@,
        decreases n - i,
    {
        if panel.panel_entries[i].data.mod_identifier == *id {
            return true;
        }
        i = i + 1;
    }
    false
}

} // verus!
