//! An ordered, scrollable, single-selection list of catalog entries.
//!
//! Every operation keeps the panel well formed: the selection is a
//! valid index (or `0` when the panel is empty), and the scroll offset
//! keeps the selection inside the visible window of `height - 2` rows
//! (two rows are reserved for the frame).  Each operation's effect is
//! stated as a relation between the panel before and after, so that the
//! controller can speak of the same effect in its own contracts.

use crate::download::DownloadStatus;
use crate::mc_mod::{MinecraftMod, ModStatus};
use crate::panel_entry::PanelEntry;
use vstd::prelude::*;

verus! {

/// An index clamped into `[0, len - 1]`, or `0` when the list is empty.
pub open spec fn clamped(sel: int, len: int) -> int {
    if len <= 0 {
        0
    } else if sel < len {
        sel
    } else {
        len - 1
    }
}

/// The kind of cell at one coordinate of a panel's border frame.  The
/// rendering layer maps each kind to a box-drawing glyph, bold or thin
/// according to which panel has focus.
#[derive(Clone, Copy, Debug, PartialEq, Eq, Structural)]
pub enum FrameCell {
    TopLeft,
    TopRight,
    BottomLeft,
    BottomRight,
    Horizontal,
    Vertical,
    Interior,
}

/// Which frame cell belongs at column `x`, row `y` of a `width` by
/// `height` panel: the four corners, the vertical and horizontal edges,
/// and blank interior everywhere else.
pub open spec fn frame_cell(width: int, height: int, x: int, y: int) -> FrameCell {
    if x == 0 && y == 0 {
        FrameCell::TopLeft
    } else if x == width - 1 && y == 0 {
        FrameCell::TopRight
    } else if x == 0 && y == height - 1 {
        FrameCell::BottomLeft
    } else if x == width - 1 && y == height - 1 {
        FrameCell::BottomRight
    } else if x == 0 || x == width - 1 {
        FrameCell::Vertical
    } else if y == 0 || y == height - 1 {
        FrameCell::Horizontal
    } else {
        FrameCell::Interior
    }
}

/// One pane of the two-pane display.
#[derive(Debug)]
pub struct Panel {
    pub width: u16,
    pub height: u16,
    pub panel_entries: Vec<PanelEntry>,
    pub selection: usize,
    pub scroll: usize,
}

/// The panel kept its size.
pub open spec fn same_frame(pre: Panel, post: Panel) -> bool {
    post.width == pre.width && post.height == pre.height
}

/// The effect of moving the selection one entry down: clamped to the
/// last entry, with the scroll advanced just far enough to keep the
/// selection visible.
pub open spec fn increased_selection(pre: Panel, post: Panel) -> bool {
    &&& same_frame(pre, post)
    &&& post.panel_entries@ == pre.panel_entries@
    &&& post.selection == clamped(pre.selection + 1, pre.panel_entries@.len() as int)
    &&& post.scroll == if post.selection >= pre.scroll + pre.viewport() {
        post.selection - pre.viewport() + 1
    } else {
        pre.scroll as int
    }
}

/// The effect of moving the selection one entry up: stopping at the
/// first entry, scrolling up when the selection leaves the window.
pub open spec fn decreased_selection(pre: Panel, post: Panel) -> bool {
    &&& same_frame(pre, post)
    &&& post.panel_entries@ == pre.panel_entries@
    &&& post.selection == if pre.selection > 0 {
        pre.selection - 1
    } else {
        0
    }
    &&& post.scroll == if post.selection < pre.scroll {
        post.selection as int
    } else {
        pre.scroll as int
    }
}

/// The effect of focusing the first entry.
pub open spec fn focused_first(pre: Panel, post: Panel) -> bool {
    &&& same_frame(pre, post)
    &&& post.panel_entries@ == pre.panel_entries@
    &&& post.selection == 0
    &&& post.scroll == 0
}

/// The effect of focusing the last entry, scrolled so that it is the
/// last visible row.
pub open spec fn focused_last(pre: Panel, post: Panel) -> bool {
    &&& same_frame(pre, post)
    &&& post.panel_entries@ == pre.panel_entries@
    &&& ({
        let len = pre.panel_entries@.len() as int;
        if len == 0 {
            post.selection == 0 && post.scroll == 0
        } else {
            post.selection == len - 1 && post.scroll == if len > pre.viewport() {
                len - pre.viewport()
            } else {
                0
            }
        }
    })
}

/// The effect of a delete: the selected entry is removed only when its
/// status is `Normal`; entries whose status records a tracked artifact
/// are left untouched, so a delete on them changes nothing but the
/// (re-clamped, hence unchanged) selection.
pub open spec fn deleted_selection(pre: Panel, post: Panel) -> bool {
    &&& same_frame(pre, post)
    &&& ({
        let entries = pre.panel_entries@;
        if entries.len() > 0 && entries[pre.selection as int].data.status == ModStatus::Normal {
            post.panel_entries@ == entries.remove(pre.selection as int)
        } else {
            post.panel_entries@ == entries
        }
    })
    &&& post.selection == clamped(pre.selection as int, post.panel_entries@.len() as int)
    &&& post.scroll == if pre.scroll <= post.selection {
        pre.scroll as int
    } else {
        post.selection as int
    }
}

/// The effect of clearing a panel.
pub open spec fn cleared(pre: Panel, post: Panel) -> bool {
    &&& same_frame(pre, post)
    &&& post.panel_entries@.len() == 0
    &&& post.selection == 0
    &&& post.scroll == 0
}

/// The effect of moving the selected entry from `pre_src` to `pre_dst`:
/// it is removed from the source and appended to the destination, and
/// the source selection is re-clamped; when the source is empty nothing
/// moves.  This is the only path on which an entry crosses from one
/// panel to the other, so at every instant exactly one panel owns it.
pub open spec fn moved_entry(pre_src: Panel, pre_dst: Panel, post_src: Panel, post_dst: Panel) -> bool {
    &&& same_frame(pre_src, post_src)
    &&& same_frame(pre_dst, post_dst)
    &&& post_dst.selection == pre_dst.selection
    &&& post_dst.scroll == pre_dst.scroll
    &&& ({
        let entries = pre_src.panel_entries@;
        if entries.len() > 0 {
            &&& post_src.panel_entries@ == entries.remove(pre_src.selection as int)
            &&& post_dst.panel_entries@ == pre_dst.panel_entries@.push(
                entries[pre_src.selection as int],
            )
        } else {
            &&& post_src.panel_entries@ == entries
            &&& post_dst.panel_entries@ == pre_dst.panel_entries@
        }
    })
    &&& post_src.selection == clamped(pre_src.selection as int, post_src.panel_entries@.len() as int)
    &&& post_src.scroll == if pre_src.scroll <= post_src.selection {
        pre_src.scroll as int
    } else {
        post_src.selection as int
    }
}

/// The effect of adopting a new size: the entries and the selection
/// stay, and the scroll advances just far enough to keep the selection
/// inside the new window.
pub open spec fn resized(pre: Panel, post: Panel, x: u16, y: u16) -> bool {
    &&& post.width == x
    &&& post.height == y
    &&& post.panel_entries@ == pre.panel_entries@
    &&& post.selection == pre.selection
    &&& post.scroll == if pre.selection >= pre.scroll + post.viewport() {
        pre.selection - post.viewport() + 1
    } else {
        pre.scroll as int
    }
}

/// The effect of recording one download outcome on the entry at
/// `index`: a completed or skipped transfer marks it `Okay` and records
/// the file name; a failed one marks it `Bad`.  No other entry and no
/// other panel field changes.
pub open spec fn applied_download(pre: Panel, post: Panel, index: int, result: DownloadStatus) -> bool {
    &&& same_frame(pre, post)
    &&& post.selection == pre.selection
    &&& post.scroll == pre.scroll
    &&& post.panel_entries@.len() == pre.panel_entries@.len()
    &&& forall|j: int|
        0 <= j < pre.panel_entries@.len() && j != index ==> post.panel_entries@[j]
            == pre.panel_entries@[j]
    &&& ({
        let m = pre.panel_entries@[index].data;
        let updated = post.panel_entries@[index].data;
        match result {
            DownloadStatus::Success(filename) => updated == MinecraftMod {
                status: ModStatus::Okay,
                corresponding_file: Some(filename),
                mod_identifier: m.mod_identifier,
                name: m.name,
            },
            DownloadStatus::FileExists(filename) => updated == MinecraftMod {
                status: ModStatus::Okay,
                corresponding_file: Some(filename),
                mod_identifier: m.mod_identifier,
                name: m.name,
            },
            DownloadStatus::Error => updated == MinecraftMod {
                status: ModStatus::Bad,
                corresponding_file: m.corresponding_file,
                mod_identifier: m.mod_identifier,
                name: m.name,
            },
        }
    })
}

impl Panel {
    /// How many entry rows fit between the frame rows.  A panel shorter
    /// than three rows cannot show its frame and an entry at once; the
    /// window is then treated as a single row so that the scroll
    /// discipline stays meaningful.
    pub open spec fn viewport(&self) -> int {
        if self.height >= 3 {
            self.height - 2
        } else {
            1
        }
    }

    /// Well-formedness: the selection is a valid index or `0` when the
    /// panel is empty, and lies inside the window starting at `scroll`.
    pub open spec fn inv(&self) -> bool {
        &&& self.panel_entries@.len() == 0 ==> self.selection == 0 && self.scroll == 0
        &&& self.panel_entries@.len() > 0 ==> self.selection < self.panel_entries@.len()
        &&& self.scroll <= self.selection
        &&& self.selection < self.scroll + self.viewport()
    }

    /// An empty panel of the given size.
    pub fn new(x: u16, y: u16) -> (r: Self)
        ensures
            r.width == x,
            r.height == y,
            r.panel_entries@.len() == 0,
            r.selection == 0,
            r.scroll == 0,
            r.inv(),
    {
        Panel { width: x, height: y, panel_entries: Vec::new(), selection: 0, scroll: 0 }
    }

    /// The number of visible entry rows, as `viewport` describes.
    pub fn viewport_rows(&self) -> (r: usize)
        ensures
            r == self.viewport(),
    {
        if self.height >= 3 {
            (self.height - 2) as usize
        } else {
            1
        }
    }

    /// Re-clamps the selection after entries were removed, and pulls
    /// the scroll offset up to it when it was left behind.
    pub fn fix_selection(&mut self)
        requires
            old(self).scroll <= old(self).selection,
            old(self).selection < old(self).scroll + old(self).viewport(),
        ensures
            final(self).inv(),
            same_frame(*old(self), *final(self)),
            final(self).panel_entries@ == old(self).panel_entries@,
            final(self).selection == clamped(
                old(self).selection as int,
                old(self).panel_entries@.len() as int,
            ),
            final(self).scroll == if old(self).scroll <= final(self).selection {
                old(self).scroll as int
            } else {
                final(self).selection as int
            },
    {
        let len = self.panel_entries.len();
        if len == 0 {
            self.selection = 0;
            self.scroll = 0;
        } else {
            if self.selection >= len {
                self.selection = len - 1;
            }
            if self.scroll > self.selection {
                self.scroll = self.selection;
            }
        }
    }

    /// Removes the selected entry, but only when its status is
    /// `Normal`, as `deleted_selection` describes.
    pub fn delete_selection(&mut self)
        requires
            old(self).inv(),
        ensures
            final(self).inv(),
            deleted_selection(*old(self), *final(self)),
    {
        let len = self.panel_entries.len();
        if len > 0 {
            let is_normal = match self.panel_entries[self.selection].data.status {
                ModStatus::Normal => true,
                _ => false,
            };
            if is_normal {
                let _ = self.panel_entries.remove(self.selection);
            }
        }
        self.fix_selection();
    }

    /// Empties the panel and resets selection and scroll.
    pub fn clear_entries(&mut self)
        ensures
            final(self).inv(),
            cleared(*old(self), *final(self)),
    {
        self.panel_entries.clear();
        self.selection = 0;
        self.scroll = 0;
    }

    /// The selected entry, or `None` when the panel is empty.
    pub fn get_focused(&self) -> (r: Option<&PanelEntry>)
        requires
            self.inv(),
        ensures
            self.panel_entries@.len() == 0 ==> r is None,
            self.panel_entries@.len() > 0 ==> (r matches Some(e) && *e == self.panel_entries@[self.selection as int]),
    {
        if self.panel_entries.len() > 0 {
            Some(&self.panel_entries[self.selection])
        } else {
            None
        }
    }

    /// Moves the selection one entry down, as `increased_selection`
    /// describes.
    pub fn increase_selection(&mut self)
        requires
            old(self).inv(),
        ensures
            final(self).inv(),
            increased_selection(*old(self), *final(self)),
    {
        let len = self.panel_entries.len();
        if len > 0 {
            if self.selection + 1 < len {
                self.selection = self.selection + 1;
            } else {
                self.selection = len - 1;
            }
            let vp = self.viewport_rows();
            if self.selection - self.scroll >= vp {
                self.scroll = self.selection - (vp - 1);
            }
        }
    }

    /// Moves the selection one entry up, as `decreased_selection`
    /// describes.
    pub fn decrease_selection(&mut self)
        requires
            old(self).inv(),
        ensures
            final(self).inv(),
            decreased_selection(*old(self), *final(self)),
    {
        if self.selection > 0 {
            self.selection = self.selection - 1;
        }
        if self.selection < self.scroll {
            self.scroll = self.selection;
        }
    }

    /// Selection and scroll to the first entry.
    pub fn focus_first(&mut self)
        ensures
            final(self).inv(),
            focused_first(*old(self), *final(self)),
    {
        self.selection = 0;
        self.scroll = 0;
    }

    /// Selection to the last entry, as `focused_last` describes.
    pub fn focus_last(&mut self)
        ensures
            final(self).inv(),
            focused_last(*old(self), *final(self)),
    {
        let len = self.panel_entries.len();
        if len == 0 {
            self.selection = 0;
            self.scroll = 0;
        } else {
            self.selection = len - 1;
            let vp = self.viewport_rows();
            if len > vp {
                self.scroll = len - vp;
            } else {
                self.scroll = 0;
            }
        }
    }

    /// Updates the panel's size and scrolls just far enough to keep the
    /// selection inside the new window.
    pub fn resize(&mut self, x: u16, y: u16)
        requires
            old(self).inv(),
        ensures
            final(self).inv(),
            resized(*old(self), *final(self), x, y),
    {
        self.width = x;
        self.height = y;
        let vp = self.viewport_rows();
        if self.selection - self.scroll >= vp {
            self.scroll = self.selection - (vp - 1);
        }
    }

    /// Removes the selected entry from this panel and appends it to the
    /// other panel, as `moved_entry` describes; a no-op when this panel
    /// is empty.
    pub fn move_to_panel(&mut self, other_panel: &mut Panel)
        requires
            old(self).inv(),
            old(other_panel).inv(),
        ensures
            final(self).inv(),
            final(other_panel).inv(),
            moved_entry(*old(self), *old(other_panel), *final(self), *final(other_panel)),
    {
        if self.panel_entries.len() > 0 {
            let entry = self.panel_entries.remove(self.selection);
            other_panel.panel_entries.push(entry);
        }
        self.fix_selection();
    }

    /// The window of entries the rendering layer shows: the half-open
    /// index range from `scroll` to the end of the viewport or of the
    /// list, whichever comes first.  When the panel is not empty the
    /// selected entry always lies inside this range.
    pub fn visible_range(&self) -> (r: (usize, usize))
        requires
            self.inv(),
        ensures
            r.0 == self.scroll,
            r.1 == if self.scroll + self.viewport() <= self.panel_entries@.len() {
                self.scroll + self.viewport()
            } else {
                self.panel_entries@.len() as int
            },
            r.0 <= r.1 <= self.panel_entries@.len(),
            self.panel_entries@.len() > 0 ==> r.0 <= self.selection < r.1,
    {
        let vp = self.viewport_rows();
        let len = self.panel_entries.len();
        if len - self.scroll >= vp {
            (self.scroll, self.scroll + vp)
        } else {
            (self.scroll, len)
        }
    }

    /// Lays out the panel's border frame as a grid of cell kinds, row
    /// by row; the rendering layer turns each kind into a glyph and
    /// draws it at the panel's offset.
    pub fn draw_frame(&self) -> (r: Vec<Vec<FrameCell>>)
        ensures
            r@.len() == self.height as int,
            forall|y: int| 0 <= y < r@.len() ==> (#[trigger] r@[y])@.len() == self.width as int,
            forall|y: int, x: int|
                0 <= y < self.height as int && 0 <= x < self.width as int ==> #[trigger] r@[y]@[x]
                    == frame_cell(self.width as int, self.height as int, x, y),
    {
        let w = self.width as usize;
        let h = self.height as usize;
        let mut rows: Vec<Vec<FrameCell>> = Vec::new();
        let mut y: usize = 0;
        while y < h
            invariant
                y <= h,
                w == self.width as int,
                h == self.height as int,
                rows@.len() == y,
                forall|j: int| 0 <= j < y ==> (#[trigger] rows@[j])@.len() == w as int,
                forall|j: int, k: int|
                    0 <= j < y && 0 <= k < w ==> #[trigger] rows@[j]@[k] == frame_cell(
                        w as int,
                        h as int,
                        k,
                        j,
                    ),
            decreases h - y,
        {
            let mut row: Vec<FrameCell> = Vec::new();
            let mut x: usize = 0;
            while x < w
                invariant
                    x <= w,
                    y < h,
                    row@.len() == x,
                    forall|k: int|
                        0 <= k < x ==> #[trigger] row@[k] == frame_cell(w as int, h as int, k, y as int),
                decreases w - x,
            {
                let cell = if x == 0 && y == 0 {
                    FrameCell::TopLeft
                } else if x + 1 == w && y == 0 {
                    FrameCell::TopRight
                } else if x == 0 && y + 1 == h {
                    FrameCell::BottomLeft
                } else if x + 1 == w && y + 1 == h {
                    FrameCell::BottomRight
                } else if x == 0 || x + 1 == w {
                    FrameCell::Vertical
                } else if y == 0 || y + 1 == h {
                    FrameCell::Horizontal
                } else {
                    FrameCell::Interior
                };
                row.push(cell);
                x = x + 1;
            }
            rows.push(row);
            y = y + 1;
        }
        rows
    }

    /// Records the outcome of one download for the entry at `index`,
    /// as `applied_download` describes.
    pub fn apply_download_result(&mut self, index: usize, result: DownloadStatus)
        requires
            old(self).inv(),
            index < old(self).panel_entries@.len(),
        ensures
            final(self).inv(),
            applied_download(*old(self), *final(self), index as int, result),
    {
        match result {
            DownloadStatus::Success(filename) => {
                self.panel_entries[index].data.status = ModStatus::Okay;
                self.panel_entries[index].data.corresponding_file = Some(filename);
            },
            DownloadStatus::FileExists(filename) => {
                self.panel_entries[index].data.status = ModStatus::Okay;
                self.panel_entries[index].data.corresponding_file = Some(filename);
            },
            DownloadStatus::Error => {
                self.panel_entries[index].data.status = ModStatus::Bad;
            },
        }
    }
}

} // verus!
