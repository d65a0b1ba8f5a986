//! One row of a panel: a catalog entry as the rendering layer sees it.

use crate::mc_mod::MinecraftMod;
use crate::text::{fit_spec, fit_string};
use vstd::prelude::*;

verus! {

/// A panel row holding one catalog entry.
#[derive(Debug)]
pub struct PanelEntry {
    pub data: MinecraftMod,
}

impl PanelEntry {
    /// Wraps an entry for display in a panel.
    pub fn new(data: MinecraftMod) -> (r: Self)
        ensures
            r.data == data,
    {
        PanelEntry { data }
    }
}

impl PanelEntry {
    /// The text of this entry's row: its display name padded or cut to
    /// the panel's width, less the two frame columns.
    pub fn row_text(&self, max_width: u16) -> (r: String)
        requires
            max_width >= 2,
        ensures
            r@ == fit_spec(self.data.name@, (max_width - 2) as nat),
    {
        fit_string(self.data.name.as_str(), (max_width - 2) as usize)
    }
}

impl Clone for PanelEntry {
    fn clone(&self) -> (r: Self)
        ensures
            r == *self,
    {
        PanelEntry { data: self.data.clone() }
    }
}

} // verus!
