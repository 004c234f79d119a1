//! The volume browser: picking a volume of a storage pool as a disk path.
use vstd::prelude::*;
use crate::backend::BackendCommand;
use crate::state::VolumeBrowserState;
use crate::text::{owned, push_str};

verus! {

/// How a pool or a network is listed: active ones with a play mark,
/// inactive ones with a stop mark and a note.
pub open spec fn active_label_spec(name: Seq<char>, active: bool) -> Seq<char> {
    if active { "▶ "@ + name } else { "⏹ "@ + name + " (inactive)"@ }
}

pub fn active_label(name: &str, active: bool) -> (r: String)
    ensures
        r@ == active_label_spec(name@, active),
{
    if active {
        let mut r = owned("▶ ");
        push_str(&mut r, name);
        r
    } else {
        let mut r = owned("⏹ ");
        push_str(&mut r, name);
        push_str(&mut r, " (inactive)");
        r
    }
}

impl VolumeBrowserState {
    /// A pool clicked: it is selected and its volumes are asked for.
    pub fn select_pool(&mut self, name: &str) -> (r: BackendCommand)
        ensures
            final(self).selected_pool matches Some(p) && p@ == name@,
            final(self).selected_path == old(self).selected_path,
            final(self).open == old(self).open,
            final(self).uri == old(self).uri,
            final(self).target == old(self).target,
            r matches BackendCommand::ListVolumes(u, p) && u@ == old(self).uri@ && p@ == name@,
    {
        self.selected_pool = Some(owned(name));
        BackendCommand::ListVolumes(self.uri.clone(), owned(name))
    }

    /// A volume clicked (`confirm` on a double click, which also closes the
    /// browser).
    pub fn pick_volume(&mut self, path: &str, confirm: bool)
        ensures
            final(self).selected_path matches Some(p) && p@ == path@,
            final(self).open == (old(self).open && !confirm),
            final(self).selected_pool == old(self).selected_pool,
            final(self).uri == old(self).uri,
            final(self).target == old(self).target,
    {
        self.selected_path = Some(owned(path));
        if confirm {
            self.open = false;
        }
    }

    /// "Select" (enabled with a path picked) closes the browser with the
    /// pick; "Cancel" closes it without one.
    pub fn close(&mut self, keep_pick: bool)
        ensures
            !final(self).open,
            keep_pick ==> final(self).selected_path == old(self).selected_path,
            !keep_pick ==> final(self).selected_path is None,
            final(self).selected_pool == old(self).selected_pool,
            final(self).uri == old(self).uri,
            final(self).target == old(self).target,
    {
        if !keep_pick {
            self.selected_path = None;
        }
        self.open = false;
    }
}

} // verus!
