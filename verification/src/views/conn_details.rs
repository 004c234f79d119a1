//! The "Connection Details" window: the host overview and the storage and
//! network tabs.
use vstd::prelude::*;
use crate::backend::{BackendCommand, NetworkSummary, StoragePoolSummary};
use crate::state::{ConnDetailsState, CreateVolumeState};
use crate::text::{decimal, owned, push_str, push_u64};

verus! {

/// The libvirt version number `major * 1000000 + minor * 1000 + micro` in
/// its dotted form.
pub open spec fn lib_version_text(v: u32) -> Seq<char> {
    decimal((v / 1000000) as nat) + "."@ + decimal(((v / 1000) % 1000) as nat) + "."@ + decimal((v % 1000) as nat)
}

pub fn format_lib_version(v: u32) -> (r: String)
    ensures
        r@ == lib_version_text(v),
{
    let mut r = String::new();
    push_u64(&mut r, (v / 1000000) as u64);
    push_str(&mut r, ".");
    push_u64(&mut r, ((v / 1000) % 1000) as u64);
    push_str(&mut r, ".");
    push_u64(&mut r, (v % 1000) as u64);
    r
}

/// "Yes" or "No".
pub fn yes_no(b: bool) -> (r: &'static str)
    ensures
        r@ == (if b { "Yes"@ } else { "No"@ }),
{
    if b { "Yes" } else { "No" }
}

/// A request for the connection `uri` that names an object of it.
pub open spec fn names(c: BackendCommand, uri: Seq<char>, name: Seq<char>) -> bool {
    match c {
        BackendCommand::StartStoragePool(u, n) => u@ == uri && n@ == name,
        BackendCommand::StopStoragePool(u, n) => u@ == uri && n@ == name,
        BackendCommand::RefreshStoragePool(u, n) => u@ == uri && n@ == name,
        BackendCommand::DeleteStoragePool(u, n) => u@ == uri && n@ == name,
        BackendCommand::ListVolumes(u, n) => u@ == uri && n@ == name,
        BackendCommand::StartNetwork(u, n) => u@ == uri && n@ == name,
        BackendCommand::StopNetwork(u, n) => u@ == uri && n@ == name,
        BackendCommand::DeleteNetwork(u, n) => u@ == uri && n@ == name,
        _ => false,
    }
}

/// The Stop button of an active pool, the Start button of an inactive one.
pub fn pool_toggle_command(uri: &str, pool: &StoragePoolSummary) -> (r: BackendCommand)
    ensures
        names(r, uri@, pool.name@),
        pool.active ==> r is StopStoragePool,
        !pool.active ==> r is StartStoragePool,
{
    if pool.active {
        BackendCommand::StopStoragePool(owned(uri), pool.name.clone())
    } else {
        BackendCommand::StartStoragePool(owned(uri), pool.name.clone())
    }
}

/// The Stop button of an active network, the Start button of an inactive
/// one.
pub fn network_toggle_command(uri: &str, net: &NetworkSummary) -> (r: BackendCommand)
    ensures
        names(r, uri@, net.name@),
        net.active ==> r is StopNetwork,
        !net.active ==> r is StartNetwork,
{
    if net.active {
        BackendCommand::StopNetwork(owned(uri), net.name.clone())
    } else {
        BackendCommand::StartNetwork(owned(uri), net.name.clone())
    }
}

/// The Refresh button of a pool: refresh it, then list its volumes.
pub fn refresh_pool_commands(uri: &str, name: &str) -> (r: (BackendCommand, BackendCommand))
    ensures
        r.0 is RefreshStoragePool && names(r.0, uri@, name@),
        r.1 is ListVolumes && names(r.1, uri@, name@),
{
    (
        BackendCommand::RefreshStoragePool(owned(uri), owned(name)),
        BackendCommand::ListVolumes(owned(uri), owned(name)),
    )
}

/// Opens the "Create Volume" dialog for a pool.
pub fn open_create_volume(v: &mut CreateVolumeState, uri: &str, pool: &str)
    ensures
        final(v).open,
        final(v).uri@ == uri@,
        final(v).pool_name@ == pool@,
        final(v).name@.len() == 0,
        final(v).format == old(v).format,
        final(v).capacity_gib == old(v).capacity_gib,
{
    v.open = true;
    v.uri = owned(uri);
    v.pool_name = owned(pool);
    v.name = String::new();
}

impl ConnDetailsState {
    /// A tab picked: the storage and network tabs ask for their lists.
    pub fn select_tab(&mut self, uri: &str, tab: usize) -> (r: Option<BackendCommand>)
        ensures
            final(self).active_tab == tab,
            final(self).pools == old(self).pools,
            final(self).selected_pool == old(self).selected_pool,
            tab == 1 ==> (r matches Some(BackendCommand::ListStoragePools(u)) && u@ == uri@),
            tab == 2 ==> (r matches Some(BackendCommand::ListNetworks(u)) && u@ == uri@),
            tab != 1 && tab != 2 ==> r is None,
    {
        self.active_tab = tab;
        if tab == 1 {
            Some(BackendCommand::ListStoragePools(owned(uri)))
        } else if tab == 2 {
            Some(BackendCommand::ListNetworks(owned(uri)))
        } else {
            None
        }
    }

    /// The overview tab without host information asks for it.
    pub fn host_info_request(&self, uri: &str) -> (r: Option<BackendCommand>)
        ensures
            self.host_info is None ==> (r matches Some(BackendCommand::GetHostInfo(u)) && u@ == uri@),
            self.host_info is Some ==> r is None,
    {
        match &self.host_info {
            Some(_) => None,
            None => Some(BackendCommand::GetHostInfo(owned(uri))),
        }
    }

    /// A pool clicked: it is selected and its volumes asked for.
    pub fn select_pool(&mut self, uri: &str, name: &str) -> (r: BackendCommand)
        ensures
            final(self).selected_pool matches Some(p) && p@ == name@,
            final(self).confirm_delete_pool == old(self).confirm_delete_pool,
            final(self).confirm_delete_vol == old(self).confirm_delete_vol,
            r is ListVolumes && names(r, uri@, name@),
    {
        self.selected_pool = Some(owned(name));
        BackendCommand::ListVolumes(owned(uri), owned(name))
    }

    /// "Delete Pool": the pool waits for confirmation.
    pub fn ask_delete_pool(&mut self, name: &str)
        ensures
            final(self).confirm_delete_pool matches Some(p) && p@ == name@,
            final(self).selected_pool == old(self).selected_pool,
    {
        self.confirm_delete_pool = Some(owned(name));
    }

    /// "Yes, delete" for the pool waiting for confirmation: the request that
    /// deletes it; the selection and the question are cleared.
    pub fn confirm_delete_pool(&mut self, uri: &str) -> (r: Option<BackendCommand>)
        ensures
            old(self).confirm_delete_pool matches Some(p) ==> (r matches Some(c) && c is DeleteStoragePool
                && names(c, uri@, p@)),
            old(self).confirm_delete_pool is None ==> r is None,
            final(self).confirm_delete_pool is None,
            old(self).confirm_delete_pool is Some ==> final(self).selected_pool is None,
            old(self).confirm_delete_pool is None ==> final(self).selected_pool == old(self).selected_pool,
    {
        match self.confirm_delete_pool.take() {
            Some(p) => {
                self.selected_pool = None;
                Some(BackendCommand::DeleteStoragePool(owned(uri), p))
            },
            None => None,
        }
    }

    /// "Cancel" on either question.
    pub fn cancel_delete(&mut self)
        ensures
            final(self).confirm_delete_pool is None,
            final(self).confirm_delete_vol is None,
            final(self).selected_pool == old(self).selected_pool,
    {
        self.confirm_delete_pool = None;
        self.confirm_delete_vol = None;
    }

    /// The bin of a volume: the volume waits for confirmation.
    pub fn ask_delete_volume(&mut self, name: &str)
        ensures
            final(self).confirm_delete_vol matches Some(v) && v@ == name@,
            final(self).selected_pool == old(self).selected_pool,
    {
        self.confirm_delete_vol = Some(owned(name));
    }

    /// "Yes, delete" for the volume waiting for confirmation in the pool
    /// `pool`: delete it, then list the pool's volumes again.
    pub fn confirm_delete_volume(&mut self, uri: &str, pool: &str) -> (r: Option<(BackendCommand, BackendCommand)>)
        ensures
            old(self).confirm_delete_vol matches Some(v) ==> (r matches Some((d, l))
                && d matches BackendCommand::DeleteVolume(u, p, n) && u@ == uri@ && p@ == pool@ && n@ == v@
                && l is ListVolumes && names(l, uri@, pool@)),
            old(self).confirm_delete_vol is None ==> r is None,
            final(self).confirm_delete_vol is None,
            final(self).selected_pool == old(self).selected_pool,
    {
        match self.confirm_delete_vol.take() {
            Some(v) => Some((
                BackendCommand::DeleteVolume(owned(uri), owned(pool), v),
                BackendCommand::ListVolumes(owned(uri), owned(pool)),
            )),
            None => None,
        }
    }

    /// A network clicked.
    pub fn select_network(&mut self, name: &str)
        ensures
            final(self).selected_network matches Some(n) && n@ == name@,
    {
        self.selected_network = Some(owned(name));
    }

    /// "Delete" of the selected network: the request that deletes it; the
    /// selection is cleared.
    pub fn delete_network(&mut self, uri: &str, name: &str) -> (r: BackendCommand)
        ensures
            r is DeleteNetwork && names(r, uri@, name@),
            final(self).selected_network is None,
    {
        self.selected_network = None;
        BackendCommand::DeleteNetwork(owned(uri), owned(name))
    }
}

} // verus!
