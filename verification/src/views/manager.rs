//! The main window: the connection and machine list, its toolbar and menus,
//! and the dialogs they open.
use vstd::prelude::*;
use crate::backend::{BackendCommand, DomainAction, DomainSummary};
use crate::events::distinct_names;
use crate::domain::{state_is_active, DomainState};
use crate::state::{
    generated_uri_spec, hypervisor_remote, AddConnectionState, CloneVmState, ConnectionState,
    DeleteVmState, Hypervisor, MigrateState,
};
use crate::uri::{parsed_url, uri_of_parts, LibvirtUri};
use crate::views::clone_vm::CloneDiskStrategy;
use crate::text::{owned, push_str, str_eq};

verus! {

/// Which of the Run, Pause and Shut Down buttons are enabled.
#[derive(Debug, Clone, Copy, PartialEq, Eq, Structural)]
pub struct ToolbarState {
    pub can_start: bool,
    pub can_pause: bool,
    pub can_shutdown: bool,
}

/// The buttons enabled for the selected machine (none without a selection
/// or a known state): Run when it is not running, Pause when it runs, Shut
/// Down when it is running in some form.
pub fn toolbar_state(has_selection: bool, state: Option<DomainState>) -> (r: ToolbarState)
    ensures
        r.can_start == (has_selection && (state matches Some(s) && !state_is_active(s))),
        r.can_pause == (has_selection && state == Some(DomainState::Running)),
        r.can_shutdown == (has_selection && (state matches Some(s) && state_is_active(s))),
{
    match state {
        Some(s) => ToolbarState {
            can_start: has_selection && !s.is_active(),
            can_pause: has_selection && s == DomainState::Running,
            can_shutdown: has_selection && s.is_active(),
        },
        None => ToolbarState { can_start: false, can_pause: false, can_shutdown: false },
    }
}

/// What the Pause button does: resume a paused machine, else pause it.
pub fn pause_button_action(state: Option<DomainState>) -> (r: DomainAction)
    ensures
        r == (if state == Some(DomainState::Paused) { DomainAction::Resume } else { DomainAction::Pause }),
{
    match state {
        Some(DomainState::Paused) => DomainAction::Resume,
        _ => DomainAction::Pause,
    }
}

/// The request for a life-cycle action on the machine `name` of `uri`.
pub fn domain_action_command(uri: &str, name: &str, action: DomainAction) -> (r: BackendCommand)
    ensures
        r matches BackendCommand::DomainAction(u, n, a) && u@ == uri@ && n@ == name@ && a == action,
{
    BackendCommand::DomainAction(owned(uri), owned(name), action)
}

/// The actions the context menu of a machine offers, in order.
pub open spec fn context_actions_spec(s: DomainState) -> Seq<DomainAction> {
    if state_is_active(s) {
        (if s == DomainState::Running {
            seq![DomainAction::Pause]
        } else if s == DomainState::Paused {
            seq![DomainAction::Resume]
        } else {
            Seq::empty()
        }) + seq![DomainAction::Shutdown, DomainAction::Reboot, DomainAction::ForceOff]
    } else {
        seq![DomainAction::Start]
    }
}

pub fn domain_context_actions(s: DomainState) -> (r: Vec<DomainAction>)
    ensures
        r@ == context_actions_spec(s),
{
    let mut r: Vec<DomainAction> = Vec::new();
    if s.is_active() {
        if s == DomainState::Running {
            r.push(DomainAction::Pause);
        }
        if s == DomainState::Paused {
            r.push(DomainAction::Resume);
        }
        r.push(DomainAction::Shutdown);
        r.push(DomainAction::Reboot);
        r.push(DomainAction::ForceOff);
    } else {
        r.push(DomainAction::Start);
    }
    assert(r@ =~= context_actions_spec(s));
    r
}

/// The icon of a machine's state in the list.
pub open spec fn state_icon_spec(s: DomainState) -> Seq<char> {
    match s {
        DomainState::Running => "▶"@,
        DomainState::Paused => "⏸"@,
        DomainState::Shutoff => "⏹"@,
        _ => "?"@,
    }
}

pub fn state_icon(s: DomainState) -> (r: &'static str)
    ensures
        r@ == state_icon_spec(s),
{
    match s {
        DomainState::Running => "▶",
        DomainState::Paused => "⏸",
        DomainState::Shutoff => "⏹",
        _ => "?",
    }
}

/// A machine's row in the list, indented under its connection.
pub fn domain_row_label(s: DomainState, name: &str) -> (r: String)
    ensures
        r@ == "    "@ + state_icon_spec(s) + " "@ + name@,
{
    let mut r = owned("    ");
    push_str(&mut r, state_icon(s));
    push_str(&mut r, " ");
    push_str(&mut r, name);
    r
}

/// A connection's row: the fold arrow, its name, and how it stands when it
/// is not active.
pub open spec fn connection_label_spec(expanded: bool, name: Seq<char>, s: ConnectionState) -> Seq<char> {
    (if expanded { "▼"@ } else { "▶"@ }) + " "@ + name + match s {
        ConnectionState::Active => Seq::empty(),
        ConnectionState::Connecting => " (connecting...)"@,
        ConnectionState::Disconnected => " (disconnected)"@,
    }
}

pub fn connection_row_label(expanded: bool, name: &str, s: ConnectionState) -> (r: String)
    ensures
        r@ == connection_label_spec(expanded, name@, s),
{
    let mut r = owned(if expanded { "▼" } else { "▶" });
    push_str(&mut r, " ");
    push_str(&mut r, name);
    match s {
        ConnectionState::Active => {},
        ConnectionState::Connecting => push_str(&mut r, " (connecting...)"),
        ConnectionState::Disconnected => push_str(&mut r, " (disconnected)"),
    }
    proof {
        if s == ConnectionState::Active {
            assert(r@ =~= connection_label_spec(expanded, name@, s));
        }
    }
    r
}

/// The name a connection is listed under: what its URI describes, or the
/// URI itself when it cannot be read.
pub fn friendly_connection_name(uri: &str) -> (r: String)
    ensures
        match parsed_url(uri@) {
            Ok(p) => exists|u: LibvirtUri| uri_of_parts(uri@, p, u) && r@ == u.display_name_spec(),
            Err(_) => r@ == uri@,
        },
{
    match LibvirtUri::parse(uri) {
        Ok(u) => u.display_name(),
        Err(_) => owned(uri),
    }
}

/// The name proposed for a clone of `name`.
pub fn clone_name_for(name: &str) -> (r: String)
    ensures
        r@ == name@ + "-clone"@,
{
    let mut r = owned(name);
    push_str(&mut r, "-clone");
    r
}

/// Opens the clone dialog for the machine `name` of `uri`; with a disk
/// count, every disk is to be cloned, else the disk choices stay as they
/// were.
pub fn open_clone_dialog(c: &mut CloneVmState, uri: &str, name: &str, disk_count: Option<usize>)
    ensures
        final(c).open,
        final(c).uri@ == uri@,
        final(c).source_name@ == name@,
        final(c).clone_name@ == name@ + "-clone"@,
        match disk_count {
            Some(n) => final(c).disk_strategies@ == Seq::new(n as nat, |i: int| CloneDiskStrategy::Clone),
            None => final(c).disk_strategies == old(c).disk_strategies,
        },
{
    c.open = true;
    c.uri = owned(uri);
    c.source_name = owned(name);
    c.clone_name = clone_name_for(name);
    match disk_count {
        Some(n) => {
            let mut v: Vec<CloneDiskStrategy> = Vec::new();
            while v.len() < n
                invariant
                    v@.len() <= n,
                    forall|i: int| 0 <= i < v@.len() ==> v@[i] == CloneDiskStrategy::Clone,
                decreases n - v@.len(),
            {
                v.push(CloneDiskStrategy::Clone);
            }
            assert(v@ =~= Seq::new(n as nat, |i: int| CloneDiskStrategy::Clone));
            c.disk_strategies = v;
        },
        None => {},
    }
}

/// Opens the delete dialog for the machine `name` of `uri`.
pub fn open_delete_dialog(d: &mut DeleteVmState, uri: &str, name: &str)
    ensures
        final(d).open,
        final(d).uri@ == uri@,
        final(d).domain_name@ == name@,
        final(d).delete_storage == old(d).delete_storage,
{
    d.open = true;
    d.uri = owned(uri);
    d.domain_name = owned(name);
}

/// "Delete" in the delete dialog: the request that undefines the machine.
pub fn delete_command(d: &DeleteVmState) -> (r: BackendCommand)
    ensures
        r matches BackendCommand::UndefineDomain(u, n) && u@ == d.uri@ && n@ == d.domain_name@,
{
    BackendCommand::UndefineDomain(d.uri.clone(), d.domain_name.clone())
}

/// Opens the migrate dialog for the machine `name` of `uri`.
pub fn open_migrate_dialog(m: &mut MigrateState, uri: &str, name: &str)
    ensures
        final(m).open,
        final(m).uri@ == uri@,
        final(m).domain_name@ == name@,
        final(m).dest_uri == old(m).dest_uri,
        final(m).live == old(m).live,
{
    m.open = true;
    m.uri = owned(uri);
    m.domain_name = owned(name);
}

/// The connections a machine can be migrated to: every other one, in order.
pub open spec fn migration_targets_spec(uris: Seq<String>, from: Seq<char>) -> Seq<Seq<char>>
    decreases uris.len(),
{
    if uris.len() == 0 {
        Seq::empty()
    } else {
        let rest = migration_targets_spec(uris.drop_last(), from);
        if uris.last()@ != from { rest.push(uris.last()@) } else { rest }
    }
}

pub fn migration_targets(uris: &Vec<String>, from: &str) -> (r: Vec<String>)
    ensures
        r@.map_values(|s: String| s@) == migration_targets_spec(uris@, from@),
{
    let mut r: Vec<String> = Vec::new();
    let mut i: usize = 0;
    while i < uris.len()
        invariant
            i <= uris@.len(),
            r@.map_values(|s: String| s@) == migration_targets_spec(uris@.take(i as int), from@),
        decreases uris@.len() - i,
    {
        proof {
            assert(uris@.take(i + 1).drop_last() =~= uris@.take(i as int));
        }
        let ghost before = r@;
        if !str_eq(uris[i].as_str(), from) {
            r.push(uris[i].clone());
            proof {
                assert(r@.map_values(|s: String| s@) =~= before.map_values(|s: String| s@).push(uris@[i as int]@));
            }
        }
        i = i + 1;
    }
    proof {
        assert(uris@.take(i as int) =~= uris@);
    }
    r
}

/// "Migrate": live migration when asked for.
pub fn migrate_command(m: &MigrateState) -> (r: BackendCommand)
    ensures
        r matches BackendCommand::MigrateDomain(u, n, d, f) && u@ == m.uri@ && n@ == m.domain_name@
            && d@ == m.dest_uri@ && f == (if m.live { 1u32 } else { 0u32 }),
{
    let flags: u32 = if m.live { 1 } else { 0 };
    BackendCommand::MigrateDomain(m.uri.clone(), m.domain_name.clone(), m.dest_uri.clone(), flags)
}

impl AddConnectionState {
    /// A hypervisor picked: a driver that cannot be reached remotely turns
    /// the remote option off.
    pub fn select_hypervisor(&mut self, h: Hypervisor)
        ensures
            final(self).hypervisor == h,
            final(self).connect_remote == (old(self).connect_remote && (h == old(self).hypervisor || hypervisor_remote(h))),
            final(self).username == old(self).username,
            final(self).hostname == old(self).hostname,
            final(self).autoconnect == old(self).autoconnect,
            final(self).custom_uri == old(self).custom_uri,
            final(self).open == old(self).open,
    {
        let was = self.hypervisor;
        self.hypervisor = h;
        if was != h && !h.supports_remote() {
            self.connect_remote = false;
        }
    }

    /// The remote option ticked or cleared: a remote connection starts with
    /// the user `root` and no autoconnect; a local one autoconnects again.
    pub fn set_connect_remote(&mut self, remote: bool)
        ensures
            final(self).connect_remote == remote,
            remote && !old(self).connect_remote ==> {
                &&& final(self).username@ == (if old(self).username@.len() == 0 { "root"@ } else { old(self).username@ })
                &&& !final(self).autoconnect
            },
            !remote && old(self).connect_remote ==> final(self).autoconnect && final(self).username == old(self).username,
            remote == old(self).connect_remote ==> final(self).autoconnect == old(self).autoconnect
                && final(self).username == old(self).username,
            final(self).hypervisor == old(self).hypervisor,
            final(self).hostname == old(self).hostname,
            final(self).custom_uri == old(self).custom_uri,
            final(self).open == old(self).open,
    {
        let prev = self.connect_remote;
        self.connect_remote = remote;
        if remote && !prev {
            if self.username.as_str().is_empty() {
                self.username = owned("root");
            }
            self.autoconnect = false;
        }
        if !remote && prev {
            self.autoconnect = true;
        }
    }
}

/// What "Connect" in the connection dialog comes to.
#[derive(Debug, Clone)]
pub enum ConnectOutcome {
    /// The dialog is refused with this message and stays open.
    Refused(String),
    /// Nothing is added: the URI is empty or already listed.
    Nothing,
    /// A new connection to `uri` is listed and started; `save` tells whether
    /// it is also saved for autoconnect.
    Add { uri: String, save: bool },
}

fn contains_str(v: &Vec<String>, s: &str) -> (r: bool)
    ensures
        r == exists|i: int| 0 <= i < v@.len() && v@[i]@ == s@,
{
    let mut i: usize = 0;
    while i < v.len()
        invariant
            i <= v@.len(),
            forall|j: int| 0 <= j < i ==> v@[j]@ != s@,
        decreases v@.len() - i,
    {
        if str_eq(v[i].as_str(), s) {
            return true;
        }
        i = i + 1;
    }
    false
}

/// "Connect" with the dialog's fields, given the URIs of the listed
/// connections and the saved ones.
pub fn connect_outcome(a: &AddConnectionState, listed: &Vec<String>, saved: &Vec<String>) -> (r: ConnectOutcome)
    ensures
        a.connect_remote && a.hostname@.len() == 0 ==> (r matches ConnectOutcome::Refused(m)
            && m@ == "A hostname is required for remote connections."@),
        !(a.connect_remote && a.hostname@.len() == 0) ==> {
            let uri = generated_uri_spec(*a);
            if uri.len() == 0 || exists|i: int| 0 <= i < listed@.len() && listed@[i]@ == uri {
                r is Nothing
            } else {
                r matches ConnectOutcome::Add { uri: u, save } && u@ == uri
                    && save == (a.autoconnect && !exists|i: int| 0 <= i < saved@.len() && saved@[i]@ == uri)
            }
        },
{
    let uri = a.generated_uri();
    if a.connect_remote && a.hostname.as_str().is_empty() {
        return ConnectOutcome::Refused(owned("A hostname is required for remote connections."));
    }
    if uri.as_str().is_empty() || contains_str(listed, uri.as_str()) {
        return ConnectOutcome::Nothing;
    }
    let save = a.autoconnect && !contains_str(saved, uri.as_str());
    ConnectOutcome::Add { uri, save }
}

/// "Delete" on a disconnected connection: its URI leaves the saved ones.
pub open spec fn without_uri(uris: Seq<String>, uri: Seq<char>) -> Seq<Seq<char>> {
    migration_targets_spec(uris, uri)
}

pub fn remove_saved_uri(uris: &mut Vec<String>, uri: &str)
    ensures
        final(uris)@.map_values(|s: String| s@) == without_uri(old(uris)@, uri@),
{
    let kept = migration_targets(uris, uri);
    *uris = kept;
}

/// The stats interval as the preferences keep it: at least one second.
pub fn clamp_interval(secs: i64) -> (r: u64)
    ensures
        r == (if secs < 1 { 1 } else { secs }),
{
    if secs < 1 { 1 } else { secs as u64 }
}

/// The order of names in the list: character by character, a name before
/// its extensions.  On UTF-8 text this is the byte order `String` sorts by.
pub open spec fn name_lt(a: Seq<char>, b: Seq<char>) -> bool
    decreases a.len(),
{
    if a.len() == 0 {
        b.len() > 0
    } else if b.len() == 0 {
        false
    } else if a[0] != b[0] {
        a[0] < b[0]
    } else {
        name_lt(a.drop_first(), b.drop_first())
    }
}

proof fn lemma_name_lt_irreflexive(a: Seq<char>)
    ensures
        !name_lt(a, a),
    decreases a.len(),
{
    if a.len() > 0 {
        lemma_name_lt_irreflexive(a.drop_first());
    }
}

proof fn lemma_name_lt_total(a: Seq<char>, b: Seq<char>)
    ensures
        a != b ==> name_lt(a, b) || name_lt(b, a),
        !(name_lt(a, b) && name_lt(b, a)),
    decreases a.len(),
{
    if a.len() > 0 && b.len() > 0 {
        if a[0] == b[0] {
            lemma_name_lt_total(a.drop_first(), b.drop_first());
            if a.drop_first() == b.drop_first() {
                assert(a =~= seq![a[0]] + a.drop_first());
                assert(b =~= seq![b[0]] + b.drop_first());
            }
        } else {
        }
    } else if a.len() == 0 && b.len() == 0 {
        assert(a =~= b);
    }
}

proof fn lemma_name_lt_transitive(a: Seq<char>, b: Seq<char>, c: Seq<char>)
    requires
        name_lt(a, b),
        name_lt(b, c),
    ensures
        name_lt(a, c),
    decreases a.len(),
{
    if a.len() > 0 && b.len() > 0 && c.len() > 0 {
        if a[0] == b[0] && b[0] == c[0] {
            lemma_name_lt_transitive(a.drop_first(), b.drop_first(), c.drop_first());
        }
    }
}

fn name_less(a: &Vec<char>, b: &Vec<char>) -> (r: bool)
    ensures
        r == name_lt(a@, b@),
{
    let mut i: usize = 0;
    assert(a@.skip(0) =~= a@);
    assert(b@.skip(0) =~= b@);
    while i < a.len() && i < b.len() && a[i] == b[i]
        invariant
            i <= a@.len(),
            i <= b@.len(),
            name_lt(a@, b@) == name_lt(a@.skip(i as int), b@.skip(i as int)),
        decreases a@.len() - i,
    {
        proof {
            assert(a@.skip(i as int).drop_first() =~= a@.skip(i + 1));
            assert(b@.skip(i as int).drop_first() =~= b@.skip(i + 1));
        }
        i = i + 1;
    }
    if i == a.len() {
        i < b.len()
    } else if i == b.len() {
        false
    } else {
        a[i] < b[i]
    }
}

/// Whether `r` is in strictly increasing order.
#[verifier::opaque]
pub open spec fn strictly_sorted(r: Seq<Seq<char>>) -> bool {
    forall|i: int, j: int| 0 <= i < j < r.len() ==> name_lt(r[i], r[j])
}

/// Whether `r` holds exactly the names of `s`.
#[verifier::opaque]
pub open spec fn same_names(r: Seq<Seq<char>>, s: Seq<DomainSummary>) -> bool {
    &&& forall|i: int| 0 <= i < r.len() ==> exists|j: int| 0 <= j < s.len() && #[trigger] r[i] == s[j].name@
    &&& forall|j: int| 0 <= j < s.len() ==> exists|i: int| 0 <= i < r.len() && r[i] == #[trigger] s[j].name@
}

proof fn lemma_insert_sorted(rv: Seq<Seq<char>>, p: int, xn: Seq<char>)
    requires
        strictly_sorted(rv),
        0 <= p <= rv.len(),
        forall|i: int| 0 <= i < p ==> name_lt(#[trigger] rv[i], xn),
        p < rv.len() ==> name_lt(xn, rv[p]),
    ensures
        strictly_sorted(rv.insert(p, xn)),
{
    reveal(strictly_sorted);
    let nv = rv.insert(p, xn);
    assert forall|i: int, j: int| 0 <= i < j < nv.len() implies name_lt(nv[i], nv[j]) by {
        if j < p {
            assert(nv[i] == rv[i] && nv[j] == rv[j]);
        } else if j == p {
            assert(nv[i] == rv[i]);
        } else if i == p {
            assert(nv[j] == rv[j - 1]);
            if j - 1 > p {
                lemma_name_lt_transitive(xn, rv[p], rv[j - 1]);
            }
        } else if i < p {
            assert(nv[i] == rv[i] && nv[j] == rv[j - 1]);
        } else {
            assert(nv[i] == rv[i - 1] && nv[j] == rv[j - 1]);
        }
    }
}

proof fn lemma_insert_names(rv: Seq<Seq<char>>, p: int, d: Seq<DomainSummary>, k: int)
    requires
        0 <= k < d.len(),
        0 <= p <= rv.len(),
        same_names(rv, d.take(k)),
    ensures
        same_names(rv.insert(p, d[k].name@), d.take(k + 1)),
{
    reveal(same_names);
    let xn = d[k].name@;
    let nv = rv.insert(p, xn);
    let dk = d.take(k + 1);
    let d0 = d.take(k);
    assert forall|i: int| 0 <= i < nv.len() implies exists|j: int| 0 <= j < dk.len() && #[trigger] nv[i] == dk[j].name@ by {
        if i == p {
            assert(nv[i] == dk[k].name@);
        } else {
            let i2 = if i < p { i } else { i - 1 };
            assert(nv[i] == rv[i2]);
            let j = choose|j: int| 0 <= j < d0.len() && rv[i2] == d0[j].name@;
            assert(dk[j] == d0[j]);
        }
    }
    assert forall|j: int| 0 <= j < dk.len() implies exists|i: int| 0 <= i < nv.len() && nv[i] == #[trigger] dk[j].name@ by {
        if j == k {
            assert(nv[p] == dk[j].name@);
        } else {
            assert(dk[j] == d0[j]);
            let i = choose|i: int| 0 <= i < rv.len() && rv[i] == #[trigger] d0[j].name@;
            if i < p {
                assert(nv[i] == rv[i]);
            } else {
                assert(nv[i + 1] == rv[i]);
            }
        }
    }
}

proof fn lemma_not_listed(rv: Seq<Seq<char>>, d: Seq<DomainSummary>, k: int)
    requires
        distinct_names(d),
        0 <= k < d.len(),
        same_names(rv, d.take(k)),
    ensures
        forall|i: int| 0 <= i < rv.len() ==> rv[i] != d[k].name@,
{
    reveal(same_names);
    assert forall|i: int| 0 <= i < rv.len() implies rv[i] != d[k].name@ by {
        let j = choose|j: int| 0 <= j < d.take(k).len() && rv[i] == d.take(k)[j].name@;
        assert(d.take(k)[j] == d[j]);
    }
}

/// The names of a connection's machines in the order the list shows them.
pub fn sorted_domain_names(domains: &Vec<DomainSummary>) -> (r: Vec<String>)
    requires
        distinct_names(domains@),
    ensures
        r@.len() == domains@.len(),
        strictly_sorted(r@.map_values(|x: String| x@)),
        same_names(r@.map_values(|x: String| x@), domains@),
{
    let ghost d = domains@;
    let mut r: Vec<String> = Vec::new();
    let mut rc: Vec<Vec<char>> = Vec::new();
    let mut k: usize = 0;
    proof {
        reveal(strictly_sorted);
        reveal(same_names);
        assert(d.take(0) =~= Seq::<DomainSummary>::empty());
    }
    while k < domains.len()
        invariant
            k <= d.len(),
            d == domains@,
            distinct_names(d),
            r@.len() == k,
            rc@.map_values(|v: Vec<char>| v@) == r@.map_values(|x: String| x@),
            strictly_sorted(r@.map_values(|x: String| x@)),
            same_names(r@.map_values(|x: String| x@), d.take(k as int)),
        decreases d.len() - k,
    {
        let ghost rv = r@.map_values(|x: String| x@);
        let x = crate::text::chars_of(domains[k].name.as_str());
        let ghost xn = d[k as int].name@;
        proof {
            lemma_not_listed(rv, d, k as int);
        }
        let mut p: usize = 0;
        while p < rc.len() && !name_less(&x, &rc[p])
            invariant
                p <= rc@.len(),
                rc@.map_values(|v: Vec<char>| v@) == rv,
                x@ == xn,
                forall|i: int| 0 <= i < rv.len() ==> rv[i] != xn,
                forall|i: int| 0 <= i < p ==> name_lt(#[trigger] rv[i], xn),
            decreases rc@.len() - p,
        {
            proof {
                assert(rc@[p as int]@ == rv[p as int]);
                lemma_name_lt_total(xn, rv[p as int]);
            }
            p = p + 1;
        }
        proof {
            if p < rv.len() {
                assert(rc@[p as int]@ == rv[p as int]);
            }
            lemma_insert_sorted(rv, p as int, xn);
            lemma_insert_names(rv, p as int, d, k as int);
        }
        let ghost rcv = rc@;
        let ghost r0 = r@;
        r.insert(p, domains[k].name.clone());
        rc.insert(p, x);
        proof {
            assert(r@.map_values(|x: String| x@) =~= rv.insert(p as int, xn));
            assert(rc@.map_values(|v: Vec<char>| v@) =~= rv.insert(p as int, xn));
        }
        k = k + 1;
    }
    proof {
        assert(d.take(d.len() as int) =~= d);
    }
    r
}

} // verus!
