//! How the interface's list of connections and machines follows the events
//! the connection workers report.
use vstd::prelude::*;
use crate::backend::DomainSummary;
use crate::domain::DomainState;
use crate::state::ConnectionState;
use crate::text::{owned, push_str, str_eq};

verus! {

/// A connection as the main window lists it, with the machines its worker
/// last reported (one entry per name).
#[derive(Debug)]
pub struct GuiConnection {
    pub uri: String,
    pub state: ConnectionState,
    pub domains: Vec<DomainSummary>,
    pub expanded: bool,
}

impl GuiConnection {
    /// A listed connection that is not connected yet.
    pub fn new(uri: String) -> (r: Self)
        ensures
            r.uri == uri,
            r.state == ConnectionState::Disconnected,
            r.domains@.len() == 0,
            r.expanded,
    {
        GuiConnection { uri, state: ConnectionState::Disconnected, domains: Vec::new(), expanded: true }
    }
}

/// The last entry of `s` named `n`.
pub open spec fn entry(s: Seq<DomainSummary>, n: Seq<char>) -> Option<DomainSummary>
    decreases s.len(),
{
    if s.len() == 0 {
        None
    } else if s.last().name@ == n {
        Some(s.last())
    } else {
        entry(s.drop_last(), n)
    }
}

/// The first entry of `s` named `n`.
pub open spec fn first_entry(s: Seq<DomainSummary>, n: Seq<char>) -> Option<DomainSummary>
    decreases s.len(),
{
    if s.len() == 0 {
        None
    } else {
        match first_entry(s.drop_last(), n) {
            Some(e) => Some(e),
            None => if s.last().name@ == n { Some(s.last()) } else { None },
        }
    }
}

/// Whether no two entries share a name.
pub open spec fn distinct_names(s: Seq<DomainSummary>) -> bool {
    forall|i: int, j: int| 0 <= i < j < s.len() ==> s[i].name@ != s[j].name@
}

/// The entry the list holds for machine `n` after a domain list `new` came
/// for a list that held `old`: the reported state, CPUs, memory and
/// definition (the last report of that name), under the UUID it had when it
/// was listed already, else the one of its first report.
pub open spec fn updated_entry(e: DomainSummary, old: Seq<DomainSummary>, new: Seq<DomainSummary>, n: Seq<char>) -> bool {
    let l = entry(new, n)->0;
    &&& e.name@ == n
    &&& e.state == l.state
    &&& e.vcpus == l.vcpus
    &&& e.memory_kib == l.memory_kib
    &&& e.xml == l.xml
    &&& e.uuid == match entry(old, n) {
        Some(o) => o.uuid,
        None => first_entry(new, n)->0.uuid,
    }
}

proof fn lemma_entry_name(s: Seq<DomainSummary>, n: Seq<char>)
    ensures
        entry(s, n) matches Some(e) ==> e.name@ == n,
        entry(s, n) is Some <==> exists|i: int| 0 <= i < s.len() && s[i].name@ == n,
        first_entry(s, n) is Some <==> entry(s, n) is Some,
        first_entry(s, n) matches Some(e) ==> e.name@ == n,
    decreases s.len(),
{
    if s.len() > 0 {
        lemma_entry_name(s.drop_last(), n);
        if exists|i: int| 0 <= i < s.len() && s[i].name@ == n {
            let i = choose|i: int| 0 <= i < s.len() && s[i].name@ == n;
            if i < s.len() - 1 {
                assert(s.drop_last()[i] == s[i]);
            }
        }
        if exists|i: int| 0 <= i < s.drop_last().len() && s.drop_last()[i].name@ == n {
            let i = choose|i: int| 0 <= i < s.drop_last().len() && s.drop_last()[i].name@ == n;
            assert(s[i] == s.drop_last()[i]);
        }
    }
}

proof fn lemma_entry_at(s: Seq<DomainSummary>, j: int)
    requires
        distinct_names(s),
        0 <= j < s.len(),
    ensures
        entry(s, s[j].name@) == Some(s[j]),
    decreases s.len(),
{
    if j < s.len() - 1 {
        assert(s.last().name@ != s[j].name@);
        assert(s.drop_last()[j] == s[j]);
        lemma_entry_at(s.drop_last(), j);
    }
}

proof fn lemma_entry_update(s: Seq<DomainSummary>, j: int, x: DomainSummary, n: Seq<char>)
    requires
        distinct_names(s),
        0 <= j < s.len(),
        x.name@ == s[j].name@,
    ensures
        entry(s.update(j, x), n) == if n == s[j].name@ { Some(x) } else { entry(s, n) },
        distinct_names(s.update(j, x)),
    decreases s.len(),
{
    let t = s.update(j, x);
    if j == s.len() - 1 {
        assert(t.drop_last() =~= s.drop_last());
    } else {
        assert(t.drop_last() =~= s.drop_last().update(j, x));
        assert(s.drop_last()[j] == s[j]);
        lemma_entry_update(s.drop_last(), j, x, n);
        if n == s[j].name@ {
            assert(s.last().name@ != s[j].name@);
        }
    }
}

proof fn lemma_entry_push(s: Seq<DomainSummary>, x: DomainSummary, n: Seq<char>)
    ensures
        entry(s.push(x), n) == if x.name@ == n { Some(x) } else { entry(s, n) },
        first_entry(s.push(x), n) == match first_entry(s, n) {
            Some(e) => Some(e),
            None => if x.name@ == n { Some(x) } else { None },
        },
{
    assert(s.push(x).drop_last() =~= s);
}

proof fn lemma_push_distinct(s: Seq<DomainSummary>, x: DomainSummary)
    requires
        distinct_names(s),
        entry(s, x.name@) is None,
    ensures
        distinct_names(s.push(x)),
{
    lemma_entry_name(s, x.name@);
    assert forall|i: int, j: int| 0 <= i < j < s.push(x).len() implies s.push(x)[i].name@ != s.push(x)[j].name@ by {
        if j == s.len() {
            assert(s.push(x)[i] == s[i]);
        }
    }
}

/// The index of the entry named `name`, if there is one.
fn position_of(s: &Vec<DomainSummary>, name: &str) -> (r: Option<usize>)
    ensures
        match r {
            Some(j) => j < s@.len() && s@[j as int].name@ == name@,
            None => forall|i: int| 0 <= i < s@.len() ==> s@[i].name@ != name@,
        },
{
    let mut i: usize = 0;
    while i < s.len()
        invariant
            i <= s@.len(),
            forall|k: int| 0 <= k < i ==> s@[k].name@ != name@,
        decreases s@.len() - i,
    {
        if str_eq(s[i].name.as_str(), name) {
            return Some(i);
        }
        i = i + 1;
    }
    None
}

fn copy_summary(s: &DomainSummary) -> (r: DomainSummary)
    ensures
        r == *s,
{
    DomainSummary {
        name: s.name.clone(),
        uuid: s.uuid.clone(),
        state: s.state,
        vcpus: s.vcpus,
        memory_kib: s.memory_kib,
        xml: s.xml.clone(),
    }
}

/// A domain list came: machines no longer reported leave the list, listed
/// ones take the reported state, CPUs, memory and definition, new ones are
/// added.
pub fn apply_domain_list(domains: &mut Vec<DomainSummary>, reported: &Vec<DomainSummary>)
    requires
        distinct_names(old(domains)@),
    ensures
        distinct_names(final(domains)@),
        forall|n: Seq<char>| #[trigger] entry(final(domains)@, n) is Some <==> entry(reported@, n) is Some,
        forall|n: Seq<char>| #[trigger] entry(reported@, n) is Some ==> updated_entry(
            entry(final(domains)@, n)->0,
            old(domains)@,
            reported@,
            n,
        ),
{
    let ghost o = domains@;
    let ghost sv = reported@;
    let mut kept: Vec<DomainSummary> = Vec::new();
    let mut i: usize = 0;
    while i < domains.len()
        invariant
            i <= o.len(),
            domains@ == o,
            sv == reported@,
            distinct_names(o),
            distinct_names(kept@),
            forall|n: Seq<char>| #[trigger] entry(kept@, n) == if entry(sv, n) is Some {
                entry(o.take(i as int), n)
            } else {
                None
            },
        decreases o.len() - i,
    {
        let ghost x = o[i as int];
        proof {
            assert(o.take(i + 1) =~= o.take(i as int).push(x));
            assert forall|k: int| 0 <= k < o.take(i as int).len() implies o.take(i as int)[k].name@ != x.name@ by {
                assert(o.take(i as int)[k] == o[k]);
            }
            lemma_entry_name(o.take(i as int), x.name@);
        }
        let found = position_of(reported, domains[i].name.as_str());
        proof {
            lemma_entry_name(sv, x.name@);
            assert forall|n: Seq<char>| true implies #[trigger] entry(o.take(i + 1), n)
                == if x.name@ == n { Some(x) } else { entry(o.take(i as int), n) } by {
                lemma_entry_push(o.take(i as int), x, n);
            }
        }
        if found.is_some() {
            proof {
                assert(entry(kept@, x.name@) is None);
                lemma_push_distinct(kept@, x);
            }
            let ghost before = kept@;
            kept.push(copy_summary(&domains[i]));
            proof {
                assert forall|n: Seq<char>| true implies #[trigger] entry(kept@, n) == if entry(sv, n) is Some {
                    entry(o.take(i + 1), n)
                } else {
                    None
                } by {
                    lemma_entry_push(before, x, n);
                }
            }
        } else {
            proof {
                assert(entry(sv, x.name@) is None);
            }
        }
        i = i + 1;
    }
    proof {
        assert(o.take(o.len() as int) =~= o);
    }
    let mut k: usize = 0;
    assert(sv.take(0) =~= Seq::<DomainSummary>::empty());
    while k < reported.len()
        invariant
            k <= sv.len(),
            sv == reported@,
            distinct_names(kept@),
            forall|n: Seq<char>| #[trigger] entry(kept@, n) is Some <==> (entry(sv, n) is Some && entry(o, n) is Some)
                || entry(sv.take(k as int), n) is Some,
            forall|n: Seq<char>| #[trigger] entry(sv.take(k as int), n) is Some ==> updated_entry(
                entry(kept@, n)->0,
                o,
                sv.take(k as int),
                n,
            ),
            forall|n: Seq<char>| entry(sv.take(k as int), n) is None && entry(sv, n) is Some
                ==> #[trigger] entry(kept@, n) == entry(o, n),
        decreases sv.len() - k,
    {
        let ghost s = sv[k as int];
        let ghost pre = sv.take(k as int);
        proof {
            assert(sv.take(k + 1) =~= pre.push(s));
            assert forall|n: Seq<char>| true implies #[trigger] entry(sv.take(k + 1), n)
                == (if s.name@ == n { Some(s) } else { entry(pre, n) })
                && first_entry(sv.take(k + 1), n) == match first_entry(pre, n) {
                    Some(e) => Some(e),
                    None => if s.name@ == n { Some(s) } else { None },
                } by {
                lemma_entry_push(pre, s, n);
            }
            lemma_entry_name(sv, s.name@);
            assert(sv[k as int].name@ == s.name@);
        }
        match position_of(&kept, reported[k].name.as_str()) {
            Some(j) => {
                let ghost before = kept@;
                let ghost old_e = kept@[j as int];
                proof {
                    lemma_entry_at(before, j as int);
                }
                let e = DomainSummary {
                    name: kept[j].name.clone(),
                    uuid: kept[j].uuid.clone(),
                    state: reported[k].state,
                    vcpus: reported[k].vcpus,
                    memory_kib: reported[k].memory_kib,
                    xml: reported[k].xml.clone(),
                };
                kept.set(j, e);
                proof {
                    assert forall|n: Seq<char>| true implies #[trigger] entry(kept@, n)
                        == if n == s.name@ { Some(e) } else { entry(before, n) } by {
                        lemma_entry_update(before, j as int, e, n);
                    }
                    lemma_entry_update(before, j as int, e, s.name@);
                    lemma_entry_name(pre, s.name@);
                    lemma_entry_name(o, s.name@);
                    if entry(pre, s.name@) is None {
                        assert(entry(before, s.name@) == entry(o, s.name@));
                    }
                }
            },
            None => {
                let ghost before = kept@;
                proof {
                    lemma_entry_name(before, s.name@);
                    lemma_push_distinct(before, s);
                }
                kept.push(copy_summary(&reported[k]));
                proof {
                    assert forall|n: Seq<char>| true implies #[trigger] entry(kept@, n)
                        == if s.name@ == n { Some(s) } else { entry(before, n) } by {
                        lemma_entry_push(before, s, n);
                    }
                    lemma_entry_name(pre, s.name@);
                    lemma_entry_name(o, s.name@);
                }
            },
        }
        k = k + 1;
    }
    proof {
        assert(sv.take(sv.len() as int) =~= sv);
    }
    *domains = kept;
}

/// The first listed connection with this URI.
pub fn find_connection(conns: &Vec<GuiConnection>, uri: &str) -> (r: Option<usize>)
    ensures
        match r {
            Some(i) => i < conns@.len() && conns@[i as int].uri@ == uri@
                && forall|j: int| 0 <= j < i ==> conns@[j].uri@ != uri@,
            None => forall|j: int| 0 <= j < conns@.len() ==> conns@[j].uri@ != uri@,
        },
{
    let mut i: usize = 0;
    while i < conns.len()
        invariant
            i <= conns@.len(),
            forall|j: int| 0 <= j < i ==> conns@[j].uri@ != uri@,
        decreases conns@.len() - i,
    {
        if str_eq(conns[i].uri.as_str(), uri) {
            return Some(i);
        }
        i = i + 1;
    }
    None
}


/// Every connection lists each machine once.
pub open spec fn connections_wf(conns: Seq<GuiConnection>) -> bool {
    forall|i: int| 0 <= i < conns.len() ==> distinct_names(#[trigger] conns[i].domains@)
}

/// The connections listed at start-up: one per saved URI, in order, with
/// no machines and unfolded; with autoconnect they are connecting (their
/// workers are started), else disconnected.
pub fn initial_connections(saved: &Vec<String>, auto_connect: bool) -> (r: Vec<GuiConnection>)
    ensures
        r@.len() == saved@.len(),
        forall|i: int| 0 <= i < r@.len() ==> {
            &&& (#[trigger] r@[i]).uri@ == saved@[i]@
            &&& r@[i].state == (if auto_connect { ConnectionState::Connecting } else { ConnectionState::Disconnected })
            &&& r@[i].domains@.len() == 0
            &&& r@[i].expanded
        },
        connections_wf(r@),
{
    let mut r: Vec<GuiConnection> = Vec::new();
    let mut i: usize = 0;
    while i < saved.len()
        invariant
            i <= saved@.len(),
            r@.len() == i,
            forall|k: int| 0 <= k < i ==> {
                &&& (#[trigger] r@[k]).uri@ == saved@[k]@
                &&& r@[k].state == (if auto_connect { ConnectionState::Connecting } else { ConnectionState::Disconnected })
                &&& r@[k].domains@.len() == 0
                &&& r@[k].expanded
            },
        decreases saved@.len() - i,
    {
        let mut c = GuiConnection::new(owned(saved[i].as_str()));
        if auto_connect {
            c.state = ConnectionState::Connecting;
        }
        r.push(c);
        i = i + 1;
    }
    assert forall|k: int| 0 <= k < r@.len() implies distinct_names(#[trigger] r@[k].domains@) by {}
    r
}

/// The selected machine: the first connection with URI `uri` and its entry
/// named `name`, as positions; nothing when either is not selected or not
/// listed.
pub fn selected_domain_info(conns: &Vec<GuiConnection>, uri: Option<&str>, name: Option<&str>) -> (r: Option<(usize, usize)>)
    ensures
        match (uri, name) {
            (Some(u), Some(n)) => match r {
                Some((i, j)) => {
                    &&& i < conns@.len()
                    &&& conns@[i as int].uri@ == u@
                    &&& forall|k: int| 0 <= k < i ==> conns@[k].uri@ != u@
                    &&& j < conns@[i as int].domains@.len()
                    &&& conns@[i as int].domains@[j as int].name@ == n@
                },
                None => forall|i: int|
                    #![trigger conns@[i]]
                    0 <= i < conns@.len() && conns@[i].uri@ == u@
                        && (forall|k: int| 0 <= k < i ==> conns@[k].uri@ != u@)
                        ==> forall|k: int| 0 <= k < conns@[i].domains@.len() ==> conns@[i].domains@[k].name@ != n@,
            },
            _ => r is None,
        },
{
    match (uri, name) {
        (Some(u), Some(n)) => match find_connection(conns, u) {
            Some(i) => match position_of(&conns[i].domains, n) {
                Some(j) => Some((i, j)),
                None => None,
            },
            None => None,
        },
        _ => None,
    }
}

/// Whether no two entries of a list share a name (`distinct_names`).
pub fn names_distinct(s: &Vec<DomainSummary>) -> (r: bool)
    ensures
        r == distinct_names(s@),
{
    let mut j: usize = 0;
    while j < s.len()
        invariant
            j <= s@.len(),
            forall|a: int, b: int| 0 <= a < b < j ==> s@[a].name@ != s@[b].name@,
        decreases s@.len() - j,
    {
        let mut i: usize = 0;
        while i < j
            invariant
                i <= j < s@.len(),
                forall|a: int| 0 <= a < i ==> s@[a].name@ != s@[j as int].name@,
            decreases j - i,
        {
            if str_eq(s[i].name.as_str(), s[j].name.as_str()) {
                return false;
            }
            i = i + 1;
        }
        j = j + 1;
    }
    true
}

/// Whether every connection lists each machine once (`connections_wf`).
pub fn connections_wf_holds(conns: &Vec<GuiConnection>) -> (r: bool)
    ensures
        r == connections_wf(conns@),
{
    let mut i: usize = 0;
    while i < conns.len()
        invariant
            i <= conns@.len(),
            forall|a: int| 0 <= a < i ==> distinct_names(#[trigger] conns@[a].domains@),
        decreases conns@.len() - i,
    {
        if !names_distinct(&conns[i].domains) {
            return false;
        }
        i = i + 1;
    }
    true
}

/// The position of the first connection with this URI.
pub open spec fn connection_index(conns: Seq<GuiConnection>, uri: Seq<char>) -> Option<int> {
    if exists|i: int| 0 <= i < conns.len() && conns[i].uri@ == uri {
        Some(choose|i: int| 0 <= i < conns.len() && conns[i].uri@ == uri
            && forall|j: int| 0 <= j < i ==> conns[j].uri@ != uri)
    } else {
        None
    }
}

proof fn lemma_connection_index(conns: Seq<GuiConnection>, uri: Seq<char>, i: int)
    requires
        0 <= i < conns.len(),
        conns[i].uri@ == uri,
        forall|j: int| 0 <= j < i ==> conns[j].uri@ != uri,
    ensures
        connection_index(conns, uri) == Some(i),
{
    let k = choose|k: int| 0 <= k < conns.len() && conns[k].uri@ == uri
        && forall|j: int| 0 <= j < k ==> conns[j].uri@ != uri;
    assert(0 <= i < conns.len() && conns[i].uri@ == uri && forall|j: int| 0 <= j < i ==> conns[j].uri@ != uri);
    if k < i {
        assert(conns[k].uri@ != uri);
    }
    if i < k {
        assert(conns[i].uri@ != uri);
    }
}

fn locate(conns: &Vec<GuiConnection>, uri: &str) -> (r: Option<usize>)
    ensures
        match r {
            Some(i) => i < conns@.len() && connection_index(conns@, uri@) == Some(i as int),
            None => connection_index(conns@, uri@) is None,
        },
{
    let r = find_connection(conns, uri);
    proof {
        match r {
            Some(i) => lemma_connection_index(conns@, uri@, i as int),
            None => {},
        }
    }
    r
}

/// `conns` with the connection at `i` changed as `f` says: its state set to
/// `state`, its machines replaced by `domains` when given.
pub open spec fn changed(c: GuiConnection, d: GuiConnection, state: ConnectionState, cleared: bool) -> bool {
    &&& d.uri == c.uri
    &&& d.expanded == c.expanded
    &&& d.state == state
    &&& if cleared { d.domains@.len() == 0 } else { d.domains == c.domains }
}

fn set_state(conns: &mut Vec<GuiConnection>, i: usize, state: ConnectionState, clear: bool)
    requires
        i < old(conns)@.len(),
        connections_wf(old(conns)@),
    ensures
        final(conns)@.len() == old(conns)@.len(),
        connections_wf(final(conns)@),
        forall|j: int| 0 <= j < old(conns)@.len() && j != i ==> final(conns)@[j] == old(conns)@[j],
        changed(old(conns)@[i as int], final(conns)@[i as int], state, clear),
{
    let ghost before = conns@;
    let mut c = conns.remove(i);
    c.state = state;
    if clear {
        c.domains = Vec::new();
    }
    conns.insert(i, c);
    proof {
        assert forall|j: int| 0 <= j < conns@.len() implies distinct_names(#[trigger] conns@[j].domains@) by {
            if j != i {
                assert(conns@[j] == before[j]);
            }
        }
    }
}

/// "Connection opened": the connection becomes active.
#[verifier::spinoff_prover]
#[verifier::rlimit(40)]
pub fn connection_opened(conns: &mut Vec<GuiConnection>, uri: &str)
    requires
        connections_wf(old(conns)@),
    ensures
        connections_wf(final(conns)@),
        final(conns)@.len() == old(conns)@.len(),
        match connection_index(old(conns)@, uri@) {
            Some(i) => changed(old(conns)@[i], final(conns)@[i], ConnectionState::Active, false)
                && forall|j: int| 0 <= j < old(conns)@.len() && j != i ==> final(conns)@[j] == old(conns)@[j],
            None => final(conns)@ == old(conns)@,
        },
{
    match locate(conns, uri) {
        Some(i) => set_state(conns, i, ConnectionState::Active, false),
        None => {},
    }
}

/// "Connection failed": the connection is disconnected; the message shown
/// is given back.
#[verifier::spinoff_prover]
#[verifier::rlimit(40)]
pub fn connection_failed(conns: &mut Vec<GuiConnection>, uri: &str, err: &str) -> (msg: String)
    requires
        connections_wf(old(conns)@),
    ensures
        msg@ == "Connection to "@ + uri@ + " failed: "@ + err@,
        connections_wf(final(conns)@),
        final(conns)@.len() == old(conns)@.len(),
        match connection_index(old(conns)@, uri@) {
            Some(i) => changed(old(conns)@[i], final(conns)@[i], ConnectionState::Disconnected, false)
                && forall|j: int| 0 <= j < old(conns)@.len() && j != i ==> final(conns)@[j] == old(conns)@[j],
            None => final(conns)@ == old(conns)@,
        },
{
    match locate(conns, uri) {
        Some(i) => set_state(conns, i, ConnectionState::Disconnected, false),
        None => {},
    }
    let mut msg = owned("Connection to ");
    push_str(&mut msg, uri);
    push_str(&mut msg, " failed: ");
    push_str(&mut msg, err);
    msg
}

/// "Connection closed", or "Disconnect" from the menu: the connection is
/// disconnected and lists no machine.
#[verifier::spinoff_prover]
#[verifier::rlimit(40)]
pub fn connection_closed(conns: &mut Vec<GuiConnection>, uri: &str)
    requires
        connections_wf(old(conns)@),
    ensures
        connections_wf(final(conns)@),
        final(conns)@.len() == old(conns)@.len(),
        match connection_index(old(conns)@, uri@) {
            Some(i) => changed(old(conns)@[i], final(conns)@[i], ConnectionState::Disconnected, true)
                && forall|j: int| 0 <= j < old(conns)@.len() && j != i ==> final(conns)@[j] == old(conns)@[j],
            None => final(conns)@ == old(conns)@,
        },
{
    match locate(conns, uri) {
        Some(i) => set_state(conns, i, ConnectionState::Disconnected, true),
        None => {},
    }
}

/// "Domain list updated": the connection's machines follow the report (see
/// `apply_domain_list`).
#[verifier::spinoff_prover]
#[verifier::rlimit(40)]
pub fn domain_list_updated(conns: &mut Vec<GuiConnection>, uri: &str, reported: &Vec<DomainSummary>)
    requires
        connections_wf(old(conns)@),
    ensures
        connections_wf(final(conns)@),
        final(conns)@.len() == old(conns)@.len(),
        match connection_index(old(conns)@, uri@) {
            Some(i) => {
                let c = old(conns)@[i];
                let d = final(conns)@[i];
                &&& d.uri == c.uri && d.state == c.state && d.expanded == c.expanded
                &&& forall|n: Seq<char>| #[trigger] entry(d.domains@, n) is Some <==> entry(reported@, n) is Some
                &&& forall|n: Seq<char>| #[trigger] entry(reported@, n) is Some
                    ==> updated_entry(entry(d.domains@, n)->0, c.domains@, reported@, n)
                &&& forall|j: int| 0 <= j < old(conns)@.len() && j != i ==> final(conns)@[j] == old(conns)@[j]
            },
            None => final(conns)@ == old(conns)@,
        },
{
    match locate(conns, uri) {
        Some(i) => {
            let ghost before = conns@;
            let mut c = conns.remove(i);
            assert(c == before[i as int]);
            apply_domain_list(&mut c.domains, reported);
            conns.insert(i, c);
            proof {
                assert forall|j: int| 0 <= j < conns@.len() implies distinct_names(#[trigger] conns@[j].domains@) by {
                    if j != i {
                        assert(conns@[j] == before[j]);
                    }
                }
            }
        },
        None => {},
    }
}

/// "Domain state changed": the machine named `name` takes the new state.
#[verifier::spinoff_prover]
#[verifier::rlimit(40)]
pub fn domain_state_changed(conns: &mut Vec<GuiConnection>, uri: &str, name: &str, state: DomainState)
    requires
        connections_wf(old(conns)@),
    ensures
        connections_wf(final(conns)@),
        final(conns)@.len() == old(conns)@.len(),
        match connection_index(old(conns)@, uri@) {
            Some(i) => {
                let c = old(conns)@[i];
                let d = final(conns)@[i];
                &&& d.uri == c.uri && d.state == c.state && d.expanded == c.expanded
                &&& d.domains@.len() == c.domains@.len()
                &&& forall|k: int| 0 <= k < c.domains@.len() ==> if c.domains@[k].name@ == name@ {
                    d.domains@[k] == (DomainSummary { state, ..c.domains@[k] })
                } else {
                    d.domains@[k] == c.domains@[k]
                }
                &&& forall|j: int| 0 <= j < old(conns)@.len() && j != i ==> final(conns)@[j] == old(conns)@[j]
            },
            None => final(conns)@ == old(conns)@,
        },
{
    match locate(conns, uri) {
        Some(i) => {
            let ghost before = conns@;
            let mut c = conns.remove(i);
            assert(c == before[i as int]);
            set_domain_state(&mut c.domains, name, state);
            conns.insert(i, c);
            proof {
                assert forall|j: int| 0 <= j < conns@.len() implies distinct_names(#[trigger] conns@[j].domains@) by {
                    if j != i {
                        assert(conns@[j] == before[j]);
                    }
                }
            }
        },
        None => {},
    }
}

/// "Domain undefined": the machine named `name` leaves the list.
#[verifier::spinoff_prover]
#[verifier::rlimit(40)]
pub fn domain_undefined(conns: &mut Vec<GuiConnection>, uri: &str, name: &str)
    requires
        connections_wf(old(conns)@),
    ensures
        connections_wf(final(conns)@),
        final(conns)@.len() == old(conns)@.len(),
        match connection_index(old(conns)@, uri@) {
            Some(i) => {
                let c = old(conns)@[i];
                let d = final(conns)@[i];
                &&& d.uri == c.uri && d.state == c.state && d.expanded == c.expanded
                &&& entry(d.domains@, name@) is None
                &&& forall|n: Seq<char>| n != name@ ==> #[trigger] entry(d.domains@, n) == entry(c.domains@, n)
                &&& forall|j: int| 0 <= j < old(conns)@.len() && j != i ==> final(conns)@[j] == old(conns)@[j]
            },
            None => final(conns)@ == old(conns)@,
        },
{
    match locate(conns, uri) {
        Some(i) => {
            let ghost before = conns@;
            let mut c = conns.remove(i);
            assert(c == before[i as int]);
            remove_named(&mut c.domains, name);
            conns.insert(i, c);
            proof {
                assert forall|j: int| 0 <= j < conns@.len() implies distinct_names(#[trigger] conns@[j].domains@) by {
                    if j != i {
                        assert(conns@[j] == before[j]);
                    }
                }
            }
        },
        None => {},
    }
}

proof fn lemma_entry_remove(s: Seq<DomainSummary>, k: int)
    requires
        distinct_names(s),
        0 <= k < s.len(),
    ensures
        distinct_names(s.remove(k)),
        forall|n: Seq<char>| n != s[k].name@ ==> #[trigger] entry(s.remove(k), n) == entry(s, n),
    decreases s.len(),
{
    let t = s.remove(k);
    assert forall|a: int, b: int| 0 <= a < b < t.len() implies t[a].name@ != t[b].name@ by {
        let a2 = if a < k { a } else { a + 1 };
        let b2 = if b < k { b } else { b + 1 };
        assert(t[a] == s[a2]);
        assert(t[b] == s[b2]);
    }
    if k == s.len() - 1 {
        assert(t =~= s.drop_last());
        assert forall|n: Seq<char>| n != s[k].name@ implies #[trigger] entry(t, n) == entry(s, n) by {}
    } else {
        assert(t.drop_last() =~= s.drop_last().remove(k));
        assert(t.last() == s.last());
        assert(s.drop_last()[k] == s[k]);
        assert(distinct_names(s.drop_last()));
        lemma_entry_remove(s.drop_last(), k);
        assert forall|n: Seq<char>| n != s[k].name@ implies #[trigger] entry(t, n) == entry(s, n) by {
            assert(entry(s.drop_last().remove(k), n) == entry(s.drop_last(), n));
        }
    }
}

/// Removes the machine named `name` from a list.
fn remove_named(domains: &mut Vec<DomainSummary>, name: &str)
    requires
        distinct_names(old(domains)@),
    ensures
        distinct_names(final(domains)@),
        entry(final(domains)@, name@) is None,
        forall|n: Seq<char>| n != name@ ==> #[trigger] entry(final(domains)@, n) == entry(old(domains)@, n),
{
    let ghost cd = domains@;
    match position_of(domains, name) {
        Some(k) => {
            domains.remove(k);
            proof {
                lemma_entry_remove(cd, k as int);
                lemma_entry_name(domains@, name@);
                assert forall|m: int| 0 <= m < domains@.len() implies domains@[m].name@ != name@ by {
                    if m < k {
                        assert(domains@[m] == cd[m]);
                        assert(cd[m].name@ != cd[k as int].name@);
                    } else {
                        assert(domains@[m] == cd[m + 1]);
                        assert(cd[m + 1].name@ != cd[k as int].name@);
                    }
                }
            }
        },
        None => {
            proof {
                lemma_entry_name(cd, name@);
            }
        },
    }
}

/// Gives the machine named `name` the state `state`.
fn set_domain_state(domains: &mut Vec<DomainSummary>, name: &str, state: DomainState)
    requires
        distinct_names(old(domains)@),
    ensures
        distinct_names(final(domains)@),
        final(domains)@.len() == old(domains)@.len(),
        forall|k: int| 0 <= k < old(domains)@.len() ==> if old(domains)@[k].name@ == name@ {
            final(domains)@[k] == (DomainSummary { state, ..old(domains)@[k] })
        } else {
            final(domains)@[k] == old(domains)@[k]
        },
{
    let ghost cd = domains@;
    match position_of(domains, name) {
        Some(k) => {
            let mut e = domains.remove(k);
            e.state = state;
            domains.insert(k, e);
            proof {
                assert forall|a: int, b: int| 0 <= a < b < domains@.len()
                    implies domains@[a].name@ != domains@[b].name@ by {
                    assert(cd[a].name@ == domains@[a].name@);
                    assert(cd[b].name@ == domains@[b].name@);
                }
                assert forall|m: int| 0 <= m < cd.len() && cd[m].name@ == name@ implies m == k by {
                    if m != k {
                        assert(cd[m].name@ != cd[k as int].name@);
                    }
                }
            }
        },
        None => {},
    }
}

/// Whether two entries show the same machine the same way.
pub open spec fn same_entry(a: DomainSummary, b: DomainSummary) -> bool {
    &&& a.name@ == b.name@
    &&& a.uuid@ == b.uuid@
    &&& a.state == b.state
    &&& a.vcpus == b.vcpus
    &&& a.memory_kib == b.memory_kib
    &&& a.xml@ == b.xml@
}

/// A domain list that is reported again changes nothing: when `first` is
/// what `apply_domain_list` made of `old` and the report `new`, and `second`
/// what it made of `first` and the same report, both show the same machines
/// the same way.
pub proof fn lemma_domain_list_settles(
    old: Seq<DomainSummary>,
    new: Seq<DomainSummary>,
    first: Seq<DomainSummary>,
    second: Seq<DomainSummary>,
)
    requires
        forall|n: Seq<char>| #[trigger] entry(first, n) is Some <==> entry(new, n) is Some,
        forall|n: Seq<char>| #[trigger] entry(new, n) is Some ==> updated_entry(entry(first, n)->0, old, new, n),
        forall|n: Seq<char>| #[trigger] entry(second, n) is Some <==> entry(new, n) is Some,
        forall|n: Seq<char>| #[trigger] entry(new, n) is Some ==> updated_entry(entry(second, n)->0, first, new, n),
    ensures
        forall|n: Seq<char>| #[trigger] entry(second, n) is Some <==> entry(first, n) is Some,
        forall|n: Seq<char>| #[trigger] entry(first, n) is Some ==> same_entry(entry(second, n)->0, entry(first, n)->0),
{
    assert forall|n: Seq<char>| #[trigger] entry(first, n) is Some implies same_entry(
        entry(second, n)->0,
        entry(first, n)->0,
    ) by {
        assert(entry(new, n) is Some);
        assert(updated_entry(entry(second, n)->0, first, new, n));
        assert(updated_entry(entry(first, n)->0, old, new, n));
    }
}

/// Whatever the list held, after a domain list it shows exactly the
/// reported machines, each once.
pub proof fn lemma_domain_list_shows_report(final_list: Seq<DomainSummary>, reported: Seq<DomainSummary>, n: Seq<char>)
    requires
        forall|m: Seq<char>| #[trigger] entry(final_list, m) is Some <==> entry(reported, m) is Some,
    ensures
        (exists|i: int| 0 <= i < final_list.len() && final_list[i].name@ == n)
            <==> (exists|j: int| 0 <= j < reported.len() && reported[j].name@ == n),
{
    lemma_entry_name(final_list, n);
    lemma_entry_name(reported, n);
    assert(entry(final_list, n) is Some <==> entry(reported, n) is Some);
}

} // verus!
