//! The snapshots tab of a VM window.
use vstd::prelude::*;
use crate::backend::{element_text, extract_text_spec, BackendCommand, SnapshotSummary};
use crate::text::{
    decimal, find_spec, lemma_find_unique, occurs_at, owned, push_i64, push_str, push_u64,
    signed_decimal, trim,
};

verus! {

/// The name the "New Snapshot" dialog proposes when the machine has
/// `count` snapshots: `snapshot` and the next number.
pub open spec fn default_snapshot_name_spec(count: nat) -> Seq<char> {
    "snapshot"@ + decimal(count + 1)
}

pub fn default_snapshot_name(count: usize) -> (r: String)
    requires
        count < u64::MAX,
    ensures
        r@ == default_snapshot_name_spec(count as nat),
{
    let mut r = owned("snapshot");
    push_u64(&mut r, count as u64 + 1);
    r
}

/// How a snapshot is listed: the current one marked with a dot.
pub open spec fn snapshot_label_spec(s: SnapshotSummary) -> Seq<char> {
    if s.is_current { "● "@ + s.name@ } else { s.name@ }
}

pub fn snapshot_label(s: &SnapshotSummary) -> (r: String)
    ensures
        r@ == snapshot_label_spec(*s),
{
    if s.is_current {
        let mut r = owned("● ");
        push_str(&mut r, s.name.as_str());
        r
    } else {
        s.name.clone()
    }
}

/// How a creation time is shown: the number of seconds, `Unknown` for 0.
pub open spec fn creation_time_text(ts: i64) -> Seq<char> {
    if ts == 0 { "Unknown"@ } else { signed_decimal(ts as int) }
}

pub fn chrono_from_ts(ts: i64) -> (r: String)
    ensures
        r@ == creation_time_text(ts),
{
    if ts == 0 {
        return owned("Unknown");
    }
    let mut r = String::new();
    push_i64(&mut r, ts);
    r
}

/// The definition of a new snapshot.
pub open spec fn snapshot_xml(name: Seq<char>, description: Seq<char>) -> Seq<char> {
    "<domainsnapshot><name>"@ + name + "</name><description>"@ + description
        + "</description></domainsnapshot>"@
}

/// "Create" in the "Create Snapshot" dialog.
pub fn create_snapshot_command(uri: &str, domain_name: &str, name: &str, description: &str) -> (r: BackendCommand)
    ensures
        r matches BackendCommand::CreateSnapshot(u, d, x) && u@ == uri@ && d@ == domain_name@
            && x@ == snapshot_xml(name@, description@),
{
    let mut x = owned("<domainsnapshot><name>");
    push_str(&mut x, name);
    push_str(&mut x, "</name><description>");
    push_str(&mut x, description);
    push_str(&mut x, "</description></domainsnapshot>");
    BackendCommand::CreateSnapshot(owned(uri), owned(domain_name), x)
}

/// "Revert" with a snapshot selected.
pub fn revert_snapshot_command(uri: &str, domain_name: &str, selected: &Option<String>) -> (r: Option<BackendCommand>)
    ensures
        selected is None ==> r is None,
        selected matches Some(n) ==> r matches Some(BackendCommand::RevertSnapshot(u, d, s))
            && u@ == uri@ && d@ == domain_name@ && s@ == n@,
{
    match selected {
        Some(n) => Some(BackendCommand::RevertSnapshot(owned(uri), owned(domain_name), n.clone())),
        None => None,
    }
}

/// "Delete" with a snapshot selected; the selection is cleared.
pub fn delete_snapshot_command(uri: &str, domain_name: &str, selected: &mut Option<String>) -> (r: Option<BackendCommand>)
    ensures
        *old(selected) is None ==> r is None,
        *old(selected) matches Some(n) ==> r matches Some(BackendCommand::DeleteSnapshot(u, d, s))
            && u@ == uri@ && d@ == domain_name@ && s@ == n@,
        *final(selected) is None,
{
    match selected.take() {
        Some(n) => Some(BackendCommand::DeleteSnapshot(owned(uri), owned(domain_name), n)),
        None => None,
    }
}


proof fn lemma_first_at_close(d: Seq<char>, q: Seq<char>)
    requires
        !exists|i: int| occurs_at(d, "</description>"@, i),
        q == "</description></domainsnapshot>"@,
    ensures
        find_spec(d + q, "</description>"@) == Some(d.len()),
{
    reveal_strlit("</description>");
    reveal_strlit("</description></domainsnapshot>");
    let pat = "</description>"@;
    let t = d + q;
    assert(t.subrange(d.len() as int, (d.len() + pat.len()) as int) =~= pat);
    assert forall|j: int| 0 <= j < d.len() implies !occurs_at(t, pat, j) by {
        if occurs_at(t, pat, j) {
            if j + pat.len() <= d.len() {
                assert(t.subrange(j, j + pat.len()) =~= d.subrange(j, j + pat.len()));
                assert(occurs_at(d, pat, j));
            } else {
                let k: int = d.len() - j;
                assert(t.subrange(j, j + pat.len())[k] == t[d.len() as int]);
                assert(t[d.len() as int] == '<');
                assert(pat[k] != '<');
            }
        }
    }
    lemma_find_unique(t, pat, d.len() as int);
}

/// What the snapshot list reads back of a snapshot the dialog wrote: the
/// description of the definition that `create_snapshot_command` sends,
/// read as `snapshot_summary` reads it, is the description typed, without
/// surrounding white space; unless the name holds a `<description>` tag or
/// the description a `</description>` tag.
pub proof fn lemma_snapshot_description_read_back(name: Seq<char>, desc: Seq<char>)
    requires
        !exists|i: int| occurs_at(name, "<description>"@, i),
        !exists|i: int| occurs_at(desc, "</description>"@, i),
    ensures
        element_text(snapshot_xml(name, desc), "description"@) == Some(desc),
        extract_text_spec(snapshot_xml(name, desc), "description"@) == Some(trim(desc)),
{
    reveal_strlit("<domainsnapshot><name>");
    reveal_strlit("</name><description>");
    reveal_strlit("</description></domainsnapshot>");
    reveal_strlit("<description>");
    reveal_strlit("</description>");
    reveal_strlit("<");
    reveal_strlit(">");
    reveal_strlit("</");
    reveal_strlit("description");
    let pre = "<domainsnapshot><name>"@;
    let mid = "</name><description>"@;
    let q = "</description></domainsnapshot>"@;
    let xml = snapshot_xml(name, desc);
    let pat = "<description>"@;
    assert("<"@ + "description"@ + ">"@ =~= pat);
    assert("</"@ + "description"@ + ">"@ =~= "</description>"@);
    let base: int = (pre.len() + name.len()) as int;
    let p1: int = base + 7;
    assert(xml =~= pre + name + mid + desc + q);
    assert(xml.subrange(p1, p1 + pat.len()) =~= pat);
    assert forall|j: int| 0 <= j < p1 implies !occurs_at(xml, pat, j) by {
        if occurs_at(xml, pat, j) {
            assert(xml.subrange(j, j + pat.len())[0] == xml[j]);
            assert(xml.subrange(j, j + pat.len())[1] == xml[j + 1]);
            if j < pre.len() {
                assert(xml[j] == pre[j]);
                if j == 0 || j == 16 {
                    assert(xml[j + 1] == pre[j + 1]);
                    assert(xml.subrange(j, j + pat.len())[2] == xml[j + 2]);
                    assert(xml[j + 2] == pre[j + 2]);
                    assert(false);
                } else {
                    assert(pre[j] != '<');
                    assert(false);
                }
            } else if j + pat.len() <= base {
                assert(xml.subrange(j, j + pat.len()) =~= name.subrange(j - pre.len(), j - pre.len() + pat.len()));
                assert(occurs_at(name, pat, j - pre.len()));
                assert(false);
            } else if j < base {
                let k: int = base - j;
                assert(xml.subrange(j, j + pat.len())[k] == xml[base]);
                assert(xml[base] == mid[0]);
                assert(pat[k] != '<');
                assert(false);
            } else {
                assert(xml[j] == mid[j - base]);
                if j == base {
                    assert(xml[j + 1] == mid[1]);
                    assert(false);
                } else {
                    assert(mid[j - base] != '<');
                    assert(false);
                }
            }
        }
    }
    lemma_find_unique(xml, pat, p1);
    let s0: int = p1 + pat.len();
    assert(xml.skip(s0) =~= desc + q);
    lemma_first_at_close(desc, q);
    assert(xml.subrange(s0, s0 + desc.len()) =~= desc);
}

} // verus!
