//! The "Create Storage Pool" dialog and the pool definition it sends.
use vstd::prelude::*;
use crate::backend::BackendCommand;
use crate::text::{contains_text, lemma_contains_append, lemma_contains_prepend, lemma_contains_self, owned, push_str};

verus! {

/// The fields of the dialog; `pool_type` indexes the pool types offered.
#[derive(Debug, Clone)]
pub struct CreatePoolState {
    pub open: bool,
    pub uri: String,
    pub name: String,
    pub pool_type: usize,
    pub target_path: String,
    pub source_host: String,
    pub source_path: String,
    pub source_dev: String,
}

impl Default for CreatePoolState {
    fn default() -> (r: Self)
        ensures
            !r.open,
            r.uri@.len() == 0,
            r.name@.len() == 0,
            r.pool_type == 0,
            r.target_path@ == "/var/lib/libvirt/images"@,
            r.source_host@.len() == 0,
            r.source_path@.len() == 0,
            r.source_dev@.len() == 0,
    {
        CreatePoolState {
            open: false,
            uri: String::new(),
            name: String::new(),
            pool_type: 0,
            target_path: owned("/var/lib/libvirt/images"),
            source_host: String::new(),
            source_path: String::new(),
            source_dev: String::new(),
        }
    }
}

/// The pool types the dialog offers, by index.
pub open spec fn pool_type_name(i: usize) -> Seq<char> {
    if i == 0 {
        "dir"@
    } else if i == 1 {
        "logical"@
    } else if i == 2 {
        "netfs"@
    } else {
        "disk"@
    }
}

/// The name of the pool type with index `i` (below 4).
pub fn pool_type_label(i: usize) -> (r: &'static str)
    requires
        i < 4,
    ensures
        r@ == pool_type_name(i),
{
    if i == 0 {
        "dir"
    } else if i == 1 {
        "logical"
    } else if i == 2 {
        "netfs"
    } else {
        "disk"
    }
}

/// Where the pool's storage comes from: a directory exported by a host for
/// `netfs`, a device for `logical` and `disk`, nothing for `dir`.
pub open spec fn pool_source_xml(p: CreatePoolState) -> Seq<char> {
    if p.pool_type == 2 {
        "<source><host name='"@ + p.source_host@ + "'/><dir path='"@ + p.source_path@ + "'/></source>"@
    } else if p.pool_type == 1 || p.pool_type == 3 {
        "<source><device path='"@ + p.source_dev@ + "'/></source>"@
    } else {
        Seq::empty()
    }
}

/// The definition of the pool the dialog describes.
pub open spec fn pool_xml(p: CreatePoolState) -> Seq<char> {
    "<pool type='"@ + pool_type_name(p.pool_type) + "'><name>"@ + p.name@ + "</name>"@ + pool_source_xml(p)
        + "<target><path>"@ + p.target_path@ + "</path></target></pool>"@
}

/// The definition of the pool the dialog describes.
pub fn create_pool_xml(p: &CreatePoolState) -> (r: String)
    requires
        p.pool_type < 4,
    ensures
        r@ == pool_xml(*p),
{
    let mut r = owned("<pool type='");
    push_str(&mut r, pool_type_label(p.pool_type));
    push_str(&mut r, "'><name>");
    push_str(&mut r, p.name.as_str());
    push_str(&mut r, "</name>");
    let ghost before = r@;
    if p.pool_type == 2 {
        push_str(&mut r, "<source><host name='");
        push_str(&mut r, p.source_host.as_str());
        push_str(&mut r, "'/><dir path='");
        push_str(&mut r, p.source_path.as_str());
        push_str(&mut r, "'/></source>");
    } else if p.pool_type == 1 || p.pool_type == 3 {
        push_str(&mut r, "<source><device path='");
        push_str(&mut r, p.source_dev.as_str());
        push_str(&mut r, "'/></source>");
    }
    assert(r@ == before + pool_source_xml(*p));
    push_str(&mut r, "<target><path>");
    push_str(&mut r, p.target_path.as_str());
    push_str(&mut r, "</path></target></pool>");
    r
}

/// "Create": the request that defines, builds and starts the pool on the
/// dialog's connection.
pub fn create_pool_command(p: &CreatePoolState) -> (r: BackendCommand)
    requires
        p.pool_type < 4,
    ensures
        r matches BackendCommand::CreateStoragePool(u, x) && u@ == p.uri@ && x@ == pool_xml(*p),
{
    BackendCommand::CreateStoragePool(p.uri.clone(), create_pool_xml(p))
}

/// A logical or disk pool is defined on the source device the dialog
/// names: the definition holds `<source><device path='DEV'/></source>`.
pub proof fn lemma_pool_source_device(p: CreatePoolState)
    requires
        p.pool_type == 1 || p.pool_type == 3,
    ensures
        contains_text(pool_xml(p), "<source><device path='"@ + p.source_dev@ + "'/></source>"@),
{
    let pat = "<source><device path='"@ + p.source_dev@ + "'/></source>"@;
    lemma_contains_self(pat);
    let head = "<pool type='"@ + pool_type_name(p.pool_type) + "'><name>"@ + p.name@ + "</name>"@;
    lemma_contains_prepend(head, pat, pat);
    assert(pool_source_xml(p) == pat);
    let x1 = head + pat;
    lemma_contains_append(x1, "<target><path>"@, pat);
    let x2 = x1 + "<target><path>"@;
    lemma_contains_append(x2, p.target_path@, pat);
    let x3 = x2 + p.target_path@;
    lemma_contains_append(x3, "</path></target></pool>"@, pat);
    assert(pool_xml(p) == x3 + "</path></target></pool>"@);
}

} // verus!
