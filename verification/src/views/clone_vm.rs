//! Cloning a virtual machine: a copy of its definition under a new name,
//! UUID and MAC addresses.
use rand::Rng;
use vstd::prelude::*;
use crate::backend::BackendCommand;
use crate::text::{
    chars_of, find_chars, find_from, find_spec, first_index, index_of_char, lemma_first_from,
    lemma_none_from, occurs_at, owned, push_char, push_chars, push_str, string_of_chars, sub_chars,
};

verus! {

/// What a clone does with a disk of the machine it copies.
#[derive(Debug, Clone, Copy, PartialEq, Eq, Structural)]
pub enum CloneDiskStrategy {
    Clone,
    Share,
}

pub open spec fn clone_strategy_label(s: CloneDiskStrategy) -> Seq<char> {
    match s {
        CloneDiskStrategy::Clone => "Clone disk"@,
        CloneDiskStrategy::Share => "Share disk (read-only)"@,
    }
}

impl CloneDiskStrategy {
    pub fn label(&self) -> (r: &'static str)
        ensures
            r@ == clone_strategy_label(*self),
    {
        match self {
            CloneDiskStrategy::Clone => "Clone disk",
            CloneDiskStrategy::Share => "Share disk (read-only)",
        }
    }
}


/// The lower-case hexadecimal digit of `n` (below 16).
pub open spec fn hex_digit(n: nat) -> char {
    if n < 10 { ((48 + n) as u8) as char } else { ((87 + n) as u8) as char }
}

/// Two lower-case hexadecimal digits for a byte (`{:02x}`).
pub open spec fn hex2(b: u8) -> Seq<char> {
    seq![hex_digit((b / 16) as nat), hex_digit((b % 16) as nat)]
}

/// A MAC address in the range QEMU's own cards use, `52:54:00:xx:xx:xx`.
pub open spec fn mac_text(a: u8, b: u8, c: u8) -> Seq<char> {
    "52:54:00:"@ + hex2(a) + ":"@ + hex2(b) + ":"@ + hex2(c)
}

fn hex_char(n: u8) -> (r: char)
    requires
        n < 16,
    ensures
        r == hex_digit(n as nat),
{
    if n < 10 { (48 + n) as char } else { (87 + n) as char }
}

fn push_hex2(s: &mut String, b: u8)
    ensures
        final(s)@ == old(s)@ + hex2(b),
{
    push_char(s, hex_char(b / 16));
    push_char(s, hex_char(b % 16));
}

/// The MAC address `52:54:00:aa:bb:cc` for the three bytes.
pub fn format_mac(a: u8, b: u8, c: u8) -> (r: String)
    ensures
        r@ == mac_text(a, b, c),
{
    let mut r = owned("52:54:00:");
    push_hex2(&mut r, a);
    push_str(&mut r, ":");
    push_hex2(&mut r, b);
    push_str(&mut r, ":");
    push_hex2(&mut r, c);
    r
}

/// `rand::rng().random::<u8>()`: a byte from the thread's random number
/// generator.  Nothing is stated of it: any byte may come back.
#[verifier::external_body]
fn random_byte() -> (r: u8) {
    rand::rng().random::<u8>()
}

/// A random MAC address in QEMU's range.
pub fn generate_mac() -> (r: String)
    ensures
        exists|a: u8, b: u8, c: u8| r@ == mac_text(a, b, c),
{
    let a = random_byte();
    let b = random_byte();
    let c = random_byte();
    format_mac(a, b, c)
}

/// Whether `c` is a lower-case hexadecimal digit.
pub open spec fn is_lower_hex(c: char) -> bool {
    ('0' <= c && c <= '9') || ('a' <= c && c <= 'f')
}

/// The text of a random (version 4) UUID: 32 lower-case hexadecimal digits
/// in groups of 8, 4, 4, 4 and 12 parted by hyphens, the version digit `4`
/// and the variant digit one of `8`, `9`, `a`, `b`.
pub open spec fn is_uuid_v4_text(s: Seq<char>) -> bool {
    &&& s.len() == 36
    &&& forall|i: int| 0 <= i < 36 ==> (if i == 8 || i == 13 || i == 18 || i == 23 {
        s[i] == '-'
    } else {
        is_lower_hex(#[trigger] s[i])
    })
    &&& s[14] == '4'
    &&& (s[19] == '8' || s[19] == '9' || s[19] == 'a' || s[19] == 'b')
}

/// `uuid::Uuid::new_v4().to_string()`: a new random UUID in its hyphenated
/// lower-case form.  The uuid crate sets the version and variant bits of the
/// random value and formats it with `format_hyphenated`; what holds of every
/// outcome is stated, the random digits are not.
#[verifier::external_body]
fn new_uuid_v4() -> (r: String)
    ensures
        is_uuid_v4_text(r@),
{
    uuid::Uuid::new_v4().to_string()
}

/// `xml` with the content of its element `tag` replaced by `value`: from the
/// first `<tag>` to the first `</tag>` (each searched from the start); `xml`
/// unchanged when either is missing.
pub open spec fn replace_element(xml: Seq<char>, tag: Seq<char>, value: Seq<char>) -> Seq<char> {
    let open = "<"@ + tag + ">"@;
    let close = "</"@ + tag + ">"@;
    match (find_spec(xml, open), find_spec(xml, close)) {
        (Some(a), Some(b)) => xml.take(a as int) + open + value + close + xml.skip((b + close.len()) as int),
        _ => xml,
    }
}

fn replace_element_text(xml: &str, tag: &str, value: &str) -> (r: String)
    ensures
        r@ == replace_element(xml@, tag@, value@),
{
    let v = chars_of(xml);
    let mut open = owned("<");
    push_str(&mut open, tag);
    push_str(&mut open, ">");
    let mut close = owned("</");
    push_str(&mut close, tag);
    push_str(&mut close, ">");
    let ov = chars_of(open.as_str());
    let cv = chars_of(close.as_str());
    match find_chars(&v, &ov) {
        Some(a) => match find_chars(&v, &cv) {
            Some(b) => {
                assert(occurs_at(v@, cv@, b as int));
                assert(b + cv.len() <= v.len());
                let mut r = string_of_chars(&sub_chars(&v, 0, a));
                push_str(&mut r, open.as_str());
                push_str(&mut r, value);
                push_str(&mut r, close.as_str());
                push_chars(&mut r, &sub_chars(&v, b + cv.len(), v.len()));
                proof {
                    assert(v@.subrange(0, a as int) =~= v@.take(a as int));
                    assert(v@.subrange(b + cv@.len(), v@.len() as int) =~= v@.skip(b + cv@.len()));
                }
                r
            },
            None => owned(xml),
        },
        None => owned(xml),
    }
}

/// The attribute that starts a MAC address.
pub open spec fn mac_attr() -> Seq<char> {
    "<mac address='"@
}

/// The places of the MAC addresses of `s`, in order: the position just
/// after each `<mac address='` that a closing quote follows, and the
/// position of that quote.
pub open spec fn mac_slot(s: Seq<char>) -> Option<(int, int)> {
    match find_spec(s, mac_attr()) {
        Some(p) => {
            let after = p + mac_attr().len();
            let e = first_index(s.skip(after as int), '\'');
            if after + e < s.len() { Some((after as int, (after + e) as int)) } else { None }
        },
        None => None,
    }
}

/// How many MAC addresses `s` holds.
pub open spec fn mac_count(s: Seq<char>) -> nat
    decreases s.len(),
{
    match mac_slot(s) {
        Some((a, e)) => {
            proof {
                reveal_strlit("<mac address='");
            }
            if 0 < e <= s.len() { 1 + mac_count(s.skip(e)) } else { 0 }
        },
        None => 0,
    }
}

/// `s` with its MAC addresses replaced, in order, by `macs[k]`,
/// `macs[k + 1]`, ...
pub open spec fn replace_macs(s: Seq<char>, macs: Seq<Seq<char>>, k: int) -> Seq<char>
    decreases s.len(),
{
    match mac_slot(s) {
        Some((a, e)) => {
            proof {
                reveal_strlit("<mac address='");
            }
            if 0 < e <= s.len() { s.take(a) + macs[k] + replace_macs(s.skip(e), macs, k + 1) } else { s }
        },
        None => s,
    }
}

proof fn lemma_mac_slot_bounds(s: Seq<char>)
    ensures
        mac_slot(s) matches Some((a, e)) ==> 0 < a <= e < s.len(),
{
    reveal_strlit("<mac address='");
    match find_spec(s, mac_attr()) {
        Some(p) => {
            crate::text::lemma_find_some(s, mac_attr());
        },
        None => {},
    }
}

/// The MAC addresses of `v` from `pos` on, as found by the rewrite.
fn find_mac_slot(v: &Vec<char>, pat: &Vec<char>, pos: usize) -> (r: Option<(usize, usize)>)
    requires
        pos <= v.len(),
        pat@ == mac_attr(),
    ensures
        match r {
            Some((a, e)) => mac_slot(v@.skip(pos as int)) == Some(((a - pos) as int, (e - pos) as int))
                && pos < a <= e < v.len(),
            None => mac_slot(v@.skip(pos as int)) is None,
        },
{
    proof {
        reveal_strlit("<mac address='");
        lemma_mac_slot_bounds(v@.skip(pos as int));
    }
    match find_from(v, pat, pos) {
        Some(p) => {
            proof {
                lemma_first_from(v@, pat@, pos as int, p as int);
            }
            assert(occurs_at(v@, pat@, p as int));
            let after = p + pat.len();
            let e = index_of_char(v, '\'', after);
            proof {
                assert(v@.skip(pos as int).skip((after - pos) as int) =~= v@.skip(after as int));
            }
            if e < v.len() {
                Some((after, e))
            } else {
                None
            }
        },
        None => {
            proof {
                lemma_none_from(v@, pat@, pos as int);
            }
            None
        },
    }
}

/// How many MAC addresses `xml` holds.
pub fn count_macs(xml: &str) -> (r: usize)
    ensures
        r == mac_count(xml@),
{
    let v = chars_of(xml);
    let pat = chars_of("<mac address='");
    let mut pos: usize = 0;
    let mut n: usize = 0;
    assert(v@.skip(0) =~= v@);
    loop
        invariant
            pos <= v.len(),
            pat@ == mac_attr(),
            v@ == xml@,
            n <= pos,
            n + mac_count(v@.skip(pos as int)) == mac_count(xml@),
        decreases v.len() - pos,
    {
        match find_mac_slot(&v, &pat, pos) {
            Some((_a, e)) => {
                proof {
                    assert(v@.skip(pos as int).skip((e - pos) as int) =~= v@.skip(e as int));
                    assert(mac_count(v@.skip(pos as int)) == 1 + mac_count(v@.skip(e as int)));
                }
                n = n + 1;
                pos = e;
            },
            None => {
                return n;
            },
        }
    }
}

/// `xml` with its MAC addresses replaced, in order, by `macs`.
pub fn replace_mac_addresses(xml: &str, macs: &Vec<String>) -> (r: String)
    requires
        macs@.len() >= mac_count(xml@),
    ensures
        r@ == replace_macs(xml@, macs@.map_values(|m: String| m@), 0),
{
    let ghost mv = macs@.map_values(|m: String| m@);
    let v = chars_of(xml);
    let pat = chars_of("<mac address='");
    let mut out = String::new();
    let mut pos: usize = 0;
    let mut k: usize = 0;
    assert(v@.skip(0) =~= v@);
    loop
        invariant
            pos <= v.len(),
            pat@ == mac_attr(),
            v@ == xml@,
            mv == macs@.map_values(|m: String| m@),
            k + mac_count(v@.skip(pos as int)) == mac_count(xml@),
            macs@.len() >= mac_count(xml@),
            replace_macs(xml@, mv, 0) == out@ + replace_macs(v@.skip(pos as int), mv, k as int),
        decreases v.len() - pos,
    {
        let ghost s = v@.skip(pos as int);
        match find_mac_slot(&v, &pat, pos) {
            Some((a, e)) => {
                proof {
                    assert(s.skip((e - pos) as int) =~= v@.skip(e as int));
                    assert(s.take((a - pos) as int) =~= v@.subrange(pos as int, a as int));
                    assert(mac_count(s) == 1 + mac_count(v@.skip(e as int)));
                    assert(replace_macs(s, mv, k as int) == s.take((a - pos) as int) + mv[k as int]
                        + replace_macs(v@.skip(e as int), mv, k + 1));
                    assert(mv[k as int] == macs@[k as int]@);
                }
                assert(k < macs.len());
                push_chars(&mut out, &sub_chars(&v, pos, a));
                push_str(&mut out, macs[k].as_str());
                k = k + 1;
                pos = e;
            },
            None => {
                push_chars(&mut out, &sub_chars(&v, pos, v.len()));
                proof {
                    assert(v@.subrange(pos as int, v@.len() as int) =~= s);
                }
                return out;
            },
        }
    }
}

/// The definition of a clone of the machine defined by `xml`: named
/// `new_name`, with the UUID `new_uuid` and its MAC addresses replaced by
/// `macs` in order.
pub open spec fn clone_xml_spec(xml: Seq<char>, new_name: Seq<char>, new_uuid: Seq<char>, macs: Seq<Seq<char>>) -> Seq<char> {
    replace_macs(replace_element(replace_element(xml, "name"@, new_name), "uuid"@, new_uuid), macs, 0)
}

/// The definition of a clone, with the new UUID and MAC addresses given.
pub fn rewrite_clone_xml(xml: &str, new_name: &str, new_uuid: &str, macs: &Vec<String>) -> (r: Option<String>)
    ensures
        match r {
            Some(t) => {
                let s = replace_element(replace_element(xml@, "name"@, new_name@), "uuid"@, new_uuid@);
                &&& macs@.len() >= mac_count(s)
                &&& t@ == clone_xml_spec(xml@, new_name@, new_uuid@, macs@.map_values(|m: String| m@))
            },
            None => macs@.len() < mac_count(
                replace_element(replace_element(xml@, "name"@, new_name@), "uuid"@, new_uuid@),
            ),
        },
{
    let named = replace_element_text(xml, "name", new_name);
    let with_uuid = replace_element_text(named.as_str(), "uuid", new_uuid);
    if macs.len() < count_macs(with_uuid.as_str()) {
        return None;
    }
    Some(replace_mac_addresses(with_uuid.as_str(), macs))
}

/// The request that defines a clone named `clone_name` of the machine
/// defined by `xml` on the connection `uri`, with a new random UUID and new
/// random MAC addresses; none when the definition is empty.
pub fn clone_command(uri: &str, xml: &str, clone_name: &str) -> (r: Option<BackendCommand>)
    ensures
        xml@.len() == 0 ==> r is None,
        xml@.len() > 0 ==> (r matches Some(BackendCommand::DefineXml(u, x)) && u@ == uri@
            && exists|id: Seq<char>, macs: Seq<Seq<char>>| {
                &&& is_uuid_v4_text(id)
                &&& macs.len() == mac_count(replace_element(replace_element(xml@, "name"@, clone_name@), "uuid"@, id))
                &&& forall|i: int| 0 <= i < macs.len() ==> exists|a: u8, b: u8, c: u8| #[trigger] macs[i] == mac_text(a, b, c)
                &&& x@ == clone_xml_spec(xml@, clone_name@, id, macs)
            }),
{
    if xml.is_empty() {
        return None;
    }
    let id = new_uuid_v4();
    let named = replace_element_text(xml, "name", clone_name);
    let with_uuid = replace_element_text(named.as_str(), "uuid", id.as_str());
    let n = count_macs(with_uuid.as_str());
    let mut macs: Vec<String> = Vec::new();
    while macs.len() < n
        invariant
            macs@.len() <= n,
            forall|i: int| 0 <= i < macs@.len() ==> exists|a: u8, b: u8, c: u8| #[trigger] macs@[i]@ == mac_text(a, b, c),
        decreases n - macs@.len(),
    {
        macs.push(generate_mac());
    }
    let x = replace_mac_addresses(with_uuid.as_str(), &macs);
    proof {
        let mv = macs@.map_values(|m: String| m@);
        assert forall|i: int| 0 <= i < mv.len() implies exists|a: u8, b: u8, c: u8| #[trigger] mv[i] == mac_text(a, b, c) by {
            assert(mv[i] == macs@[i]@);
        }
        assert(mv.len() == mac_count(replace_element(replace_element(xml@, "name"@, clone_name@), "uuid"@, id@)));
        assert(is_uuid_v4_text(id@));
        assert(x@ == clone_xml_spec(xml@, clone_name@, id@, mv));
    }
    Some(BackendCommand::DefineXml(owned(uri), x))
}

} // verus!
