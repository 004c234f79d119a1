//! The "Create Virtual Network" dialog and the network definition it sends.
use vstd::prelude::*;
use vstd::arithmetic::power2::{pow2, lemma2_to64};
use crate::backend::BackendCommand;
use crate::text::{
    contains_text, lemma_contains_append, lemma_contains_prepend, lemma_contains_self, chars_of, decimal, first_index, index_of_char, owned, parse_u32, parse_u32_spec, push_chars,
    push_str, push_u64, string_of_chars, sub_chars, trim, trim_chars,
};

verus! {

/// A port forwarding rule of a NAT network.
#[derive(Debug, Clone)]
pub struct PortForward {
    pub protocol: String,
    pub host_port: String,
    pub guest_ip: String,
    pub guest_port: String,
}

/// The fields of the dialog.
#[derive(Debug, Clone)]
pub struct CreateNetworkState {
    pub open: bool,
    pub uri: String,
    pub name: String,
    pub forward_mode: usize,
    pub domain_name: String,
    pub enable_ipv4: bool,
    pub ipv4_network: String,
    pub enable_dhcp: bool,
    pub dhcp_start: String,
    pub dhcp_end: String,
    pub enable_ipv6: bool,
    pub ipv6_network: String,
    pub ipv6_prefix: String,
    pub enable_dhcpv6: bool,
    pub dhcpv6_start: String,
    pub dhcpv6_end: String,
    pub dns_forwarders: Vec<String>,
    pub dns_forwarder_input: String,
    pub port_forwards: Vec<PortForward>,
}

impl Default for CreateNetworkState {
    fn default() -> (r: Self)
        ensures
            !r.open,
            r.uri@.len() == 0,
            r.name@.len() == 0,
            r.forward_mode == 0,
            r.domain_name@.len() == 0,
            r.enable_ipv4,
            r.ipv4_network@ == "192.168.100.0/24"@,
            r.enable_dhcp,
            r.dhcp_start@ == "192.168.100.128"@,
            r.dhcp_end@ == "192.168.100.254"@,
            !r.enable_ipv6,
            r.ipv6_network@ == "fd00::1"@,
            r.ipv6_prefix@ == "64"@,
            !r.enable_dhcpv6,
            r.dhcpv6_start@ == "fd00::100"@,
            r.dhcpv6_end@ == "fd00::1ff"@,
            r.dns_forwarders@.len() == 0,
            r.dns_forwarder_input@.len() == 0,
            r.port_forwards@.len() == 0,
    {
        CreateNetworkState {
            open: false,
            uri: String::new(),
            name: String::new(),
            forward_mode: 0,
            domain_name: String::new(),
            enable_ipv4: true,
            ipv4_network: owned("192.168.100.0/24"),
            enable_dhcp: true,
            dhcp_start: owned("192.168.100.128"),
            dhcp_end: owned("192.168.100.254"),
            enable_ipv6: false,
            ipv6_network: owned("fd00::1"),
            ipv6_prefix: owned("64"),
            enable_dhcpv6: false,
            dhcpv6_start: owned("fd00::100"),
            dhcpv6_end: owned("fd00::1ff"),
            dns_forwarders: Vec::new(),
            dns_forwarder_input: String::new(),
            port_forwards: Vec::new(),
        }
    }
}

/// The forward modes the dialog offers, by index.
pub open spec fn forward_mode_name(i: usize) -> Seq<char> {
    if i == 0 {
        "nat"@
    } else if i == 1 {
        "route"@
    } else if i == 2 {
        "open"@
    } else {
        "isolated"@
    }
}

/// The name of the forward mode with index `i` (below 4).
pub fn forward_mode_label(i: usize) -> (r: &'static str)
    requires
        i < 4,
    ensures
        r@ == forward_mode_name(i),
{
    if i == 0 {
        "nat"
    } else if i == 1 {
        "route"
    } else if i == 2 {
        "open"
    } else {
        "isolated"
    }
}

impl CreateNetworkState {
    /// "Add" next to the DNS forwarder field: the trimmed input becomes a
    /// forwarder and the field is cleared; blank input changes nothing.
    pub fn add_dns_forwarder(&mut self)
        ensures
            trim(old(self).dns_forwarder_input@).len() == 0 ==> *final(self) == *old(self),
            trim(old(self).dns_forwarder_input@).len() > 0 ==> {
                &&& final(self).dns_forwarders@.len() == old(self).dns_forwarders@.len() + 1
                &&& final(self).dns_forwarders@.take(old(self).dns_forwarders@.len() as int) == old(self).dns_forwarders@
                &&& final(self).dns_forwarders@.last()@ == trim(old(self).dns_forwarder_input@)
                &&& final(self).dns_forwarder_input@.len() == 0
                &&& final(self).port_forwards == old(self).port_forwards
                &&& final(self).name == old(self).name
            },
    {
        let t = trim_chars(&chars_of(self.dns_forwarder_input.as_str()));
        if t.len() > 0 {
            let ghost before = self.dns_forwarders@;
            self.dns_forwarders.push(string_of_chars(&t));
            self.dns_forwarder_input = String::new();
            assert(self.dns_forwarders@.take(before.len() as int) =~= before);
        }
    }

    /// The cross next to forwarder `i`.
    pub fn remove_dns_forwarder(&mut self, i: usize)
        requires
            i < old(self).dns_forwarders@.len(),
        ensures
            final(self).dns_forwarders@ == old(self).dns_forwarders@.remove(i as int),
            final(self).port_forwards == old(self).port_forwards,
    {
        self.dns_forwarders.remove(i);
    }

    /// "Add Rule": a new empty TCP rule.
    pub fn add_port_forward(&mut self)
        ensures
            final(self).port_forwards@.len() == old(self).port_forwards@.len() + 1,
            final(self).port_forwards@.take(old(self).port_forwards@.len() as int) == old(self).port_forwards@,
            final(self).port_forwards@.last().protocol@ == "tcp"@,
            final(self).port_forwards@.last().host_port@.len() == 0,
            final(self).port_forwards@.last().guest_ip@.len() == 0,
            final(self).port_forwards@.last().guest_port@.len() == 0,
            final(self).dns_forwarders == old(self).dns_forwarders,
    {
        let ghost before = self.port_forwards@;
        self.port_forwards.push(PortForward {
            protocol: owned("tcp"),
            host_port: String::new(),
            guest_ip: String::new(),
            guest_port: String::new(),
        });
        assert(self.port_forwards@.take(before.len() as int) =~= before);
    }

    /// The cross next to rule `i`.
    pub fn remove_port_forward(&mut self, i: usize)
        requires
            i < old(self).port_forwards@.len(),
        ensures
            final(self).port_forwards@ == old(self).port_forwards@.remove(i as int),
            final(self).dns_forwarders == old(self).dns_forwarders,
    {
        self.port_forwards.remove(i);
    }
}

/// The part of a rule that names the guest address, if one is given.
pub open spec fn rule_address(pf: PortForward) -> Seq<char> {
    if pf.guest_ip@.len() == 0 { Seq::empty() } else { " address='"@ + pf.guest_ip@ + "'"@ }
}

/// A rule as it goes into the definition: the port range, then a comment
/// that records the protocol and the guest address.
pub open spec fn port_rule(pf: PortForward) -> Seq<char> {
    "<nat><port start='"@ + pf.host_port@ + "' end='"@ + pf.guest_port@ + "'/></nat>"@ + "<!-- "@
        + pf.protocol@ + " "@ + pf.host_port@ + "->"@ + rule_address(pf) + ":"@ + pf.guest_port@ + " -->"@
}

/// The rules with both ports given, in order.
pub open spec fn port_rules(pfs: Seq<PortForward>) -> Seq<char>
    decreases pfs.len(),
{
    if pfs.len() == 0 {
        Seq::empty()
    } else {
        let pf = pfs.last();
        let rest = port_rules(pfs.drop_last());
        if pf.host_port@.len() > 0 && pf.guest_port@.len() > 0 { rest + port_rule(pf) } else { rest }
    }
}

/// The `<forward>` element: none for an isolated network; the port rules
/// inside it for a NAT network that has some.
pub open spec fn forward_xml(n: CreateNetworkState) -> Seq<char> {
    let mode = forward_mode_name(n.forward_mode);
    let rules = port_rules(n.port_forwards@);
    if n.forward_mode == 3 {
        Seq::empty()
    } else if n.forward_mode == 0 && rules.len() > 0 {
        "<forward mode='"@ + mode + "'>"@ + rules + "</forward>"@
    } else {
        "<forward mode='"@ + mode + "'/>"@
    }
}

pub open spec fn domain_xml(n: CreateNetworkState) -> Seq<char> {
    let t = trim(n.domain_name@);
    if t.len() == 0 { Seq::empty() } else { "<domain name='"@ + t + "'/>"@ }
}

pub open spec fn forwarder_entries(fs: Seq<String>) -> Seq<char>
    decreases fs.len(),
{
    if fs.len() == 0 {
        Seq::empty()
    } else {
        forwarder_entries(fs.drop_last()) + "<forwarder addr='"@ + fs.last()@ + "'/>"@
    }
}

pub open spec fn dns_xml(n: CreateNetworkState) -> Seq<char> {
    if n.dns_forwarders@.len() == 0 {
        Seq::empty()
    } else {
        "<dns>"@ + forwarder_entries(n.dns_forwarders@) + "</dns>"@
    }
}

/// The address part of `a.b.c.d/p`: the text before the first slash.
pub open spec fn cidr_address(net: Seq<char>) -> Seq<char> {
    net.take(first_index(net, '/') as int)
}

/// The prefix part of `a.b.c.d/p`: the text between the first and a second
/// slash, if there is a slash.
pub open spec fn cidr_prefix(net: Seq<char>) -> Option<Seq<char>> {
    let i = first_index(net, '/');
    if i < net.len() {
        let rest = net.skip((i + 1) as int);
        Some(rest.take(first_index(rest, '/') as int))
    } else {
        None
    }
}

/// The prefix length of the IPv4 network: 24 when it is missing or not a
/// number.
pub open spec fn ipv4_prefix_len(net: Seq<char>) -> u32 {
    match cidr_prefix(net) {
        Some(p) => match parse_u32_spec(p) {
            Some(v) => v,
            None => 24,
        },
        None => match parse_u32_spec("24"@) {
            Some(v) => v,
            None => 24,
        },
    }
}

/// The position of the last `c` in `s`.
pub open spec fn last_index(s: Seq<char>, c: char) -> Option<nat>
    decreases s.len(),
{
    if s.len() == 0 {
        None
    } else if s.last() == c {
        Some((s.len() - 1) as nat)
    } else {
        last_index(s.drop_last(), c)
    }
}

/// The gateway of a network address: its last number replaced by 1.
pub open spec fn gateway_of(addr: Seq<char>) -> Seq<char> {
    match last_index(addr, '.') {
        Some(i) => addr.take(i as int) + ".1"@,
        None => addr,
    }
}

/// Octet `k` (0 the first) of the netmask with `prefix` leading one bits.
pub open spec fn netmask_octet(prefix: nat, k: nat) -> nat {
    let lo = 8 * k;
    let hi = 8 * k + 8;
    if prefix >= hi {
        255
    } else if prefix <= lo {
        0
    } else {
        (256 - pow2((hi - prefix) as nat)) as nat
    }
}

/// The dotted form of the netmask with `prefix` leading one bits.
pub open spec fn netmask_text(prefix: nat) -> Seq<char> {
    decimal(netmask_octet(prefix, 0)) + "."@ + decimal(netmask_octet(prefix, 1)) + "."@
        + decimal(netmask_octet(prefix, 2)) + "."@ + decimal(netmask_octet(prefix, 3))
}

fn netmask_octet_of(prefix: u32, k: u32) -> (r: u64)
    requires
        k < 4,
    ensures
        r == netmask_octet(prefix as nat, k as nat),
{
    let lo = 8 * k;
    let hi = 8 * k + 8;
    proof {
        lemma2_to64();
    }
    if prefix >= hi {
        255
    } else if prefix <= lo {
        0
    } else {
        let off = hi - prefix;
        if off == 1 {
            254
        } else if off == 2 {
            252
        } else if off == 3 {
            248
        } else if off == 4 {
            240
        } else if off == 5 {
            224
        } else if off == 6 {
            192
        } else {
            128
        }
    }
}

/// The dotted netmask with `prefix` leading one bits (all ones from 32 on).
/// A prefix of 0 makes the shift that computes the mask overflow, so it is
/// not taken.
pub fn prefix_to_netmask(prefix: u32) -> (r: String)
    requires
        prefix != 0,
    ensures
        r@ == netmask_text(prefix as nat),
{
    let mut r = String::new();
    push_u64(&mut r, netmask_octet_of(prefix, 0));
    push_str(&mut r, ".");
    push_u64(&mut r, netmask_octet_of(prefix, 1));
    push_str(&mut r, ".");
    push_u64(&mut r, netmask_octet_of(prefix, 2));
    push_str(&mut r, ".");
    push_u64(&mut r, netmask_octet_of(prefix, 3));
    r
}

pub open spec fn range_xml(start: Seq<char>, end: Seq<char>) -> Seq<char> {
    "<dhcp><range start='"@ + start + "' end='"@ + end + "'/></dhcp>"@
}

pub open spec fn ipv4_xml(n: CreateNetworkState) -> Seq<char> {
    if n.enable_ipv4 {
        let dhcp = if n.enable_dhcp { range_xml(n.dhcp_start@, n.dhcp_end@) } else { Seq::empty() };
        "<ip address='"@ + gateway_of(cidr_address(n.ipv4_network@)) + "' netmask='"@
            + netmask_text(ipv4_prefix_len(n.ipv4_network@) as nat) + "'>"@ + dhcp + "</ip>"@
    } else {
        Seq::empty()
    }
}

pub open spec fn ipv6_xml(n: CreateNetworkState) -> Seq<char> {
    if n.enable_ipv6 {
        let dhcp = if n.enable_dhcpv6 { range_xml(n.dhcpv6_start@, n.dhcpv6_end@) } else { Seq::empty() };
        "<ip family='ipv6' address='"@ + n.ipv6_network@ + "' prefix='"@ + n.ipv6_prefix@ + "'>"@ + dhcp
            + "</ip>"@
    } else {
        Seq::empty()
    }
}

/// The definition of the network the dialog describes.
pub open spec fn network_xml(n: CreateNetworkState) -> Seq<char> {
    "<network><name>"@ + n.name@ + "</name>"@ + forward_xml(n) + domain_xml(n) + dns_xml(n) + ipv4_xml(n)
        + ipv6_xml(n) + "</network>"@
}

fn push_port_rule(s: &mut String, pf: &PortForward)
    ensures
        final(s)@ == old(s)@ + port_rule(*pf),
{
    push_str(s, "<nat><port start='");
    push_str(s, pf.host_port.as_str());
    push_str(s, "' end='");
    push_str(s, pf.guest_port.as_str());
    push_str(s, "'/></nat>");
    push_str(s, "<!-- ");
    push_str(s, pf.protocol.as_str());
    push_str(s, " ");
    push_str(s, pf.host_port.as_str());
    push_str(s, "->");
    let ghost before = s@;
    if !pf.guest_ip.as_str().is_empty() {
        push_str(s, " address='");
        push_str(s, pf.guest_ip.as_str());
        push_str(s, "'");
    }
    assert(s@ == before + rule_address(*pf));
    push_str(s, ":");
    push_str(s, pf.guest_port.as_str());
    push_str(s, " -->");
}

fn push_port_rules(s: &mut String, pfs: &Vec<PortForward>)
    ensures
        final(s)@ == old(s)@ + port_rules(pfs@),
{
    let mut i: usize = 0;
    let ghost s0 = s@;
    while i < pfs.len()
        invariant
            i <= pfs@.len(),
            s@ == s0 + port_rules(pfs@.take(i as int)),
        decreases pfs@.len() - i,
    {
        proof {
            assert(pfs@.take(i + 1).drop_last() =~= pfs@.take(i as int));
            assert(pfs@.take(i + 1).last() == pfs@[i as int]);
        }
        let pf = &pfs[i];
        if !pf.host_port.as_str().is_empty() && !pf.guest_port.as_str().is_empty() {
            push_port_rule(s, pf);
        }
        i = i + 1;
    }
    proof {
        assert(pfs@.take(i as int) =~= pfs@);
    }
}

fn push_forwarders(s: &mut String, fs: &Vec<String>)
    ensures
        final(s)@ == old(s)@ + forwarder_entries(fs@),
{
    let mut i: usize = 0;
    let ghost s0 = s@;
    while i < fs.len()
        invariant
            i <= fs@.len(),
            s@ == s0 + forwarder_entries(fs@.take(i as int)),
        decreases fs@.len() - i,
    {
        proof {
            assert(fs@.take(i + 1).drop_last() =~= fs@.take(i as int));
        }
        push_str(s, "<forwarder addr='");
        push_str(s, fs[i].as_str());
        push_str(s, "'/>");
        i = i + 1;
    }
    proof {
        assert(fs@.take(i as int) =~= fs@);
    }
}

/// The gateway of a network address.
pub fn gateway_address(addr: &Vec<char>) -> (r: Vec<char>)
    ensures
        r@ == gateway_of(addr@),
{
    let mut i = addr.len();
    assert(addr@.take(addr@.len() as int) =~= addr@);
    while i > 0 && addr[i - 1] != '.'
        invariant
            i <= addr@.len(),
            last_index(addr@, '.') == last_index(addr@.take(i as int), '.'),
        decreases i,
    {
        proof {
            assert(addr@.take(i as int).drop_last() =~= addr@.take(i - 1));
        }
        i = i - 1;
    }
    if i == 0 {
        proof {
            assert(addr@.take(0).len() == 0);
        }
        let mut r = Vec::new();
        let mut j: usize = 0;
        while j < addr.len()
            invariant
                j <= addr@.len(),
                r@ == addr@.take(j as int),
            decreases addr@.len() - j,
        {
            r.push(addr[j]);
            j = j + 1;
            assert(r@ =~= addr@.take(j as int));
        }
        r
    } else {
        let mut r = sub_chars(addr, 0, i - 1);
        r.push('.');
        r.push('1');
        proof {
            reveal_strlit(".1");
            assert(addr@.subrange(0, i - 1) =~= addr@.take(i - 1));
        }
        r
    }
}

/// The prefix length of the IPv4 network of the dialog.
pub fn ipv4_prefix(net: &str) -> (r: u32)
    ensures
        r == ipv4_prefix_len(net@),
{
    let v = chars_of(net);
    let i = index_of_char(&v, '/', 0);
    assert(v@.skip(0) =~= v@);
    if i < v.len() {
        let j = index_of_char(&v, '/', i + 1);
        let p = sub_chars(&v, i + 1, j);
        proof {
            let rest = v@.skip(i + 1);
            assert(rest.take(first_index(rest, '/') as int) =~= p@);
        }
        match parse_u32(string_of_chars(&p).as_str()) {
            Some(x) => x,
            None => 24,
        }
    } else {
        match parse_u32("24") {
            Some(x) => x,
            None => 24,
        }
    }
}

fn push_forward_xml(r: &mut String, n: &CreateNetworkState)
    requires
        n.forward_mode < 4,
    ensures
        final(r)@ == old(r)@ + forward_xml(*n),
{
    if n.forward_mode != 3 {
        let mut rules = String::new();
        push_port_rules(&mut rules, &n.port_forwards);
        assert(rules@ == port_rules(n.port_forwards@));
        let mode = forward_mode_label(n.forward_mode);
        if n.forward_mode == 0 && !rules.as_str().is_empty() {
            push_str(r, "<forward mode='");
            push_str(r, mode);
            push_str(r, "'>");
            push_str(r, rules.as_str());
            push_str(r, "</forward>");
        } else {
            push_str(r, "<forward mode='");
            push_str(r, mode);
            push_str(r, "'/>");
        }
    }
}

fn push_domain_and_dns(r: &mut String, n: &CreateNetworkState)
    ensures
        final(r)@ == old(r)@ + domain_xml(*n) + dns_xml(*n),
{
    let d = trim_chars(&chars_of(n.domain_name.as_str()));
    if d.len() > 0 {
        push_str(r, "<domain name='");
        push_chars(r, &d);
        push_str(r, "'/>");
    }
    let ghost before_dns = r@;
    if n.dns_forwarders.len() > 0 {
        push_str(r, "<dns>");
        push_forwarders(r, &n.dns_forwarders);
        push_str(r, "</dns>");
    }
    assert(r@ == before_dns + dns_xml(*n));
}

fn push_range(r: &mut String, start: &str, end: &str)
    ensures
        final(r)@ == old(r)@ + range_xml(start@, end@),
{
    push_str(r, "<dhcp><range start='");
    push_str(r, start);
    push_str(r, "' end='");
    push_str(r, end);
    push_str(r, "'/></dhcp>");
}

fn push_ipv4_xml(r: &mut String, n: &CreateNetworkState)
    requires
        n.enable_ipv4 ==> ipv4_prefix_len(n.ipv4_network@) != 0,
    ensures
        final(r)@ == old(r)@ + ipv4_xml(*n),
{
    if n.enable_ipv4 {
        let net = chars_of(n.ipv4_network.as_str());
        let slash = index_of_char(&net, '/', 0);
        assert(net@.skip(0) =~= net@);
        let addr = sub_chars(&net, 0, slash);
        assert(net@.take(slash as int) =~= addr@);
        let gw = gateway_address(&addr);
        let prefix = ipv4_prefix(n.ipv4_network.as_str());
        push_str(r, "<ip address='");
        push_chars(r, &gw);
        push_str(r, "' netmask='");
        let mask = prefix_to_netmask(prefix);
        push_str(r, mask.as_str());
        push_str(r, "'>");
        let ghost before = r@;
        if n.enable_dhcp {
            push_range(r, n.dhcp_start.as_str(), n.dhcp_end.as_str());
        }
        assert(r@ == before + (if n.enable_dhcp { range_xml(n.dhcp_start@, n.dhcp_end@) } else { Seq::empty() }));
        push_str(r, "</ip>");
    }
}

fn push_ipv6_xml(r: &mut String, n: &CreateNetworkState)
    ensures
        final(r)@ == old(r)@ + ipv6_xml(*n),
{
    if n.enable_ipv6 {
        push_str(r, "<ip family='ipv6' address='");
        push_str(r, n.ipv6_network.as_str());
        push_str(r, "' prefix='");
        push_str(r, n.ipv6_prefix.as_str());
        push_str(r, "'>");
        let ghost before = r@;
        if n.enable_dhcpv6 {
            push_range(r, n.dhcpv6_start.as_str(), n.dhcpv6_end.as_str());
        }
        assert(r@ == before + (if n.enable_dhcpv6 { range_xml(n.dhcpv6_start@, n.dhcpv6_end@) } else { Seq::empty() }));
        push_str(r, "</ip>");
    }
}

/// The definition of the network the dialog describes.  An IPv4 prefix of
/// 0 is not taken (see `prefix_to_netmask`); the forward mode is one of the
/// four offered.
pub fn create_network_xml(n: &CreateNetworkState) -> (r: String)
    requires
        n.forward_mode < 4,
        n.enable_ipv4 ==> ipv4_prefix_len(n.ipv4_network@) != 0,
    ensures
        r@ == network_xml(*n),
{
    let mut r = owned("<network><name>");
    push_str(&mut r, n.name.as_str());
    push_str(&mut r, "</name>");
    push_forward_xml(&mut r, n);
    push_domain_and_dns(&mut r, n);
    push_ipv4_xml(&mut r, n);
    push_ipv6_xml(&mut r, n);
    push_str(&mut r, "</network>");
    r
}

/// "Create": the request that defines and starts the network on the
/// dialog's connection.
pub fn create_network_command(n: &CreateNetworkState) -> (r: BackendCommand)
    requires
        n.forward_mode < 4,
        n.enable_ipv4 ==> ipv4_prefix_len(n.ipv4_network@) != 0,
    ensures
        r matches BackendCommand::CreateNetwork(u, x) && u@ == n.uri@ && x@ == network_xml(*n),
{
    BackendCommand::CreateNetwork(n.uri.clone(), create_network_xml(n))
}

/// A netmask is contiguous: its octets never grow from the first to the
/// last, and after an octet that is not all ones only zeros follow.
pub proof fn lemma_netmask_contiguous(prefix: nat, k: nat)
    requires
        k < 3,
    ensures
        netmask_octet(prefix, k) >= netmask_octet(prefix, k + 1),
        netmask_octet(prefix, k) < 255 ==> netmask_octet(prefix, k + 1) == 0,
        prefix >= 32 ==> netmask_octet(prefix, k) == 255 && netmask_octet(prefix, k + 1) == 255,
{
    lemma2_to64();
}

/// With IPv6 and DHCPv6 enabled, the network's IPv6 address element
/// serves the dialog's DHCPv6 range: it holds a `<dhcp><range>` with the
/// start and end addresses given.
pub proof fn lemma_dhcpv6_range_served(n: CreateNetworkState)
    requires
        n.enable_ipv6,
        n.enable_dhcpv6,
    ensures
        contains_text(
            network_xml(n),
            "<ip family='ipv6' address='"@ + n.ipv6_network@ + "' prefix='"@ + n.ipv6_prefix@
                + "'><dhcp><range start='"@ + n.dhcpv6_start@ + "' end='"@ + n.dhcpv6_end@
                + "'/></dhcp></ip>"@,
        ),
{
    let pat = "<ip family='ipv6' address='"@ + n.ipv6_network@ + "' prefix='"@ + n.ipv6_prefix@
        + "'><dhcp><range start='"@ + n.dhcpv6_start@ + "' end='"@ + n.dhcpv6_end@ + "'/></dhcp></ip>"@;
    assert(ipv6_xml(n) =~= pat) by {
        reveal_strlit("'>");
        reveal_strlit("<dhcp><range start='");
        reveal_strlit("'><dhcp><range start='");
        reveal_strlit("'/></dhcp>");
        reveal_strlit("</ip>");
        reveal_strlit("'/></dhcp></ip>");
    }
    lemma_contains_self(pat);
    let prefix = "<network><name>"@ + n.name@ + "</name>"@ + forward_xml(n) + domain_xml(n) + dns_xml(n)
        + ipv4_xml(n);
    lemma_contains_prepend(prefix, ipv6_xml(n), pat);
    lemma_contains_append(prefix + ipv6_xml(n), "</network>"@, pat);
    assert(network_xml(n) == prefix + ipv6_xml(n) + "</network>"@);
}

} // verus!
