//! Host networking state: Docker networks parsed from the runtime's network
//! listing, and bridge interfaces parsed from the host's interface listing.
//!
//! The interface listing is a two-level text: a header line names an
//! interface, and the indented lines after it carry its addresses. The
//! scanner keeps the most recent bridge-like interface name and captures at
//! most one address for it — the first `inet` line — before resetting.

use vstd::prelude::*;

verus! {

use vstd::string::StrSliceExecFns;
use crate::inventory::{ExecOutcome, ExecOutcomeView};
use crate::text::{
    contains_seq, spec_field, spec_has_field, spec_has_second_token, spec_lines,
    spec_second_token, spec_trim, str_contains, field_of, second_ws_token, split_lines,
    trim_spaces,
};

/// One Docker network as the runtime lists it.
pub struct DockerNetwork {
    pub name: String,
    pub id: String,
    pub driver: String,
}

/// Mathematical image of a `DockerNetwork`.
pub struct DockerNetworkView {
    pub name: Seq<char>,
    pub id: Seq<char>,
    pub driver: Seq<char>,
}

impl View for DockerNetwork {
    type V = DockerNetworkView;

    open spec fn view(&self) -> DockerNetworkView {
        DockerNetworkView { name: self.name@, id: self.id@, driver: self.driver@ }
    }
}

impl DeepView for DockerNetwork {
    type V = DockerNetworkView;

    open spec fn deep_view(&self) -> DockerNetworkView {
        self.view()
    }
}

/// A network listing line is kept when it mentions a bridge or a lab.
pub open spec fn is_network_selected(l: Seq<char>) -> bool {
    ||| contains_seq(l, "bridge"@)
    ||| contains_seq(l, "snort"@)
    ||| contains_seq(l, "suricata"@)
    ||| contains_seq(l, "zeek"@)
}

/// Whether a network listing line is kept.
pub fn line_is_network_selected(l: &str) -> (r: bool)
    ensures
        r == is_network_selected(l@),
{
    ||| str_contains(l, "bridge")
    ||| str_contains(l, "snort")
    ||| str_contains(l, "suricata")
    ||| str_contains(l, "zeek")
}

/// The network one listing line parses to: tab-separated name, id and
/// driver, a missing field empty.
pub open spec fn spec_network_of_line(l: Seq<char>) -> DockerNetworkView {
    DockerNetworkView {
        name: spec_field(l, '\t', 0),
        id: spec_field(l, '\t', 1),
        driver: spec_field(l, '\t', 2),
    }
}

/// Parse one network listing line.
pub fn network_of_line(l: &str) -> (r: DockerNetwork)
    ensures
        r@ == spec_network_of_line(l@),
{
    let (name, _) = field_of(l, '\t', 0);
    let (id, _) = field_of(l, '\t', 1);
    let (driver, _) = field_of(l, '\t', 2);
    DockerNetwork { name: name.to_owned(), id: id.to_owned(), driver: driver.to_owned() }
}

/// The networks of the selected lines, in listing order.
pub open spec fn spec_networks_of(lines: Seq<Seq<char>>) -> Seq<DockerNetworkView>
    decreases lines.len(),
{
    if lines.len() == 0 {
        Seq::empty()
    } else {
        let front = spec_networks_of(lines.drop_last());
        if is_network_selected(lines.last()) {
            front.push(spec_network_of_line(lines.last()))
        } else {
            front
        }
    }
}

/// The Docker networks of a full listing text.
pub open spec fn spec_networks(text: Seq<char>) -> Seq<DockerNetworkView> {
    spec_networks_of(spec_lines(text))
}

/// Parse the runtime's network listing: keep the bridge-like and lab-named
/// lines, in order, each as a typed network.
pub fn parse_network_listing(text: &str) -> (r: Vec<DockerNetwork>)
    ensures
        r.deep_view() == spec_networks(text@),
{
    let lines = split_lines(text);
    let mut out: Vec<DockerNetwork> = Vec::new();
    let n = lines.len();
    proof {
        assert(out.deep_view() =~= spec_networks_of(lines.deep_view().take(0)));
    }
    let mut i: usize = 0;
    while i < n
        invariant
            i <= n,
            n == lines@.len(),
            lines.deep_view() == spec_lines(text@),
            out.deep_view() == spec_networks_of(lines.deep_view().take(i as int)),
        decreases n - i,
    {
        let l = lines[i].as_str();
        proof {
            assert(lines.deep_view()[i as int] == l@);
            assert(lines.deep_view().take(i + 1).drop_last() =~~= lines.deep_view().take(
                i as int,
            ));
            assert(lines.deep_view().take(i + 1).last() == l@);
        }
        let ghost pre = out.deep_view();
        if line_is_network_selected(l) {
            out.push(network_of_line(l));
            proof {
                assert(out.deep_view() =~= pre.push(spec_network_of_line(l@)));
            }
        }
        i += 1;
    }
    proof {
        assert(lines.deep_view().take(n as int) =~~= lines.deep_view());
    }
    out
}

/// What the network listing yields for one attempt: nothing when the call
/// failed, else the networks of whatever it printed.
pub open spec fn spec_networks_of_outcome(o: ExecOutcomeView) -> Seq<DockerNetworkView> {
    match o {
        ExecOutcomeView::Failed { .. } => Seq::empty(),
        ExecOutcomeView::Ran { stdout, .. } => spec_networks(stdout),
    }
}

/// The networks of one listing attempt; a failed call degrades to none.
pub fn networks_from_outcome(o: &ExecOutcome) -> (r: Vec<DockerNetwork>)
    ensures
        r.deep_view() == spec_networks_of_outcome(o@),
{
    match o {
        ExecOutcome::Failed { .. } => {
            let out: Vec<DockerNetwork> = Vec::new();
            proof {
                assert(out.deep_view() =~= Seq::<DockerNetworkView>::empty());
            }
            out
        },
        ExecOutcome::Ran { stdout, .. } => parse_network_listing(stdout.as_str()),
    }
}

/// One bridge interface with its address in CIDR form.
pub struct BridgeInterface {
    pub name: String,
    pub cidr: String,
}

/// Mathematical image of a `BridgeInterface`.
pub struct BridgeInterfaceView {
    pub name: Seq<char>,
    pub cidr: Seq<char>,
}

impl View for BridgeInterface {
    type V = BridgeInterfaceView;

    open spec fn view(&self) -> BridgeInterfaceView {
        BridgeInterfaceView { name: self.name@, cidr: self.cidr@ }
    }
}

impl DeepView for BridgeInterface {
    type V = BridgeInterfaceView;

    open spec fn deep_view(&self) -> BridgeInterfaceView {
        self.view()
    }
}

/// An interface-listing line introduces a bridge-like interface.
pub open spec fn is_bridge_header(l: Seq<char>) -> bool {
    contains_seq(l, "br-"@) || contains_seq(l, "docker0"@)
}

/// The interface name a header line carries: the text after the first colon,
/// trimmed, up to any '@' that separates the name from its peer.
pub open spec fn spec_header_name(l: Seq<char>) -> Seq<char> {
    spec_field(spec_trim(spec_field(l, ':', 1)), '@', 0)
}

/// The interface being tracked after reading one line: a bridge-like header
/// line with a second colon-separated field replaces it, any other line
/// leaves it.
pub open spec fn spec_tracked_after(cur: Seq<char>, l: Seq<char>) -> Seq<char> {
    if is_bridge_header(l) && spec_has_field(l, ':', 1) {
        spec_header_name(l)
    } else {
        cur
    }
}

/// Whether a line yields a capture: an interface is being tracked, the line
/// mentions an `inet` address, and it has an address token.
pub open spec fn spec_line_captures(cur: Seq<char>, l: Seq<char>) -> bool {
    &&& spec_tracked_after(cur, l).len() > 0
    &&& contains_seq(l, "inet "@)
    &&& spec_has_second_token(l)
}

/// The capture a line yields: the tracked interface with the line's address
/// token.
pub open spec fn spec_line_capture(cur: Seq<char>, l: Seq<char>) -> BridgeInterfaceView {
    BridgeInterfaceView { name: spec_tracked_after(cur, l), cidr: spec_second_token(l) }
}

/// The scan state over a prefix of the listing: the interface still being
/// tracked, and the interfaces captured so far. Each capture resets the
/// tracking, so an interface yields at most one address.
pub open spec fn spec_scan(lines: Seq<Seq<char>>) -> (Seq<char>, Seq<BridgeInterfaceView>)
    decreases lines.len(),
{
    if lines.len() == 0 {
        (Seq::empty(), Seq::empty())
    } else {
        let prev = spec_scan(lines.drop_last());
        let l = lines.last();
        if spec_line_captures(prev.0, l) {
            (Seq::empty(), prev.1.push(spec_line_capture(prev.0, l)))
        } else {
            (spec_tracked_after(prev.0, l), prev.1)
        }
    }
}

/// The bridge interfaces of a full interface listing.
pub open spec fn spec_bridge_interfaces(text: Seq<char>) -> Seq<BridgeInterfaceView> {
    spec_scan(spec_lines(text)).1
}

/// Parse the host's interface listing into the bridge interfaces and their
/// first addresses.
pub fn parse_bridge_interfaces(text: &str) -> (r: Vec<BridgeInterface>)
    ensures
        r.deep_view() == spec_bridge_interfaces(text@),
{
    let lines = split_lines(text);
    let mut out: Vec<BridgeInterface> = Vec::new();
    let mut cur = String::new();
    let n = lines.len();
    proof {
        assert(cur@ =~= spec_scan(lines.deep_view().take(0)).0);
        assert(out.deep_view() =~= spec_scan(lines.deep_view().take(0)).1);
    }
    let mut i: usize = 0;
    while i < n
        invariant
            i <= n,
            n == lines@.len(),
            lines.deep_view() == spec_lines(text@),
            cur@ == spec_scan(lines.deep_view().take(i as int)).0,
            out.deep_view() == spec_scan(lines.deep_view().take(i as int)).1,
        decreases n - i,
    {
        let l = lines[i].as_str();
        proof {
            assert(lines.deep_view()[i as int] == l@);
            assert(lines.deep_view().take(i + 1).drop_last() =~~= lines.deep_view().take(
                i as int,
            ));
            assert(lines.deep_view().take(i + 1).last() == l@);
        }
        let ghost tracked_before = cur@;
        if str_contains(l, "br-") || str_contains(l, "docker0") {
            let (after_colon, has) = field_of(l, ':', 1);
            if has {
                let trimmed = trim_spaces(after_colon);
                let (name, _) = field_of(trimmed, '@', 0);
                cur = name.to_owned();
            }
        }
        proof {
            assert(cur@ == spec_tracked_after(tracked_before, l@));
        }
        let ghost pre = out.deep_view();
        if cur.as_str().unicode_len() > 0 && str_contains(l, "inet ") {
            if let Option::Some(tok) = second_ws_token(l) {
                out.push(BridgeInterface { name: cur.clone(), cidr: tok.to_owned() });
                cur = String::new();
                proof {
                    assert(spec_line_captures(tracked_before, l@));
                    assert(out.deep_view() =~= pre.push(spec_line_capture(tracked_before, l@)));
                    assert(cur@ =~= Seq::<char>::empty());
                }
            }
        }
        i += 1;
    }
    proof {
        assert(lines.deep_view().take(n as int) =~~= lines.deep_view());
    }
    out
}

/// What the interface listing yields for one attempt: nothing when the call
/// failed, else the interfaces of whatever it printed.
pub open spec fn spec_interfaces_of_outcome(o: ExecOutcomeView) -> Seq<BridgeInterfaceView> {
    match o {
        ExecOutcomeView::Failed { .. } => Seq::empty(),
        ExecOutcomeView::Ran { stdout, .. } => spec_bridge_interfaces(stdout),
    }
}

/// The bridge interfaces of one listing attempt; a failed call degrades to
/// none.
pub fn interfaces_from_outcome(o: &ExecOutcome) -> (r: Vec<BridgeInterface>)
    ensures
        r.deep_view() == spec_interfaces_of_outcome(o@),
{
    match o {
        ExecOutcome::Failed { .. } => {
            let out: Vec<BridgeInterface> = Vec::new();
            proof {
                assert(out.deep_view() =~= Seq::<BridgeInterfaceView>::empty());
            }
            out
        },
        ExecOutcome::Ran { stdout, .. } => parse_bridge_interfaces(stdout.as_str()),
    }
}

} // verus!
