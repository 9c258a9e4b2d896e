//! Tunnel configurations: addresses, DNS servers, routed networks and MTU.

use vstd::prelude::*;

verus! {

/// An IP address, held as the number that its bytes spell in network order.
#[derive(Clone, Copy, Debug, PartialEq, Eq, Structural)]
pub enum IpAddress {
    V4(u32),
    V6(u128),
}

impl IpAddress {
    /// The longest prefix that a network of this address family can have.
    pub open spec fn max_prefix(self) -> u8 {
        match self {
            IpAddress::V4(_) => 32u8,
            IpAddress::V6(_) => 128u8,
        }
    }
}

/// A routed network: an address and the length of its prefix.
#[derive(Clone, Copy, Debug, PartialEq, Eq, Structural)]
pub struct Route {
    address: IpAddress,
    prefix: u8,
}

/// Asks `ipnetwork::Ipv4Network::new` whether it accepts the prefix for the
/// address. It refuses a prefix above 32 and nothing else.
#[verifier::external_body]
fn ipv4_network_accepted(address: u32, prefix: u8) -> (accepted: bool)
    ensures
        accepted == (prefix <= 32),
{
    ipnetwork::Ipv4Network::new(address.into(), prefix).is_ok()
}

/// Asks `ipnetwork::Ipv6Network::new` whether it accepts the prefix for the
/// address. It refuses a prefix above 128 and nothing else.
#[verifier::external_body]
fn ipv6_network_accepted(address: u128, prefix: u8) -> (accepted: bool)
    ensures
        accepted == (prefix <= 128),
{
    ipnetwork::Ipv6Network::new(address.into(), prefix).is_ok()
}

impl Route {
    /// The address the network was made with.
    pub closed spec fn spec_address(self) -> IpAddress {
        self.address
    }

    /// The length of the network's prefix.
    pub closed spec fn spec_prefix(self) -> u8 {
        self.prefix
    }

    /// The route with these two parts, whether or not they fit together.
    pub closed spec fn of(address: IpAddress, prefix: u8) -> Route {
        Route { address, prefix }
    }

    /// A route's prefix fits its address family.
    #[verifier::type_invariant]
    pub closed spec fn wf(self) -> bool {
        self.prefix <= self.address.max_prefix()
    }

    /// A route is made of its address and its prefix, and of nothing else.
    pub proof fn lemma_parts(address: IpAddress, prefix: u8)
        ensures
            Route::of(address, prefix).spec_address() == address,
            Route::of(address, prefix).spec_prefix() == prefix,
            forall|r: Route|
                r.spec_address() == address && r.spec_prefix() == prefix ==> r == Route::of(
                    address,
                    prefix,
                ),
    {
    }

    /// Makes the network of `address` with a prefix of `prefix` bits, unless
    /// the prefix is too long for the address family.
    pub fn new(address: IpAddress, prefix: u8) -> (route: Option<Route>)
        ensures
            prefix <= address.max_prefix() ==> route == Some(Route::of(address, prefix)),
            prefix > address.max_prefix() ==> route is None,
            route matches Some(r) ==> r.wf(),
    {
        let accepted = match address {
            IpAddress::V4(bits) => ipv4_network_accepted(bits, prefix),
            IpAddress::V6(bits) => ipv6_network_accepted(bits, prefix),
        };
        if accepted {
            Some(Route { address, prefix })
        } else {
            None
        }
    }

    #[verifier::when_used_as_spec(spec_address)]
    pub fn address(self) -> (address: IpAddress)
        ensures
            address == self.spec_address(),
    {
        self.address
    }

    #[verifier::when_used_as_spec(spec_prefix)]
    pub fn prefix(self) -> (prefix: u8)
        ensures
            prefix == self.spec_prefix(),
            prefix <= self.spec_address().max_prefix(),
    {
        proof {
            use_type_invariant(self);
        }
        self.prefix
    }
}

/// What a configuration says: two ordered lists of addresses, the set of
/// routed networks, and the MTU.
pub struct TunConfigView {
    pub addresses: Seq<IpAddress>,
    pub dns_servers: Seq<IpAddress>,
    pub routes: Set<Route>,
    pub mtu: u16,
}

/// Configuration of a tunnel device.
#[derive(Debug)]
pub struct TunConfig {
    /// IP addresses of the tunnel interface.
    pub addresses: Vec<IpAddress>,
    /// IP addresses of the DNS servers to use.
    pub dns_servers: Vec<IpAddress>,
    /// Networks whose traffic enters the tunnel. Order and repetition carry
    /// no meaning.
    pub routes: Vec<Route>,
    /// Maximum transmission unit of the tunnel interface.
    pub mtu: u16,
}

impl View for TunConfig {
    type V = TunConfigView;

    open spec fn view(&self) -> TunConfigView {
        TunConfigView {
            addresses: self.addresses@,
            dns_servers: self.dns_servers@,
            routes: self.routes@.to_set(),
            mtu: self.mtu,
        }
    }
}

/// The configuration a provider starts with: it takes every packet, and its
/// address and MTU are stand-ins until a real configuration arrives.
pub open spec fn initial_config() -> TunConfigView {
    TunConfigView {
        addresses: seq![IpAddress::V4(0x0a00_0001)],
        dns_servers: Seq::empty(),
        routes: set![Route::of(IpAddress::V4(0), 0), Route::of(IpAddress::V6(0), 0)],
        mtu: 1380,
    }
}

/// A copy of `items`, element for element.
fn copy_of<T: Copy>(items: &Vec<T>) -> (copy: Vec<T>)
    ensures
        copy@ == items@,
{
    let mut copy: Vec<T> = Vec::new();
    let mut i: usize = 0;
    while i < items.len()
        invariant
            i <= items.len(),
            copy@ == items@.take(i as int),
        decreases items.len() - i,
    {
        copy.push(items[i]);
        assert(items@.take(i + 1) =~= items@.take(i as int).push(items@[i as int]));
        i += 1;
    }
    assert(items@.take(items.len() as int) =~= items@);
    copy
}

/// Whether two lists of addresses agree in length and at every place.
fn same_addresses(left: &Vec<IpAddress>, right: &Vec<IpAddress>) -> (same: bool)
    ensures
        same == (left@ == right@),
{
    if left.len() != right.len() {
        return false;
    }
    let mut i: usize = 0;
    while i < left.len()
        invariant
            i <= left.len(),
            left.len() == right.len(),
            forall|k: int| 0 <= k < i ==> left@[k] == right@[k],
        decreases left.len() - i,
    {
        if left[i] != right[i] {
            return false;
        }
        i += 1;
    }
    assert(left@ =~= right@);
    true
}

/// Whether `route` is among `routes`.
fn has_route(routes: &Vec<Route>, route: Route) -> (found: bool)
    ensures
        found == routes@.contains(route),
{
    let mut i: usize = 0;
    while i < routes.len()
        invariant
            i <= routes.len(),
            forall|k: int| 0 <= k < i ==> routes@[k] != route,
        decreases routes.len() - i,
    {
        if routes[i] == route {
            return true;
        }
        i += 1;
    }
    false
}

/// Whether every route of `inner` is among `outer`.
fn routes_within(inner: &Vec<Route>, outer: &Vec<Route>) -> (within: bool)
    ensures
        within == inner@.to_set().subset_of(outer@.to_set()),
{
    let mut i: usize = 0;
    while i < inner.len()
        invariant
            i <= inner.len(),
            forall|k: int| 0 <= k < i ==> outer@.contains(#[trigger] inner@[k]),
        decreases inner.len() - i,
    {
        if !has_route(outer, inner[i]) {
            assert(inner@.to_set().contains(inner@[i as int]));
            assert(!outer@.to_set().contains(inner@[i as int]));
            return false;
        }
        i += 1;
    }
    assert forall|r: Route| inner@.to_set().contains(r) implies outer@.to_set().contains(r) by {
        let k = choose|k: int| 0 <= k < inner@.len() && inner@[k] == r;
        assert(outer@.contains(inner@[k]));
    }
    true
}

impl TunConfig {
    /// Whether the two configurations say the same: the same addresses and
    /// DNS servers in the same order, the same set of routes, the same MTU.
    pub fn same_as(&self, other: &TunConfig) -> (same: bool)
        ensures
            same == (self@ == other@),
    {
        let same = self.mtu == other.mtu && same_addresses(&self.addresses, &other.addresses)
            && same_addresses(&self.dns_servers, &other.dns_servers) && routes_within(
            &self.routes,
            &other.routes,
        ) && routes_within(&other.routes, &self.routes);
        proof {
            if same {
                assert(self@.routes =~= other@.routes);
            }
        }
        same
    }

    /// The configuration a provider starts with.
    pub fn initial() -> (config: TunConfig)
        ensures
            config@ == initial_config(),
    {
        let mut addresses: Vec<IpAddress> = Vec::new();
        addresses.push(IpAddress::V4(0x0a00_0001));
        let mut routes: Vec<Route> = Vec::new();
        let ipv4 = Route::new(IpAddress::V4(0), 0).unwrap();
        let ipv6 = Route::new(IpAddress::V6(0), 0).unwrap();
        routes.push(ipv4);
        routes.push(ipv6);
        let config = TunConfig { addresses, dns_servers: Vec::new(), routes, mtu: 1380 };
        proof {
            assert(config.routes@ =~= seq![ipv4, ipv6]);
            assert(config.routes@[0] == ipv4 && config.routes@[1] == ipv6);
            assert(config@.routes =~= initial_config().routes);
            assert(config@.addresses =~= initial_config().addresses);
            assert(config@.dns_servers =~= initial_config().dns_servers);
        }
        config
    }
}

impl Clone for TunConfig {
    fn clone(&self) -> (copy: TunConfig)
        ensures
            copy@ == self@,
    {
        TunConfig {
            addresses: copy_of(&self.addresses),
            dns_servers: copy_of(&self.dns_servers),
            routes: copy_of(&self.routes),
            mtu: self.mtu,
        }
    }
}

impl PartialEq for TunConfig {
    fn eq(&self, other: &TunConfig) -> (same: bool) {
        self.same_as(other)
    }
}

impl Eq for TunConfig {
}

impl vstd::std_specs::cmp::PartialEqSpecImpl for TunConfig {
    open spec fn obeys_eq_spec() -> bool {
        true
    }

    open spec fn eq_spec(&self, other: &TunConfig) -> bool {
        self@ == other@
    }
}

} // verus!
