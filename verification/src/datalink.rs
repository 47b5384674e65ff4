//! Picking a local address: given the discovered network interfaces as
//! plain values, the first IPv4 address of the first interface with the
//! wanted name, with an override for a pod-supplied address. Discovering the
//! interfaces is outside work.

use vstd::prelude::*;

verus! {

/// One address of an interface, as text, with its family.
pub struct IfaceAddress {
    /// Whether this is an IPv4 address.
    pub is_v4: bool,
    /// The address text.
    pub address: String,
}

/// One network interface: its name and its addresses, in discovery order.
pub struct Interface {
    /// The interface name.
    pub name: String,
    /// The interface's addresses, in discovery order.
    pub addresses: Vec<IfaceAddress>,
}

/// The first interface of `ifaces` named `name`, if any.
pub open spec fn spec_find_iface(ifaces: Seq<Interface>, name: Seq<char>) -> Option<Interface>
    decreases ifaces.len(),
{
    if ifaces.len() == 0 {
        None
    } else if ifaces[0].name@ == name {
        Some(ifaces[0])
    } else {
        spec_find_iface(ifaces.skip(1), name)
    }
}

/// The first IPv4 address of `addrs`, if any.
pub open spec fn spec_first_v4(addrs: Seq<IfaceAddress>) -> Option<Seq<char>>
    decreases addrs.len(),
{
    if addrs.len() == 0 {
        None
    } else if addrs[0].is_v4 {
        Some(addrs[0].address@)
    } else {
        spec_first_v4(addrs.skip(1))
    }
}

/// What picking from `ifaces` by `name` yields: the first IPv4 address of
/// the first interface with that name.
pub open spec fn spec_pick(ifaces: Seq<Interface>, name: Seq<char>) -> Option<Seq<char>> {
    match spec_find_iface(ifaces, name) {
        None => None,
        Some(iface) => spec_first_v4(iface.addresses@),
    }
}

/// The local address to use: `pod_address` when one was supplied, else the
/// first IPv4 address of the first interface named `name`.
pub fn pick_address(pod_address: Option<String>, name: &str, ifaces: &Vec<Interface>) -> (r: Option<
    String,
>)
    ensures
        pod_address is Some ==> r == pod_address,
        pod_address is None ==> (match spec_pick(ifaces@, name@) {
            None => r is None,
            Some(a) => r matches Some(s) && s@ == a,
        }),
{
    match pod_address {
        Some(ip) => {
            return Some(ip);
        },
        None => {},
    }
    let n = ifaces.len();
    proof {
        assert(ifaces@.skip(0) =~= ifaces@);
    }
    let mut i: usize = 0;
    while i < n
        invariant
            pod_address is None,
            0 <= i <= n,
            n == ifaces@.len(),
            spec_find_iface(ifaces@, name@) == spec_find_iface(ifaces@.skip(i as int), name@),
        decreases n - i,
    {
        proof {
            assert(ifaces@.skip(i as int).len() > 0);
            assert(ifaces@.skip(i as int)[0] == ifaces@[i as int]);
            assert(ifaces@.skip(i as int).skip(1) =~= ifaces@.skip(i + 1));
        }
        if ifaces[i].name == name.to_owned() {
            return first_v4(&ifaces[i].addresses);
        }
        i = i + 1;
    }
    proof {
        assert(ifaces@.skip(n as int).len() == 0);
    }
    None
}

/// The first IPv4 address of `addrs`, if any.
fn first_v4(addrs: &Vec<IfaceAddress>) -> (r: Option<String>)
    ensures
        match spec_first_v4(addrs@) {
            None => r is None,
            Some(a) => r matches Some(s) && s@ == a,
        },
{
    let n = addrs.len();
    proof {
        assert(addrs@.skip(0) =~= addrs@);
    }
    let mut i: usize = 0;
    while i < n
        invariant
            0 <= i <= n,
            n == addrs@.len(),
            spec_first_v4(addrs@) == spec_first_v4(addrs@.skip(i as int)),
        decreases n - i,
    {
        proof {
            assert(addrs@.skip(i as int).len() > 0);
            assert(addrs@.skip(i as int)[0] == addrs@[i as int]);
            assert(addrs@.skip(i as int).skip(1) =~= addrs@.skip(i + 1));
        }
        if addrs[i].is_v4 {
            return Some(addrs[i].address.clone());
        }
        i = i + 1;
    }
    proof {
        assert(addrs@.skip(n as int).len() == 0);
    }
    None
}

} // verus!
