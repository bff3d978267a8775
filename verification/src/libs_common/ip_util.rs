//! Choosing the IPv4 address a host reports: the first non-loopback IPv4
//! address of the first non-loopback interface that has one.
use vstd::prelude::*;

verus! {

/// An IP address: four octets, or eight 16-bit segments.
#[derive(Debug, Clone, Copy, PartialEq, Eq)]
pub enum IpAddress {
    V4([u8; 4]),
    V6([u16; 8]),
}

/// A network interface as the selection reads it: whether it is a
/// loopback interface, and its addresses in order.
#[derive(Debug, Clone)]
pub struct NetworkInterface {
    pub is_loopback: bool,
    pub ips: Vec<IpAddress>,
}

/// An IPv4 address outside the loopback block `127.0.0.0/8`.
pub open spec fn is_routable_v4(ip: IpAddress) -> bool {
    ip matches IpAddress::V4(o) && o[0] != 127
}

/// The first address of the list that is an IPv4 address outside the
/// loopback block.
pub open spec fn first_routable_v4(ips: Seq<IpAddress>) -> Option<IpAddress>
    decreases ips.len(),
{
    if ips.len() == 0 {
        None
    } else if is_routable_v4(ips[0]) {
        Some(ips[0])
    } else {
        first_routable_v4(ips.drop_first())
    }
}

/// The address chosen among the interfaces: that of the first
/// non-loopback interface with a routable IPv4 address.
pub open spec fn chosen_ipv4(interfaces: Seq<NetworkInterface>) -> Option<IpAddress>
    decreases interfaces.len(),
{
    if interfaces.len() == 0 {
        None
    } else if !interfaces[0].is_loopback && first_routable_v4(interfaces[0].ips@) is Some {
        first_routable_v4(interfaces[0].ips@)
    } else {
        chosen_ipv4(interfaces.drop_first())
    }
}

/// Whether an address is an IPv4 address outside the loopback block.
fn is_routable_ipv4(ip: &IpAddress) -> (r: bool)
    ensures
        r == is_routable_v4(*ip),
{
    match ip {
        IpAddress::V4(o) => o[0] != 127,
        IpAddress::V6(_) => false,
    }
}

/// The first IPv4 address of the interface outside the loopback block.
pub fn get_ipv4_address(interface: &NetworkInterface) -> (r: Option<IpAddress>)
    ensures
        r == first_routable_v4(interface.ips@),
{
    let ips = &interface.ips;
    let mut i: usize = 0;
    assert(ips@.subrange(0, ips@.len() as int) =~= ips@);
    while i < ips.len()
        invariant
            i <= ips@.len(),
            ips@ == interface.ips@,
            first_routable_v4(ips@) == first_routable_v4(ips@.subrange(i as int, ips@.len() as int)),
        decreases ips.len() - i,
    {
        let ghost rest = ips@.subrange(i as int, ips@.len() as int);
        assert(rest.drop_first() =~= ips@.subrange(i + 1, ips@.len() as int));
        assert(rest[0] == ips@[i as int]);
        let ip = &ips[i];
        if is_routable_ipv4(ip) {
            return Some(*ip);
        }
        i = i + 1;
    }
    assert(ips@.subrange(i as int, ips@.len() as int) =~= Seq::<IpAddress>::empty());
    None
}

/// The IPv4 address of the host among its interfaces: the first
/// non-loopback IPv4 address of the first non-loopback interface that has
/// one.
pub fn get_ipv4_from(interfaces: &Vec<NetworkInterface>) -> (r: Option<IpAddress>)
    ensures
        r == chosen_ipv4(interfaces@),
        r matches Some(ip) ==> is_routable_v4(ip),
{
    let mut i: usize = 0;
    assert(interfaces@.subrange(0, interfaces@.len() as int) =~= interfaces@);
    while i < interfaces.len()
        invariant
            i <= interfaces@.len(),
            chosen_ipv4(interfaces@) == chosen_ipv4(
                interfaces@.subrange(i as int, interfaces@.len() as int),
            ),
        decreases interfaces.len() - i,
    {
        let ghost rest = interfaces@.subrange(i as int, interfaces@.len() as int);
        assert(rest.drop_first() =~= interfaces@.subrange(i + 1, interfaces@.len() as int));
        let interface = &interfaces[i];
        assert(rest[0] == interfaces@[i as int]);
        if !interface.is_loopback {
            if let Some(ip) = get_ipv4_address(interface) {
                proof {
                    lemma_first_routable_is_routable(interface.ips@);
                }
                return Some(ip);
            }
        }
        i = i + 1;
    }
    assert(interfaces@.subrange(i as int, interfaces@.len() as int) =~= Seq::<
        NetworkInterface,
    >::empty());
    None
}

/// The address found in a list is an IPv4 address outside the loopback
/// block.
pub proof fn lemma_first_routable_is_routable(ips: Seq<IpAddress>)
    ensures
        first_routable_v4(ips) matches Some(ip) ==> is_routable_v4(ip),
    decreases ips.len(),
{
    if ips.len() > 0 {
        lemma_first_routable_is_routable(ips.drop_first());
    }
}

/// The chosen address belongs to a non-loopback interface and is a
/// routable IPv4 address of it, and every earlier interface is a loopback
/// interface or has no such address.
pub proof fn law_chosen_address_is_first_routable(interfaces: Seq<NetworkInterface>)
    ensures
        chosen_ipv4(interfaces) matches Some(ip) ==> exists|k: int|
            0 <= k < interfaces.len() && !interfaces[k].is_loopback && first_routable_v4(
                interfaces[k].ips@,
            ) == Some(ip) && is_routable_v4(ip) && forall|j: int|
                0 <= j < k ==> (interfaces[j].is_loopback || first_routable_v4(
                    interfaces[j].ips@,
                ) is None),
    decreases interfaces.len(),
{
    if interfaces.len() > 0 {
        lemma_first_routable_is_routable(interfaces[0].ips@);
        law_chosen_address_is_first_routable(interfaces.drop_first());
        if !(!interfaces[0].is_loopback && first_routable_v4(interfaces[0].ips@) is Some) {
            if let Some(ip) = chosen_ipv4(interfaces) {
                let k = choose|k: int|
                    0 <= k < interfaces.drop_first().len()
                        && !interfaces.drop_first()[k].is_loopback && first_routable_v4(
                        interfaces.drop_first()[k].ips@,
                    ) == Some(ip) && is_routable_v4(ip) && forall|j: int|
                        0 <= j < k ==> (interfaces.drop_first()[j].is_loopback
                            || first_routable_v4(interfaces.drop_first()[j].ips@) is None);
                assert(interfaces[k + 1] == interfaces.drop_first()[k]);
                assert forall|j: int| 0 <= j < k + 1 implies (interfaces[j].is_loopback
                    || first_routable_v4(interfaces[j].ips@) is None) by {
                    if j > 0 {
                        assert(interfaces[j] == interfaces.drop_first()[j - 1]);
                    }
                }
            }
        }
    }
}

} // verus!
