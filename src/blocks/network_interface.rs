//! The network-interface source.

use vstd::prelude::*;

use crate::block::{Block, BlockError, BlockState, ClickEvent, Icon};
use crate::text::{decimal, push_char, push_decimal};

verus! {

/// One address of a network interface: the interface's name and, where the
/// address is an IPv4 one, its four octets.
#[derive(Debug)]
pub struct InterfaceAddress {
    pub name: String,
    pub ipv4: Option<(u8, u8, u8, u8)>,
}

impl View for InterfaceAddress {
    type V = (Seq<char>, Option<(u8, u8, u8, u8)>);

    open spec fn view(&self) -> (Seq<char>, Option<(u8, u8, u8, u8)>) {
        (self.name@, self.ipv4)
    }
}

/// Relies on `nix::ifaddrs::getifaddrs`: the addresses of the machine's
/// interfaces in the order it lists them, each with its name and, through
/// `SockaddrStorage::as_sockaddr_in`, its IPv4 octets; or the error of the call.
#[verifier::external_body]
fn interface_addresses() -> (r: Result<Vec<InterfaceAddress>, nix::errno::Errno>)
{
    nix::ifaddrs::getifaddrs().map(|addrs| {
        addrs.map(|a| InterfaceAddress {
            ipv4: a.address.as_ref().and_then(|s| s.as_sockaddr_in()).map(|s| s.ip().octets().into()),
            name: a.interface_name,
        }).collect()
    })
}

/// `a.b.c.d`.
pub open spec fn dotted(ip: (u8, u8, u8, u8)) -> Seq<char> {
    decimal(ip.0 as nat) + seq!['.'] + decimal(ip.1 as nat) + seq!['.'] + decimal(ip.2 as nat)
        + seq!['.'] + decimal(ip.3 as nat)
}

/// Whether an address is an IPv4 address of the interface `name`.
pub open spec fn is_match(a: (Seq<char>, Option<(u8, u8, u8, u8)>), name: Seq<char>) -> bool {
    a.0 == name && a.1 is Some
}

/// The position of the first IPv4 address of the interface `name`.
pub open spec fn first_match(addrs: Seq<(Seq<char>, Option<(u8, u8, u8, u8)>)>, name: Seq<char>) -> Option<int> {
    if exists|i: int| 0 <= i < addrs.len() && is_match(#[trigger] addrs[i], name) {
        Some(choose|i: int| 0 <= i < addrs.len() && is_match(#[trigger] addrs[i], name)
            && forall|j: int| 0 <= j < i ==> !is_match(#[trigger] addrs[j], name))
    } else {
        None
    }
}

/// Writes an IPv4 address as `a.b.c.d`.
pub fn format_ipv4(ip: (u8, u8, u8, u8)) -> (r: String)
    ensures
        r@ == dotted(ip),
{
    let mut r = String::new();
    push_decimal(&mut r, ip.0 as u128);
    push_char(&mut r, '.');
    push_decimal(&mut r, ip.1 as u128);
    push_char(&mut r, '.');
    push_decimal(&mut r, ip.2 as u128);
    push_char(&mut r, '.');
    push_decimal(&mut r, ip.3 as u128);
    assert(r@ =~= dotted(ip));
    r
}

/// The interface source: the IPv4 address of one network interface.
pub struct NetworkInterface {
    interface: String,
}

impl NetworkInterface {
    pub closed spec fn spec_interface(&self) -> Seq<char> {
        self.interface@
    }

    pub fn new(interface: String) -> (r: Self)
        ensures
            r.spec_interface() == interface@,
    {
        NetworkInterface { interface }
    }

    /// The sample for the machine's addresses: the first IPv4 address of
    /// this interface, or a failure where it has none.
    pub fn select(&self, addrs: &Vec<InterfaceAddress>) -> (r: Result<BlockState, BlockError>)
        ensures
            ({
                let views = addrs@.map_values(|a: InterfaceAddress| a@);
                match first_match(views, self.spec_interface()) {
                    None => r is Err,
                    Some(i) => r matches Ok(st)
                        && st@ == Icon::Globe.spec_label(dotted(views[i].1->Some_0)),
                }
            }),
    {
        let ghost views = addrs@.map_values(|a: InterfaceAddress| a@);
        let mut i: usize = 0;
        while i < addrs.len()
            invariant
                i <= addrs.len(),
                views == addrs@.map_values(|a: InterfaceAddress| a@),
                forall|j: int| 0 <= j < i ==> !is_match(#[trigger] views[j], self.spec_interface()),
            decreases addrs.len() - i,
        {
            let a = &addrs[i];
            if a.name == self.interface {
                if let Some(ip) = a.ipv4 {
                    assert(is_match(views[i as int], self.spec_interface()));
                    let text = format_ipv4(ip);
                    return Ok(BlockState::new(Icon::Globe.label(text.as_str())));
                }
            }
            assert(!is_match(views[i as int], self.spec_interface()));
            i = i + 1;
        }
        Err(BlockError::new(String::from_str("Failed to find network interface")))
    }

    /// The sample for an outcome of the address query: a failure where the
    /// query failed, else as `select` says.
    pub fn state_for(&self, addrs: Result<Vec<InterfaceAddress>, nix::errno::Errno>) -> (r: Result<BlockState, BlockError>)
        ensures
            addrs is Err ==> r is Err,
            addrs matches Ok(v) ==> ({
                let views = v@.map_values(|a: InterfaceAddress| a@);
                match first_match(views, self.spec_interface()) {
                    None => r is Err,
                    Some(i) => r matches Ok(st)
                        && st@ == Icon::Globe.spec_label(dotted(views[i].1->Some_0)),
                }
            }),
    {
        match addrs {
            Ok(v) => self.select(&v),
            Err(_) => Err(BlockError::new(String::from_str("Failed to list network interfaces"))),
        }
    }
}

impl Block for NetworkInterface {
    /// An IPv4 address of this interface, whichever the machine lists first;
    /// a failure where the query fails or the interface has none.
    fn current_state(&mut self) -> (r: Result<BlockState, BlockError>)
        ensures
            r matches Ok(st) ==> exists|ip: (u8, u8, u8, u8)| st@ == Icon::Globe.spec_label(dotted(ip)),
    {
        let addrs = interface_addresses();
        let ghost seen = addrs;
        let r = self.state_for(addrs);
        proof {
            if let Ok(v) = seen {
                let views = v@.map_values(|a: InterfaceAddress| a@);
                if let Some(i) = first_match(views, self.spec_interface()) {
                    assert(r matches Ok(st) && st@ == Icon::Globe.spec_label(dotted(views[i].1->Some_0)));
                }
            }
        }
        r
    }

    fn handle_click(&self, _event: ClickEvent) {
    }
}

} // verus!
