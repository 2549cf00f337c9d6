//! The address of the host in its local network.

use vstd::prelude::*;
use crate::reply::unknown;
use crate::scan;
use crate::text;

verus! {

/// An address of one of the host's network interfaces.
#[derive(Clone, Copy, Debug, PartialEq, Eq, Structural)]
pub enum Address {
    /// An address of version 4, by its four octets.
    V4(u8, u8, u8, u8),
    /// An address of version 6.
    V6,
}

/// Whether the address can be the host's own in its network: one of
/// version 4 outside the block 127.0.0.0/8, which loops back.
pub open spec fn is_routable(address: Address) -> bool {
    match address {
        Address::V4(a, _, _, _) => a != 127,
        Address::V6 => false,
    }
}

/// The four octets in decimal digits, with dots between them.
pub open spec fn dotted(a: u8, b: u8, c: u8, d: u8) -> Seq<char> {
    text::decimal(a as nat) + "."@ + text::decimal(b as nat) + "."@ + text::decimal(c as nat)
        + "."@ + text::decimal(d as nat)
}

/// The first of `addresses` that can be the host's own.
pub open spec fn first_routable(addresses: Seq<Address>) -> Option<Address>
    decreases addresses.len(),
{
    if addresses.len() == 0 {
        None
    } else if is_routable(addresses[0]) {
        Some(addresses[0])
    } else {
        first_routable(addresses.drop_first())
    }
}

/// The host's address, written with dots: the first of the interfaces'
/// addresses that can be its own; `unknown()` where none can, or where the
/// interfaces cannot be listed.
pub open spec fn local_ip_info(addresses: Option<Seq<Address>>) -> Seq<char> {
    match addresses {
        Some(list) => match first_routable(list) {
            Some(Address::V4(a, b, c, d)) => dotted(a, b, c, d),
            _ => unknown(),
        },
        None => unknown(),
    }
}

/// The addresses of the list, where there is one.
pub open spec fn addresses_of(addresses: Option<&Vec<Address>>) -> Option<Seq<Address>> {
    match addresses {
        Some(list) => Some(list@),
        None => None,
    }
}

/// The four octets in decimal digits, with dots between them.
pub fn get_dotted(a: u8, b: u8, c: u8, d: u8) -> (r: String)
    ensures
        r@ == dotted(a, b, c, d),
{
    let first = scan::string_of(scan::decimal(a as u64).as_slice());
    let second = scan::string_of(scan::decimal(b as u64).as_slice());
    let third = scan::string_of(scan::decimal(c as u64).as_slice());
    let fourth = scan::string_of(scan::decimal(d as u64).as_slice());
    first.concat(".").concat(second.as_str()).concat(".").concat(third.as_str()).concat(
        ".",
    ).concat(fourth.as_str())
}

/// The host's address in its local network, from the addresses of its
/// interfaces.
pub fn get_local_ip_info(addresses: Option<&Vec<Address>>) -> (r: String)
    ensures
        r@ == local_ip_info(addresses_of(addresses)),
{
    if let Some(list) = addresses {
        let mut i: usize = 0;
        assert(list@.skip(0) =~= list@);
        while i < list.len()
            invariant
                i <= list.len(),
                addresses_of(addresses) == Some(list@),
                first_routable(list@) == first_routable(list@.skip(i as int)),
            decreases list.len() - i,
        {
            assert(list@.skip(i as int).drop_first() =~= list@.skip(i + 1));
            match list[i] {
                Address::V4(a, b, c, d) => {
                    if a != 127 {
                        return get_dotted(a, b, c, d);
                    }
                },
                Address::V6 => {},
            }
            i += 1;
        }
    }
    "Unknown".to_owned()
}

} // verus!
