//! Recognising the device and the parts of its descriptors the session uses.

use vstd::prelude::*;

verus! {

/// Vendor id of the device family.
pub const KENDRYTE_VID: u16 = 0x29f1;

/// Product id of the device in mask-ROM recovery mode.
pub const K230D_PID: u16 = 0x0230;

/// Whether a device with these ids is the one this loader drives.
pub open spec fn spec_is_target(vid: u16, pid: u16) -> bool {
    vid == KENDRYTE_VID && pid == K230D_PID
}

/// Whether a device with these ids is the one this loader drives.
pub fn is_target_device(vid: u16, pid: u16) -> (r: bool)
    ensures
        r == spec_is_target(vid, pid),
{
    vid == KENDRYTE_VID && pid == K230D_PID
}

/// The position of the first device in `ids` (vendor, product) that this
/// loader drives, if any.
pub fn find_target(ids: &Vec<(u16, u16)>) -> (r: Option<usize>)
    ensures
        r matches Some(i) ==> i < ids@.len() && spec_is_target(ids@[i as int].0, ids@[i as int].1)
            && forall|j: int| 0 <= j < i ==> !spec_is_target(#[trigger] ids@[j].0, ids@[j].1),
        r is None ==> forall|j: int| 0 <= j < ids@.len() ==> !spec_is_target(#[trigger] ids@[j].0, ids@[j].1),
{
    let mut i: usize = 0;
    while i < ids.len()
        invariant
            i <= ids@.len(),
            forall|j: int| 0 <= j < i ==> !spec_is_target(#[trigger] ids@[j].0, ids@[j].1),
        decreases ids@.len() - i,
    {
        if is_target_device(ids[i].0, ids[i].1) {
            return Some(i);
        }
        i = i + 1;
    }
    None
}

/// Direction of an endpoint, from the host's point of view.
#[derive(Debug, Clone, Copy, PartialEq, Eq, Structural)]
pub enum EndpointDirection {
    Out,
    In,
}

/// The direction an endpoint address encodes: bit 7 set means in.
pub open spec fn spec_direction(address: u8) -> EndpointDirection {
    if address >= 0x80 {
        EndpointDirection::In
    } else {
        EndpointDirection::Out
    }
}

/// The direction an endpoint address encodes in its bit 7.
pub fn endpoint_direction(address: u8) -> (r: EndpointDirection)
    ensures
        r == spec_direction(address),
{
    assert((address & 0x80 == 0) == (address < 0x80)) by (bit_vector);
    if address & 0x80 == 0 {
        EndpointDirection::Out
    } else {
        EndpointDirection::In
    }
}

/// The first endpoint address in `addresses` with direction `dir`, if any.
pub fn find_endpoint(addresses: &Vec<u8>, dir: EndpointDirection) -> (r: Option<u8>)
    ensures
        r matches Some(a) ==> exists|i: int|
            0 <= i < addresses@.len() && addresses@[i] == a && spec_direction(a) == dir && forall|
                j: int,
            | 0 <= j < i ==> spec_direction(#[trigger] addresses@[j]) != dir,
        r is None ==> forall|j: int|
            0 <= j < addresses@.len() ==> spec_direction(#[trigger] addresses@[j]) != dir,
{
    let mut i: usize = 0;
    while i < addresses.len()
        invariant
            i <= addresses@.len(),
            forall|j: int| 0 <= j < i ==> spec_direction(#[trigger] addresses@[j]) != dir,
        decreases addresses@.len() - i,
    {
        let a = addresses[i];
        let d = endpoint_direction(a);
        if (match (d, dir) {
            (EndpointDirection::Out, EndpointDirection::Out) => true,
            (EndpointDirection::In, EndpointDirection::In) => true,
            _ => false,
        }) {
            return Some(a);
        }
        i = i + 1;
    }
    None
}

/// Signalling rate of the USB link.
#[derive(Debug, Clone, Copy, PartialEq, Eq, Structural)]
pub enum LinkSpeed {
    Low,
    Full,
    High,
    Super,
    SuperPlus,
}

/// Largest packet of a bulk endpoint at this link speed.
pub open spec fn spec_max_packet_size(s: LinkSpeed) -> u16 {
    match s {
        LinkSpeed::Low | LinkSpeed::Full => 64,
        LinkSpeed::High => 512,
        LinkSpeed::Super | LinkSpeed::SuperPlus => 1024,
    }
}

/// Largest packet of a bulk endpoint at this link speed.
pub fn max_packet_size(s: LinkSpeed) -> (r: u16)
    ensures
        r == spec_max_packet_size(s),
{
    match s {
        LinkSpeed::Low | LinkSpeed::Full => 64,
        LinkSpeed::High => 512,
        LinkSpeed::Super | LinkSpeed::SuperPlus => 1024,
    }
}

} // verus!
